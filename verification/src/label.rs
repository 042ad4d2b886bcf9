//! Labels, and the form in which they travel as JSON objects.

use vstd::prelude::*;

verus! {

/// What a label is: three texts.
pub struct LabelView {
    pub name: Seq<char>,
    pub color: Seq<char>,
    pub description: Seq<char>,
}

/// A named, coloured, described tag. A repository tells its labels apart by
/// name. Once made a label does not change.
///
/// Any three texts make a label. A repository has no label without a name,
/// and no two of one name: it is the repository that refuses such a label
/// when it is asked to create it.
#[derive(Debug)]
pub struct Label {
    name: String,
    color: String,
    description: String,
}

impl View for Label {
    type V = LabelView;

    closed spec fn view(&self) -> LabelView {
        LabelView { name: self.name@, color: self.color@, description: self.description@ }
    }
}

/// What a label object of a JSON document held: the name, and each of the
/// other two fields where it was present and not null.
pub struct WireLabelView {
    pub name: Seq<char>,
    pub color: Option<Seq<char>>,
    pub description: Option<Seq<char>>,
}

/// A label as a JSON object carries it. `color` and `description` may be
/// missing from the object, or null: both read as `None`.
#[derive(Debug)]
pub struct WireLabel {
    pub name: String,
    pub color: Option<String>,
    pub description: Option<String>,
}

/// What an optional text holds.
pub open spec fn field_view(field: Option<String>) -> Option<Seq<char>> {
    match field {
        Some(text) => Some(text@),
        None => None,
    }
}

impl View for WireLabel {
    type V = WireLabelView;

    open spec fn view(&self) -> WireLabelView {
        WireLabelView {
            name: self.name@,
            color: field_view(self.color),
            description: field_view(self.description),
        }
    }
}

/// The text of an optional field: an absent one reads as the empty text.
pub open spec fn text_or_empty_spec(field: Option<Seq<char>>) -> Seq<char> {
    match field {
        Some(text) => text,
        None => Seq::empty(),
    }
}

impl WireLabelView {
    /// The label that a JSON object stands for.
    pub open spec fn decode(self) -> LabelView {
        LabelView {
            name: self.name,
            color: text_or_empty_spec(self.color),
            description: text_or_empty_spec(self.description),
        }
    }
}

impl LabelView {
    /// The JSON object that stands for a label: all three fields present,
    /// an empty text as an empty text.
    pub open spec fn encode(self) -> WireLabelView {
        WireLabelView {
            name: self.name,
            color: Some(self.color),
            description: Some(self.description),
        }
    }
}

/// The labels that a list of JSON objects stands for, in the same order.
pub open spec fn decode_all(objects: Seq<WireLabelView>) -> Seq<LabelView> {
    objects.map_values(|object: WireLabelView| object.decode())
}

/// The views of a list of labels.
pub open spec fn label_views(labels: Seq<Label>) -> Seq<LabelView> {
    labels.map_values(|label: Label| label@)
}

/// The views of a list of JSON label objects.
pub open spec fn wire_views(objects: Seq<WireLabel>) -> Seq<WireLabelView> {
    objects.map_values(|object: WireLabel| object@)
}

/// The names of a list of labels, in the same order.
pub open spec fn names(labels: Seq<LabelView>) -> Seq<Seq<char>> {
    labels.map_values(|label: LabelView| label.name)
}

/// The text of an optional field: an absent one reads as the empty text.
pub fn text_or_empty(field: &Option<String>) -> (text: String)
    ensures
        text@ == text_or_empty_spec(field_view(*field)),
{
    match field {
        Some(given) => given.clone(),
        None => String::new(),
    }
}

impl Label {
    /// A label of the given name, colour and description.
    pub fn new(name: String, color: String, description: String) -> (label: Label)
        ensures
            label@ == (LabelView { name: name@, color: color@, description: description@ }),
    {
        Label { name, color, description }
    }

    /// The label that a JSON object stands for: a missing or null colour or
    /// description is the empty text.
    pub fn from_wire(object: &WireLabel) -> (label: Label)
        ensures
            label@ == object@.decode(),
    {
        Label {
            name: object.name.clone(),
            color: text_or_empty(&object.color),
            description: text_or_empty(&object.description),
        }
    }

    /// The JSON object that stands for this label. It holds all three fields:
    /// an empty colour or description is sent as an empty text, never left
    /// out.
    pub fn to_wire(&self) -> (object: WireLabel)
        ensures
            object@ == self@.encode(),
    {
        WireLabel {
            name: self.name.clone(),
            color: Some(self.color.clone()),
            description: Some(self.description.clone()),
        }
    }

    /// Whether two labels are the same label of a repository, that is, have
    /// the same name. Colour and description are not compared.
    pub fn same_name(&self, other: &Label) -> (same: bool)
        ensures
            same == (self@.name == other@.name),
    {
        self.name == other.name
    }

    pub fn name(&self) -> (text: &str)
        ensures
            text@ == self@.name,
    {
        self.name.as_str()
    }

    pub fn color(&self) -> (text: &str)
        ensures
            text@ == self@.color,
    {
        self.color.as_str()
    }

    pub fn description(&self) -> (text: &str)
        ensures
            text@ == self@.description,
    {
        self.description.as_str()
    }
}

impl Clone for Label {
    fn clone(&self) -> (copy: Label)
        ensures
            copy@ == self@,
    {
        Label {
            name: self.name.clone(),
            color: self.color.clone(),
            description: self.description.clone(),
        }
    }
}

/// The labels that a list of JSON objects stands for, in the same order.
pub fn labels_from_wire(objects: &Vec<WireLabel>) -> (labels: Vec<Label>)
    ensures
        label_views(labels@) == decode_all(wire_views(objects@)),
{
    let mut labels: Vec<Label> = Vec::new();
    let mut i: usize = 0;
    while i < objects.len()
        invariant
            i <= objects.len(),
            labels.len() == i,
            forall|k: int| 0 <= k < i ==> (#[trigger] labels[k])@ == objects[k]@.decode(),
        decreases objects.len() - i,
    {
        labels.push(Label::from_wire(&objects[i]));
        i += 1;
    }
    assert(label_views(labels@) =~= decode_all(wire_views(objects@)));
    labels
}

/// Encoding a label and decoding it again gives the label back. In
/// particular an empty colour or description comes back as the empty text:
/// the encoded object holds it as a present, empty field.
pub proof fn lemma_encode_decode_round_trip(label: LabelView)
    ensures
        label.encode().decode() == label,
        label.encode().color == Some(label.color),
        label.encode().description == Some(label.description),
{
}

} // verus!
