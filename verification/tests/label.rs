use labels::label::{labels_from_wire, text_or_empty, Label, WireLabel};

fn label(name: &str, color: &str, description: &str) -> Label {
    Label::new(name.to_string(), color.to_string(), description.to_string())
}

#[test]
fn new_label_keeps_its_three_texts() {
    let bug = label("bug", "d73a4a", "Something isn't working");
    assert_eq!(bug.name(), "bug");
    assert_eq!(bug.color(), "d73a4a");
    assert_eq!(bug.description(), "Something isn't working");
}

#[test]
fn label_may_have_empty_color_and_description() {
    let plain = label("plain", "", "");
    assert_eq!(plain.name(), "plain");
    assert_eq!(plain.color(), "");
    assert_eq!(plain.description(), "");
}

#[test]
fn clone_is_the_same_label() {
    let bug = label("bug", "d73a4a", "Something isn't working");
    let copy = bug.clone();
    assert_eq!(copy.name(), "bug");
    assert_eq!(copy.color(), "d73a4a");
    assert_eq!(copy.description(), "Something isn't working");
}

#[test]
fn text_or_empty_of_present_text_is_that_text() {
    assert_eq!(text_or_empty(&Some("docs".to_string())), "docs");
    assert_eq!(text_or_empty(&Some(String::new())), "");
}

#[test]
fn text_or_empty_of_absent_text_is_empty() {
    assert_eq!(text_or_empty(&None), "");
}

#[test]
fn from_wire_reads_all_fields() {
    let object = WireLabel {
        name: "bug".to_string(),
        color: Some("d73a4a".to_string()),
        description: Some("Something isn't working".to_string()),
    };
    let bug = Label::from_wire(&object);
    assert_eq!(bug.name(), "bug");
    assert_eq!(bug.color(), "d73a4a");
    assert_eq!(bug.description(), "Something isn't working");
}

#[test]
fn from_wire_reads_missing_description_as_empty() {
    let object =
        WireLabel { name: "old".to_string(), color: Some("ffffff".to_string()), description: None };
    let old = Label::from_wire(&object);
    assert_eq!(old.name(), "old");
    assert_eq!(old.color(), "ffffff");
    assert_eq!(old.description(), "");
}

#[test]
fn from_wire_reads_missing_color_as_empty() {
    let object =
        WireLabel { name: "old".to_string(), color: None, description: Some("kept".to_string()) };
    let old = Label::from_wire(&object);
    assert_eq!(old.color(), "");
    assert_eq!(old.description(), "kept");
}

#[test]
fn to_wire_holds_all_three_fields() {
    let object = label("bug", "d73a4a", "Something isn't working").to_wire();
    assert_eq!(object.name, "bug");
    assert_eq!(object.color, Some("d73a4a".to_string()));
    assert_eq!(object.description, Some("Something isn't working".to_string()));
}

#[test]
fn to_wire_sends_empty_texts_as_present_fields() {
    let object = label("plain", "", "").to_wire();
    assert_eq!(object.name, "plain");
    assert_eq!(object.color, Some(String::new()));
    assert_eq!(object.description, Some(String::new()));
}

#[test]
fn empty_color_and_description_survive_the_round_trip() {
    let back = Label::from_wire(&label("plain", "", "").to_wire());
    assert_eq!(back.name(), "plain");
    assert_eq!(back.color(), "");
    assert_eq!(back.description(), "");
}

#[test]
fn every_field_survives_the_round_trip() {
    let back = Label::from_wire(&label("bug", "d73a4a", "Something isn't working").to_wire());
    assert_eq!(back.name(), "bug");
    assert_eq!(back.color(), "d73a4a");
    assert_eq!(back.description(), "Something isn't working");
}

#[test]
fn same_name_compares_the_name_only() {
    let red = label("bug", "ff0000", "red");
    let blue = label("bug", "0000ff", "blue");
    let other = label("feature", "ff0000", "red");
    assert!(red.same_name(&blue));
    assert!(blue.same_name(&red));
    assert!(!red.same_name(&other));
}

#[test]
fn same_name_tells_case_apart() {
    assert!(!label("Bug", "", "").same_name(&label("bug", "", "")));
}

#[test]
fn labels_from_wire_keeps_order_and_duplicates() {
    let objects = vec![
        WireLabel { name: "b".to_string(), color: Some("1".to_string()), description: None },
        WireLabel { name: "a".to_string(), color: None, description: Some("x".to_string()) },
        WireLabel { name: "b".to_string(), color: None, description: None },
    ];
    let labels = labels_from_wire(&objects);
    assert_eq!(labels.len(), 3);
    assert_eq!(labels[0].name(), "b");
    assert_eq!(labels[0].color(), "1");
    assert_eq!(labels[0].description(), "");
    assert_eq!(labels[1].name(), "a");
    assert_eq!(labels[1].color(), "");
    assert_eq!(labels[1].description(), "x");
    assert_eq!(labels[2].name(), "b");
    assert_eq!(labels[2].color(), "");
    assert_eq!(labels[2].description(), "");
}

#[test]
fn labels_from_wire_of_nothing_is_nothing() {
    assert!(labels_from_wire(&Vec::new()).is_empty());
}
