//! The declared state: which repository, and the labels it is to have.

use vstd::prelude::*;
use crate::error::LabelsError;
use crate::label::{
    decode_all, label_views, labels_from_wire, wire_views, Label, LabelView, WireLabel,
    WireLabelView,
};

verus! {

/// The name of the file that declares the labels of a repository.
pub const CONFIG_FILE: &'static str = ".labelsrc.json";

/// The name of the variable of the process environment that holds the access
/// token.
pub const LABELS_TOKEN: &'static str = "LABELS_TOKEN";

pub enum ConfigFileView {
    Missing,
    Invalid,
    Parsed { owner: Seq<char>, repo: Seq<char>, labels: Seq<WireLabelView> },
}

/// What reading the configuration file gave.
#[derive(Debug)]
pub enum ConfigFile {
    /// There is no such file, or it cannot be read.
    Missing,
    /// The file is not a JSON object with the texts `owner` and `repo` and the
    /// list `labels` of label objects, each with a name.
    Invalid,
    /// The fields of the file's object.
    Parsed { owner: String, repo: String, labels: Vec<WireLabel> },
}

impl View for ConfigFile {
    type V = ConfigFileView;

    open spec fn view(&self) -> ConfigFileView {
        match *self {
            ConfigFile::Missing => ConfigFileView::Missing,
            ConfigFile::Invalid => ConfigFileView::Invalid,
            ConfigFile::Parsed { owner, repo, labels } => ConfigFileView::Parsed {
                owner: owner@,
                repo: repo@,
                labels: wire_views(labels@),
            },
        }
    }
}

pub struct ConfigView {
    pub repo: Seq<char>,
    pub owner: Seq<char>,
    pub labels: Seq<LabelView>,
}

/// The repository to work on and the labels declared for it, in the order of
/// their declaration. Two declared labels may have the same name: each is
/// kept.
#[derive(Debug)]
pub struct Config {
    repo: String,
    owner: String,
    labels: Vec<Label>,
}

impl View for Config {
    type V = ConfigView;

    closed spec fn view(&self) -> ConfigView {
        ConfigView { repo: self.repo@, owner: self.owner@, labels: label_views(self.labels@) }
    }
}

impl ConfigFileView {
    /// The configuration that a file declares, or why it declares none. The
    /// labels are those of the file in its order; a label without a colour or
    /// a description has the empty text for it.
    pub open spec fn declared(self) -> Result<ConfigView, LabelsError> {
        match self {
            ConfigFileView::Missing => Err(LabelsError::ConfigMissing),
            ConfigFileView::Invalid => Err(LabelsError::ConfigInvalid),
            ConfigFileView::Parsed { owner, repo, labels } => Ok(
                ConfigView { repo, owner, labels: decode_all(labels) },
            ),
        }
    }
}

/// The outcome of `Config::new` as a value of the model.
pub open spec fn config_view(config: Result<Config, LabelsError>) -> Result<
    ConfigView,
    LabelsError,
> {
    match config {
        Ok(config) => Ok(config@),
        Err(error) => Err(error),
    }
}

impl Config {
    /// The configuration that the configuration file declares. A missing file
    /// gives `ConfigMissing`, an invalid one `ConfigInvalid`.
    pub fn new(file: ConfigFile) -> (config: Result<Config, LabelsError>)
        ensures
            config_view(config) == file@.declared(),
    {
        match file {
            ConfigFile::Missing => Err(LabelsError::ConfigMissing),
            ConfigFile::Invalid => Err(LabelsError::ConfigInvalid),
            ConfigFile::Parsed { owner, repo, labels } => {
                let labels = labels_from_wire(&labels);
                Ok(Config { repo, owner, labels })
            },
        }
    }

    /// The name of the repository.
    pub fn repo(&self) -> (text: &str)
        ensures
            text@ == self@.repo,
    {
        self.repo.as_str()
    }

    /// The owner of the repository.
    pub fn owner(&self) -> (text: &str)
        ensures
            text@ == self@.owner,
    {
        self.owner.as_str()
    }

    /// The declared labels, in the order of their declaration.
    pub fn labels(&self) -> (labels: &Vec<Label>)
        ensures
            label_views(labels@) == self@.labels,
    {
        &self.labels
    }
}

} // verus!
