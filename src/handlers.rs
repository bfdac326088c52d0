use vstd::prelude::*;
use crate::config::Config;
use crate::entries::{added_entries, distinct_keys, entry_set};
use crate::measure::{FileMeasurer, ModelDirMeasurer};

verus! {

/// Reacts to a confirmed configuration change in one domain: it finds the
/// entries that the new snapshot adds, so that only those are measured. The
/// entries of the file domain are the resolved paths of the regular files
/// that its patterns match; those of the model-directory domain are the
/// configured directories.
pub trait ConfigChangeHandler {
    /// The domain's enabled flag in a snapshot.
    spec fn enabled_in(cfg: Config) -> bool;

    /// The handler's stable name, for logs.
    spec fn name_spec() -> Seq<char>;

    fn name(&self) -> (r: &'static str)
        ensures
            r@ == Self::name_spec();

    fn is_enabled(&self, cfg: &Config) -> (r: bool)
        ensures
            r == Self::enabled_in(*cfg);

    /// The entries of the new snapshot that the old one lacks, each once;
    /// removed and unchanged entries are never among them.
    fn added(&self, old_entries: &Vec<String>, new_entries: &Vec<String>) -> (r: Vec<String>)
        ensures
            entry_set(r@) == entry_set(new_entries@).difference(entry_set(old_entries@)),
            distinct_keys(r@);
}

/// Handles changes of the file domain's glob patterns.
pub struct FileMeasurementChangeHandler {
    pub measurer: FileMeasurer,
}

/// Handles changes of the model-directory domain's directory list.
pub struct ModelDirMeasurementChangeHandler {
    pub measurer: ModelDirMeasurer,
}

impl FileMeasurementChangeHandler {
    pub fn new() -> (r: FileMeasurementChangeHandler) {
        FileMeasurementChangeHandler { measurer: FileMeasurer::new() }
    }
}

impl ModelDirMeasurementChangeHandler {
    pub fn new() -> (r: ModelDirMeasurementChangeHandler) {
        ModelDirMeasurementChangeHandler { measurer: ModelDirMeasurer::new() }
    }

    /// The directories that `new` configures and `old` does not, each once.
    pub fn added_directories(&self, old: &Config, new: &Config) -> (r: Vec<String>)
        ensures
            entry_set(r@) == entry_set(new.model_dir_measurement.directories@).difference(
                entry_set(old.model_dir_measurement.directories@),
            ),
            distinct_keys(r@),
    {
        self.added(&old.model_dir_measurement.directories, &new.model_dir_measurement.directories)
    }
}

impl ConfigChangeHandler for FileMeasurementChangeHandler {
    open spec fn enabled_in(cfg: Config) -> bool {
        cfg.file_measurement.enable
    }

    open spec fn name_spec() -> Seq<char> {
        "FileMeasurementChangeHandler"@
    }

    fn name(&self) -> (r: &'static str) {
        "FileMeasurementChangeHandler"
    }

    fn is_enabled(&self, cfg: &Config) -> (r: bool) {
        cfg.file_measurement.enable
    }

    fn added(&self, old_entries: &Vec<String>, new_entries: &Vec<String>) -> (r: Vec<String>) {
        added_entries(old_entries, new_entries)
    }
}

impl ConfigChangeHandler for ModelDirMeasurementChangeHandler {
    open spec fn enabled_in(cfg: Config) -> bool {
        cfg.model_dir_measurement.enable
    }

    open spec fn name_spec() -> Seq<char> {
        "ModelDirMeasurementChangeHandler"@
    }

    fn name(&self) -> (r: &'static str) {
        "ModelDirMeasurementChangeHandler"
    }

    fn is_enabled(&self, cfg: &Config) -> (r: bool) {
        cfg.model_dir_measurement.enable
    }

    fn added(&self, old_entries: &Vec<String>, new_entries: &Vec<String>) -> (r: Vec<String>) {
        added_entries(old_entries, new_entries)
    }
}

/// A registered change handler.
pub enum ChangeHandler {
    File(FileMeasurementChangeHandler),
    ModelDir(ModelDirMeasurementChangeHandler),
}

impl ChangeHandler {
    pub open spec fn enabled_in(&self, cfg: Config) -> bool {
        match self {
            ChangeHandler::File(_) => FileMeasurementChangeHandler::enabled_in(cfg),
            ChangeHandler::ModelDir(_) => ModelDirMeasurementChangeHandler::enabled_in(cfg),
        }
    }

    pub fn is_enabled(&self, cfg: &Config) -> (r: bool)
        ensures
            r == self.enabled_in(*cfg),
    {
        match self {
            ChangeHandler::File(h) => h.is_enabled(cfg),
            ChangeHandler::ModelDir(h) => h.is_enabled(cfg),
        }
    }

    pub open spec fn name_spec(&self) -> Seq<char> {
        match self {
            ChangeHandler::File(_) => FileMeasurementChangeHandler::name_spec(),
            ChangeHandler::ModelDir(_) => ModelDirMeasurementChangeHandler::name_spec(),
        }
    }

    pub fn name(&self) -> (r: &'static str)
        ensures
            r@ == self.name_spec(),
    {
        match self {
            ChangeHandler::File(h) => h.name(),
            ChangeHandler::ModelDir(h) => h.name(),
        }
    }
}

/// The handlers of the agent, in registration order: files first, then model directories.
pub fn default_handlers() -> (r: Vec<ChangeHandler>)
    ensures
        r@.len() == 2,
        r@[0] is File,
        r@[1] is ModelDir,
{
    let mut r: Vec<ChangeHandler> = Vec::new();
    r.push(ChangeHandler::File(FileMeasurementChangeHandler::new()));
    r.push(ChangeHandler::ModelDir(ModelDirMeasurementChangeHandler::new()));
    r
}

} // verus!
