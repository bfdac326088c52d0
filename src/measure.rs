use vstd::prelude::*;
use crate::config::{Config, FileMeasurementConfig, ModelDirMeasurementConfig};
use crate::digest::{digest_hex, digest_of, hex_lower, lower_of, algorithm_named, HashAlgorithm};
use crate::entries::PassLedger;
use crate::error::MeasurementError;

verus! {

/// What is sent to the attestation authority for one measured artifact.
#[derive(Debug, Clone, PartialEq, Eq)]
pub struct MeasurementRecord {
    /// Absent: the authority picks the register.
    pub register_index: Option<u64>,
    /// `file` or `model_dir`.
    pub domain: String,
    /// The measured artifact's path.
    pub operation: String,
    /// Lowercase hex digest, or the root hash printed by the verity tool.
    pub content: String,
}

/// What text `String::from_utf8_lossy` makes of a byte string.
pub uninterp spec fn utf8_lossy_of(b: Seq<u8>) -> Seq<char>;

/// A character with the Unicode White_Space property.
pub open spec fn is_white_space(c: char) -> bool {
    let u = c as u32;
    (0x9 <= u <= 0xd) || u == 0x20 || u == 0x85 || u == 0xa0 || u == 0x1680 || (0x2000 <= u <= 0x200a)
        || u == 0x2028 || u == 0x2029 || u == 0x202f || u == 0x205f || u == 0x3000
}

/// A text without its leading white space.
pub open spec fn trim_start_ws(s: Seq<char>) -> Seq<char>
    decreases s.len(),
{
    if s.len() > 0 && is_white_space(s[0]) {
        trim_start_ws(s.drop_first())
    } else {
        s
    }
}

/// A text without its trailing white space.
pub open spec fn trim_end_ws(s: Seq<char>) -> Seq<char>
    decreases s.len(),
{
    if s.len() > 0 && is_white_space(s.last()) {
        trim_end_ws(s.drop_last())
    } else {
        s
    }
}

/// A text without its leading and trailing white space.
pub open spec fn trim_ws(s: Seq<char>) -> Seq<char> {
    trim_end_ws(trim_start_ws(s))
}

/// Relies on String::from_utf8_lossy: the text depends on the bytes alone.
#[verifier::external_body]
fn utf8_lossy(b: &[u8]) -> (r: String)
    ensures
        r@ == utf8_lossy_of(b@),
{
    String::from_utf8_lossy(b).into_owned()
}

/// Relies on str::trim: leading and trailing characters with the Unicode
/// White_Space property removed.
#[verifier::external_body]
fn trim(s: &str) -> (r: String)
    ensures
        r@ == trim_ws(s@),
{
    s.trim().to_owned()
}

/// Measures the files that the glob patterns of the file domain match.
pub struct FileMeasurer;

/// One pass of the file measurer: the checked algorithm, the register, and
/// the keys taken up so far.
pub struct FilePass {
    pub algorithm: HashAlgorithm,
    pub register_index: u64,
    pub ledger: PassLedger,
}

impl FileMeasurer {
    pub fn new() -> (r: FileMeasurer) {
        FileMeasurer
    }

    pub fn name(&self) -> (r: &'static str)
        ensures
            r@ == "FileMeasurer"@,
    {
        "FileMeasurer"
    }

    /// The file domain's enabled flag.
    pub fn is_enabled(&self, cfg: &Config) -> (r: bool)
        ensures
            r == cfg.file_measurement.enable,
    {
        cfg.file_measurement.enable
    }

    /// Opens a pass. The configured algorithm is checked here, before any
    /// file is read: an unsupported one fails the whole pass.
    pub fn begin_pass(&self, cfg: &FileMeasurementConfig) -> (r: Result<FilePass, MeasurementError>)
        ensures
            algorithm_named(lower_of(cfg.hash_algorithm@)) matches Some(a) ==> (r matches Ok(p) && p.algorithm == a
                && p.register_index == cfg.pcr_index as u64 && p.ledger.seen_keys().is_empty()
                && p.ledger.measured_keys().len() == 0 && p.ledger.failed_keys().len() == 0),
            algorithm_named(lower_of(cfg.hash_algorithm@)) is None ==> (r matches Err(MeasurementError::UnsupportedHashAlgorithm(n))
                && n@ == lower_of(cfg.hash_algorithm@)),
    {
        match HashAlgorithm::from_name(cfg.hash_algorithm.as_str()) {
            Ok(algorithm) => Ok(FilePass {
                algorithm,
                register_index: cfg.pcr_index as u64,
                ledger: PassLedger::new(),
            }),
            Err(e) => Err(e),
        }
    }
}

impl FilePass {
    /// Considers a path that a pattern matched: only a regular file not yet
    /// taken up in this pass is to be read (and is taken up now).
    pub fn offer(&mut self, path: &String, is_file: bool) -> (r: bool)
        ensures
            r == (is_file && !old(self).ledger.seen_keys().contains(path@)),
            is_file ==> final(self).ledger.seen_keys() == old(self).ledger.seen_keys().insert(path@),
            !is_file ==> final(self).ledger.seen_keys() == old(self).ledger.seen_keys(),
            final(self).ledger.measured_keys() == old(self).ledger.measured_keys(),
            final(self).ledger.failed_keys() == old(self).ledger.failed_keys(),
            final(self).algorithm == old(self).algorithm,
            final(self).register_index == old(self).register_index,
    {
        if is_file {
            self.ledger.take_up(path)
        } else {
            false
        }
    }

    /// Takes the outcome of reading a taken-up file: its record to submit,
    /// or, for an unreadable file, none, the file then counting as failed.
    pub fn on_read(&mut self, path: &String, content: Option<&[u8]>) -> (r: Option<MeasurementRecord>)
        ensures
            final(self).algorithm == old(self).algorithm,
            final(self).register_index == old(self).register_index,
            final(self).ledger.seen_keys() == old(self).ledger.seen_keys(),
            final(self).ledger.measured_keys() == old(self).ledger.measured_keys(),
            content is None ==> r is None && final(self).ledger.failed_keys() == old(self).ledger.failed_keys().push(path@),
            content is Some ==> final(self).ledger.failed_keys() == old(self).ledger.failed_keys() && (r matches Some(rec)
                && rec.domain@ == "file"@ && rec.operation@ == path@
                && rec.content@ == hex_lower(digest_of(old(self).algorithm, content.unwrap()@))
                && rec.register_index == Some(old(self).register_index)),
    {
        match content {
            Some(bytes) => Some(self.record_for(path, bytes)),
            None => {
                self.ledger.settle(path, false);
                None
            },
        }
    }

    /// The record for a file read in this pass: domain `file`, the path as
    /// operation, the hex digest of the content, and the configured register.
    pub fn record_for(&self, path: &String, content: &[u8]) -> (r: MeasurementRecord)
        ensures
            r.domain@ == "file"@,
            r.operation@ == path@,
            r.content@ == hex_lower(digest_of(self.algorithm, content@)),
            r.register_index == Some(self.register_index),
    {
        MeasurementRecord {
            register_index: Some(self.register_index),
            domain: "file".to_owned(),
            operation: path.clone(),
            content: digest_hex(self.algorithm, content),
        }
    }
}

/// Measures content-addressed model directories through an external verity tool.
pub struct ModelDirMeasurer;

/// One pass of the model-directory measurer.
pub struct DirPass {
    pub register_index: Option<u64>,
    pub tool: String,
    pub ledger: PassLedger,
}

impl ModelDirMeasurer {
    pub fn new() -> (r: ModelDirMeasurer) {
        ModelDirMeasurer
    }

    pub fn name(&self) -> (r: &'static str)
        ensures
            r@ == "ModelDirMeasurer"@,
    {
        "ModelDirMeasurer"
    }

    /// The model-directory domain's enabled flag.
    pub fn is_enabled(&self, cfg: &Config) -> (r: bool)
        ensures
            r == cfg.model_dir_measurement.enable,
    {
        cfg.model_dir_measurement.enable
    }

    /// Opens a pass; the register index is carried over unchanged.
    pub fn begin_pass(&self, cfg: &ModelDirMeasurementConfig) -> (r: DirPass)
        ensures
            r.register_index == (match cfg.pcr_index {
                Some(i) => Some(i as u64),
                None => None::<u64>,
            }),
            r.tool@ == cfg.cryptpilot_binary@,
            r.ledger.seen_keys().is_empty(),
            r.ledger.measured_keys().len() == 0,
            r.ledger.failed_keys().len() == 0,
    {
        let register_index = match cfg.pcr_index {
            Some(i) => Some(i as u64),
            None => None,
        };
        DirPass { register_index, tool: cfg.cryptpilot_binary.clone(), ledger: PassLedger::new() }
    }
}

impl DirPass {
    /// Accepts a configured directory once it has been canonicalized (or not)
    /// and looked at: it must resolve, and be a directory.
    pub fn resolve_directory(&self, dir: &String, canonical: Option<String>, is_dir: bool) -> (r: Result<String, MeasurementError>)
        ensures
            canonical is None ==> r == Err::<String, MeasurementError>(MeasurementError::InvalidDirectory(*dir)),
            canonical is Some && !is_dir ==> r == Err::<String, MeasurementError>(MeasurementError::InvalidDirectory(canonical.unwrap())),
            canonical is Some && is_dir ==> r == Ok::<String, MeasurementError>(canonical.unwrap()),
    {
        match canonical {
            None => Err(MeasurementError::InvalidDirectory(dir.clone())),
            Some(c) => if is_dir {
                Ok(c)
            } else {
                Err(MeasurementError::InvalidDirectory(c))
            },
        }
    }

    /// Arguments of the step that builds the verified tree of `dir` and
    /// writes its hash artifact to `hash_output`.
    pub fn format_args(&self, dir: &String, hash_output: &String) -> (r: Vec<String>)
        ensures
            r@.len() == 5,
            r@[0]@ == "verity"@,
            r@[1]@ == "format"@,
            r@[2]@ == dir@,
            r@[3]@ == "--hash-output"@,
            r@[4]@ == hash_output@,
    {
        let mut r: Vec<String> = Vec::new();
        r.push("verity".to_owned());
        r.push("format".to_owned());
        r.push(dir.clone());
        r.push("--hash-output".to_owned());
        r.push(hash_output.clone());
        r
    }

    /// Arguments of the step that prints the root hash of `dir`.
    pub fn dump_args(&self, dir: &String) -> (r: Vec<String>)
        ensures
            r@.len() == 5,
            r@[0]@ == "verity"@,
            r@[1]@ == "dump"@,
            r@[2]@ == "--data-dir"@,
            r@[3]@ == dir@,
            r@[4]@ == "--print-root-hash"@,
    {
        let mut r: Vec<String> = Vec::new();
        r.push("verity".to_owned());
        r.push("dump".to_owned());
        r.push("--data-dir".to_owned());
        r.push(dir.clone());
        r.push("--print-root-hash".to_owned());
        r
    }

    /// Judges a finished run of the tool, started with `args`, by its exit
    /// status; a failure names the program, the arguments, the exit code
    /// and the trimmed standard error.
    pub fn check_exit(&self, args: &Vec<String>, success: bool, code: Option<i32>, stderr: &[u8]) -> (r: Result<(), MeasurementError>)
        ensures
            success ==> r is Ok,
            !success ==> (r matches Err(MeasurementError::CommandFailed { program, args: a, code: c, stderr: text })
                && program@ == self.tool@ && a@ == args@ && c == code && text@ == trim_ws(utf8_lossy_of(stderr@))),
    {
        if success {
            Ok(())
        } else {
            let text = utf8_lossy(stderr);
            Err(MeasurementError::CommandFailed {
                program: self.tool.clone(),
                args: args.clone(),
                code,
                stderr: trim(text.as_str()),
            })
        }
    }

    /// Reads the root hash off the dump step's standard output: the trimmed
    /// text, which must not be empty.
    pub fn root_hash(&self, dir: &String, stdout: &[u8]) -> (r: Result<String, MeasurementError>)
        ensures
            trim_ws(utf8_lossy_of(stdout@)).len() > 0 ==> (r matches Ok(h) && h@ == trim_ws(utf8_lossy_of(stdout@))),
            trim_ws(utf8_lossy_of(stdout@)).len() == 0 ==> r == Err::<String, MeasurementError>(MeasurementError::EmptyRootHash(*dir)),
    {
        let text = utf8_lossy(stdout);
        let h = trim(text.as_str());
        if h.as_str().is_empty() {
            Err(MeasurementError::EmptyRootHash(dir.clone()))
        } else {
            Ok(h)
        }
    }

    /// The record for a measured directory: domain `model_dir`, the
    /// canonical path as operation, the root hash as content.
    pub fn record_for(&self, canonical_dir: &String, root_hash: String) -> (r: MeasurementRecord)
        ensures
            r.domain@ == "model_dir"@,
            r.operation@ == canonical_dir@,
            r.content == root_hash,
            r.register_index == self.register_index,
    {
        MeasurementRecord {
            register_index: self.register_index,
            domain: "model_dir".to_owned(),
            operation: canonical_dir.clone(),
            content: root_hash,
        }
    }
}

} // verus!
