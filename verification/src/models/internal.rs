use vstd::prelude::*;

verus! {

/// Settings of a launcher instance.
#[derive(Debug, Clone)]
pub struct OxiditeConfig {
    /// The directory that holds the game's files.
    pub base_path: String,
    pub java_path: String,
    pub max_parallel_downloads: usize,
    pub memory_gb: u8,
    pub extra_jvm_args: Vec<String>,
}

impl Default for OxiditeConfig {
    fn default() -> (r: Self)
        ensures
            r.base_path@ == "./minecraft.oxidite"@,
            r.java_path@ == "java"@,
            r.max_parallel_downloads == 10,
            r.memory_gb == 2,
            r.extra_jvm_args@.len() == 0,
    {
        OxiditeConfig {
            base_path: "./minecraft.oxidite".to_owned(),
            java_path: "java".to_owned(),
            max_parallel_downloads: 10,
            memory_gb: 2,
            extra_jvm_args: Vec::new(),
        }
    }
}

/// What can go wrong while preparing or launching a version.
#[derive(Debug)]
pub enum OxiditeError {
    /// A request to a server failed; the text describes it.
    Network(String),
    /// Reading or writing a file failed; the text describes it.
    Io(String),
    /// A downloaded file does not have the expected SHA-1.
    HashMismatch { expected: String, found: String },
    /// The manifest lists no version with this id.
    VersionNotFound(String),
    /// The manifest or a version's metadata lacks something that is needed.
    MetadataError(String),
    /// Java is missing or too old.
    JavaError(String),
    /// A JSON document could not be read.
    Json(String),
    /// Anything else.
    Unknown(String),
}

pub type OxiditeResult<T> = Result<T, OxiditeError>;

/// How far a batch of downloads has come.
#[derive(Debug, Clone)]
pub struct ProgressReport {
    pub current: usize,
    pub total: usize,
    pub message: String,
}

} // verus!
