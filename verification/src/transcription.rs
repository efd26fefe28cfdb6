//! Transcription models and engines.

use vstd::prelude::*;

use crate::text::texts;

pub mod engine;
pub mod models;

verus! {

/// The architecture and size class of a model.
#[derive(Debug, Clone, Copy, PartialEq, Eq, Structural)]
pub enum ModelVariant {
    Tiny,
    Base,
    Small,
    Medium,
    LargeV2,
    LargeV3,
    LargeV3Turbo,
    ParakeetCTC,
    ParakeetTDT,
    ParakeetEOU,
}

/// How the weights of a model are quantized.
#[allow(non_camel_case_types)]
#[derive(Debug, Clone, Copy, PartialEq, Eq, Structural)]
pub enum Quantization {
    Q4_0,
    Q4_1,
    Q5_0,
    Q5_1,
    Q8_0,
    Unquantized,
}

/// Whether a model is on disk.
#[derive(Debug, Clone, PartialEq, Eq)]
pub enum DownloadStatus {
    NotDownloaded,
    /// A download is under way; the progress is in percent, `0..=100`.
    Downloading { progress_percent: u8 },
    Downloaded { local_path: String },
    Error { message: String },
}

/// A model that the application can download and activate.
#[derive(Debug, Clone, PartialEq, Eq)]
pub struct TranscriptionModel {
    pub id: String,
    pub name: String,
    pub model_family: String,
    pub variant: ModelVariant,
    pub size_bytes: u64,
    pub languages: Vec<String>,
    pub quantization: Option<Quantization>,
    pub download_status: DownloadStatus,
    pub huggingface_repo: String,
    pub huggingface_filenames: Vec<String>,
}

/// What a model says of itself, apart from its download status.
pub struct ModelDescription {
    pub id: Seq<char>,
    pub name: Seq<char>,
    pub model_family: Seq<char>,
    pub variant: ModelVariant,
    pub size_bytes: u64,
    pub languages: Seq<Seq<char>>,
    pub quantization: Option<Quantization>,
    pub huggingface_repo: Seq<char>,
    pub huggingface_filenames: Seq<Seq<char>>,
}

impl DownloadStatus {
    /// A copy of the status, equal to it.
    pub fn duplicate(&self) -> (copy: Self)
        ensures
            copy == *self,
    {
        match self {
            DownloadStatus::NotDownloaded => DownloadStatus::NotDownloaded,
            DownloadStatus::Downloading { progress_percent } => DownloadStatus::Downloading {
                progress_percent: *progress_percent,
            },
            DownloadStatus::Downloaded { local_path } => DownloadStatus::Downloaded {
                local_path: local_path.clone(),
            },
            DownloadStatus::Error { message } => DownloadStatus::Error {
                message: message.clone(),
            },
        }
    }
}

impl TranscriptionModel {
    /// The model's description.
    pub open spec fn description(self) -> ModelDescription {
        ModelDescription {
            id: self.id@,
            name: self.name@,
            model_family: self.model_family@,
            variant: self.variant,
            size_bytes: self.size_bytes,
            languages: texts(self.languages@),
            quantization: self.quantization,
            huggingface_repo: self.huggingface_repo@,
            huggingface_filenames: texts(self.huggingface_filenames@),
        }
    }
}

} // verus!
