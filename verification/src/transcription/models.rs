//! The built-in model registry and the download status of its models.

use std::path::{Path, PathBuf};
use vstd::prelude::*;
use vstd::string::StringExecFns;

use crate::paths::{join, path_joined, path_of};
use crate::text::texts;
use crate::transcription::{
    DownloadStatus, ModelDescription, ModelVariant, Quantization, TranscriptionModel,
};

verus! {

/// How many models are built in.
pub const BUILTIN_MODELS: usize = 7;

/// Where the models and their registry are stored.
pub fn models_dir_path(app_data_dir: &Path) -> (path: PathBuf)
    ensures
        path == path_joined(app_data_dir, "models"@),
{
    join(app_data_dir, "models")
}

/// Where a model that is a single file is stored.
pub fn model_file_path(app_data_dir: &Path, filename: &str) -> (path: PathBuf)
    ensures
        path == path_joined(path_of(&path_joined(app_data_dir, "models"@)), filename@),
{
    let models_dir = models_dir_path(app_data_dir);
    join(models_dir.as_path(), filename)
}

/// Where the files of a model that is made of several are stored.
pub fn model_dir_path(app_data_dir: &Path, model_id: &str) -> (path: PathBuf)
    ensures
        path == path_joined(path_of(&path_joined(app_data_dir, "models"@)), model_id@),
{
    let models_dir = models_dir_path(app_data_dir);
    join(models_dir.as_path(), model_id)
}

/// Where the registry is stored.
pub fn registry_path(models_dir: &Path) -> (path: PathBuf)
    ensures
        path == path_joined(models_dir, "registry.json"@),
{
    join(models_dir, "registry.json")
}

/// The texts of `items` as owned strings.
fn strings(items: &[&str]) -> (owned: Vec<String>)
    ensures
        owned@.len() == items@.len(),
        forall|i: int| 0 <= i < items@.len() ==> (#[trigger] owned@[i])@ == items@[i]@,
{
    let mut owned: Vec<String> = Vec::new();
    let mut i: usize = 0;
    while i < items.len()
        invariant
            i <= items@.len(),
            owned@.len() == i,
            forall|k: int| 0 <= k < i ==> (#[trigger] owned@[k])@ == items@[k]@,
        decreases items@.len() - i,
    {
        owned.push(String::from_str(items[i]));
        i += 1;
    }
    owned
}

/// The description of the built-in model at position `i`.
pub open spec fn builtin_description(i: int) -> ModelDescription {
    if i == 0 {
        ModelDescription {
            id: "base-en-q5_1"@,
            name: "Base English (Quantized)"@,
            model_family: "Whisper"@,
            variant: ModelVariant::Base,
            size_bytes: 62914560,
            languages: seq!["en"@],
            quantization: Some(Quantization::Q5_1),
            huggingface_repo: "ggerganov/whisper.cpp"@,
            huggingface_filenames: seq!["ggml-base.en-q5_1.bin"@],
        }
    } else if i == 1 {
        ModelDescription {
            id: "small-en"@,
            name: "Small English"@,
            model_family: "Whisper"@,
            variant: ModelVariant::Small,
            size_bytes: 488636416,
            languages: seq!["en"@],
            quantization: None,
            huggingface_repo: "ggerganov/whisper.cpp"@,
            huggingface_filenames: seq!["ggml-small.en.bin"@],
        }
    } else if i == 2 {
        ModelDescription {
            id: "small-en-q5_1"@,
            name: "Small English (Quantized)"@,
            model_family: "Whisper"@,
            variant: ModelVariant::Small,
            size_bytes: 199229440,
            languages: seq!["en"@],
            quantization: Some(Quantization::Q5_1),
            huggingface_repo: "ggerganov/whisper.cpp"@,
            huggingface_filenames: seq!["ggml-small.en-q5_1.bin"@],
        }
    } else if i == 3 {
        ModelDescription {
            id: "large-v3-turbo-q5_0"@,
            name: "Large V3 Turbo (Quantized)"@,
            model_family: "Whisper"@,
            variant: ModelVariant::LargeV3Turbo,
            size_bytes: 573571072,
            languages: seq!["en"@, "zh"@, "de"@, "es"@, "fr"@, "it"@, "ja"@, "ko"@, "pt"@, "ru"@],
            quantization: Some(Quantization::Q5_0),
            huggingface_repo: "ggerganov/whisper.cpp"@,
            huggingface_filenames: seq!["ggml-large-v3-turbo-q5_0.bin"@],
        }
    } else if i == 4 {
        ModelDescription {
            id: "parakeet-ctc-0.6b"@,
            name: "Parakeet CTC 0.6B"@,
            model_family: "Parakeet"@,
            variant: ModelVariant::ParakeetCTC,
            size_bytes: 2516582400,
            languages: seq!["en"@],
            quantization: None,
            huggingface_repo: "onnx-community/parakeet-ctc-0.6b-ONNX"@,
            huggingface_filenames: seq![
                "onnx/model.onnx"@, "onnx/model.onnx_data"@, "config.json"@,
                "preprocessor_config.json"@, "tokenizer.json"@, "tokenizer_config.json"@,
            ],
        }
    } else if i == 5 {
        ModelDescription {
            id: "parakeet-tdt-0.6b-v3"@,
            name: "Parakeet TDT 0.6B v3"@,
            model_family: "Parakeet"@,
            variant: ModelVariant::ParakeetTDT,
            size_bytes: 3435973837,
            languages: seq![
                "en"@, "zh"@, "de"@, "es"@, "fr"@, "it"@, "ja"@, "ko"@, "pt"@, "ru"@, "nl"@, "pl"@,
                "uk"@, "hi"@, "ar"@, "sv"@, "fi"@, "no"@, "da"@, "tr"@, "he"@, "hu"@, "cs"@, "el"@,
                "ca"@,
            ],
            quantization: None,
            huggingface_repo: "istupakov/parakeet-tdt-0.6b-v3-onnx"@,
            huggingface_filenames: seq![
                "encoder-model.onnx"@, "encoder-model.onnx.data"@, "decoder_joint-model.onnx"@,
                "vocab.txt"@,
            ],
        }
    } else {
        ModelDescription {
            id: "parakeet-eou-120m"@,
            name: "Parakeet Realtime EOU 120M"@,
            model_family: "Parakeet"@,
            variant: ModelVariant::ParakeetEOU,
            size_bytes: 481000000,
            languages: seq!["en"@],
            quantization: None,
            huggingface_repo: "altunenes/parakeet-rs"@,
            huggingface_filenames: seq![
                "realtime_eou_120m-v1-onnx/encoder.onnx"@,
                "realtime_eou_120m-v1-onnx/decoder_joint.onnx"@,
                "realtime_eou_120m-v1-onnx/tokenizer.json"@,
            ],
        }
    }
}

/// `models` is the built-in registry with no model downloaded.
pub open spec fn is_builtin_registry(models: Seq<TranscriptionModel>) -> bool {
    &&& models.len() == BUILTIN_MODELS
    &&& forall|i: int|
        0 <= i < models.len() ==> {
            &&& (#[trigger] models[i]).description() == builtin_description(i)
            &&& models[i].download_status == DownloadStatus::NotDownloaded
        }
}

/// The models that are built in, none of them downloaded.
pub fn builtin_model_definitions() -> (models: Vec<TranscriptionModel>)
    ensures
        is_builtin_registry(models@),
{
    let mut models: Vec<TranscriptionModel> = Vec::new();
    let languages = strings(&["en"]);
    let filenames = strings(&["ggml-base.en-q5_1.bin"]);
    assert(texts(languages@) =~= builtin_description(0).languages);
    assert(texts(filenames@) =~= builtin_description(0).huggingface_filenames);
    models.push(
        TranscriptionModel {
            id: String::from_str("base-en-q5_1"),
            name: String::from_str("Base English (Quantized)"),
            model_family: String::from_str("Whisper"),
            variant: ModelVariant::Base,
            size_bytes: 60 * 1024 * 1024,
            languages,
            quantization: Some(Quantization::Q5_1),
            download_status: DownloadStatus::NotDownloaded,
            huggingface_repo: String::from_str("ggerganov/whisper.cpp"),
            huggingface_filenames: filenames,
        },
    );
    assert(models@[0].description() == builtin_description(0));
    let languages = strings(&["en"]);
    let filenames = strings(&["ggml-small.en.bin"]);
    assert(texts(languages@) =~= builtin_description(1).languages);
    assert(texts(filenames@) =~= builtin_description(1).huggingface_filenames);
    models.push(
        TranscriptionModel {
            id: String::from_str("small-en"),
            name: String::from_str("Small English"),
            model_family: String::from_str("Whisper"),
            variant: ModelVariant::Small,
            size_bytes: 466 * 1024 * 1024,
            languages,
            quantization: None,
            download_status: DownloadStatus::NotDownloaded,
            huggingface_repo: String::from_str("ggerganov/whisper.cpp"),
            huggingface_filenames: filenames,
        },
    );
    assert(models@[1].description() == builtin_description(1));
    let languages = strings(&["en"]);
    let filenames = strings(&["ggml-small.en-q5_1.bin"]);
    assert(texts(languages@) =~= builtin_description(2).languages);
    assert(texts(filenames@) =~= builtin_description(2).huggingface_filenames);
    models.push(
        TranscriptionModel {
            id: String::from_str("small-en-q5_1"),
            name: String::from_str("Small English (Quantized)"),
            model_family: String::from_str("Whisper"),
            variant: ModelVariant::Small,
            size_bytes: 190 * 1024 * 1024,
            languages,
            quantization: Some(Quantization::Q5_1),
            download_status: DownloadStatus::NotDownloaded,
            huggingface_repo: String::from_str("ggerganov/whisper.cpp"),
            huggingface_filenames: filenames,
        },
    );
    assert(models@[2].description() == builtin_description(2));
    let languages = strings(&["en", "zh", "de", "es", "fr", "it", "ja", "ko", "pt", "ru"]);
    let filenames = strings(&["ggml-large-v3-turbo-q5_0.bin"]);
    assert(texts(languages@) =~= builtin_description(3).languages);
    assert(texts(filenames@) =~= builtin_description(3).huggingface_filenames);
    models.push(
        TranscriptionModel {
            id: String::from_str("large-v3-turbo-q5_0"),
            name: String::from_str("Large V3 Turbo (Quantized)"),
            model_family: String::from_str("Whisper"),
            variant: ModelVariant::LargeV3Turbo,
            size_bytes: 547 * 1024 * 1024,
            languages,
            quantization: Some(Quantization::Q5_0),
            download_status: DownloadStatus::NotDownloaded,
            huggingface_repo: String::from_str("ggerganov/whisper.cpp"),
            huggingface_filenames: filenames,
        },
    );
    assert(models@[3].description() == builtin_description(3));
    let languages = strings(&["en"]);
    let filenames = strings(&[
        "onnx/model.onnx", "onnx/model.onnx_data", "config.json", "preprocessor_config.json",
        "tokenizer.json", "tokenizer_config.json",
    ]);
    assert(texts(languages@) =~= builtin_description(4).languages);
    assert(texts(filenames@) =~= builtin_description(4).huggingface_filenames);
    models.push(
        TranscriptionModel {
            id: String::from_str("parakeet-ctc-0.6b"),
            name: String::from_str("Parakeet CTC 0.6B"),
            model_family: String::from_str("Parakeet"),
            variant: ModelVariant::ParakeetCTC,
            size_bytes: 2_516_582_400,
            languages,
            quantization: None,
            download_status: DownloadStatus::NotDownloaded,
            huggingface_repo: String::from_str("onnx-community/parakeet-ctc-0.6b-ONNX"),
            huggingface_filenames: filenames,
        },
    );
    assert(models@[4].description() == builtin_description(4));
    let languages = strings(&[
        "en", "zh", "de", "es", "fr", "it", "ja", "ko", "pt", "ru", "nl", "pl", "uk", "hi", "ar",
        "sv", "fi", "no", "da", "tr", "he", "hu", "cs", "el", "ca",
    ]);
    let filenames = strings(&[
        "encoder-model.onnx", "encoder-model.onnx.data", "decoder_joint-model.onnx", "vocab.txt",
    ]);
    assert(texts(languages@) =~= builtin_description(5).languages);
    assert(texts(filenames@) =~= builtin_description(5).huggingface_filenames);
    models.push(
        TranscriptionModel {
            id: String::from_str("parakeet-tdt-0.6b-v3"),
            name: String::from_str("Parakeet TDT 0.6B v3"),
            model_family: String::from_str("Parakeet"),
            variant: ModelVariant::ParakeetTDT,
            size_bytes: 3_435_973_837,
            languages,
            quantization: None,
            download_status: DownloadStatus::NotDownloaded,
            huggingface_repo: String::from_str("istupakov/parakeet-tdt-0.6b-v3-onnx"),
            huggingface_filenames: filenames,
        },
    );
    assert(models@[5].description() == builtin_description(5));
    let languages = strings(&["en"]);
    let filenames = strings(&[
        "realtime_eou_120m-v1-onnx/encoder.onnx", "realtime_eou_120m-v1-onnx/decoder_joint.onnx",
        "realtime_eou_120m-v1-onnx/tokenizer.json",
    ]);
    assert(texts(languages@) =~= builtin_description(6).languages);
    assert(texts(filenames@) =~= builtin_description(6).huggingface_filenames);
    models.push(
        TranscriptionModel {
            id: String::from_str("parakeet-eou-120m"),
            name: String::from_str("Parakeet Realtime EOU 120M"),
            model_family: String::from_str("Parakeet"),
            variant: ModelVariant::ParakeetEOU,
            size_bytes: 481_000_000,
            languages,
            quantization: None,
            download_status: DownloadStatus::NotDownloaded,
            huggingface_repo: String::from_str("altunenes/parakeet-rs"),
            huggingface_filenames: filenames,
        },
    );
    assert(models@[6].description() == builtin_description(6));
    models
}

/// The built-in models bear seven different identifiers.
pub proof fn lemma_builtin_ids_distinct()
    ensures
        forall|i: int, j: int|
            0 <= i < j < BUILTIN_MODELS ==> builtin_description(i).id != builtin_description(j).id,
{
    reveal_strlit("base-en-q5_1");
    reveal_strlit("small-en");
    reveal_strlit("small-en-q5_1");
    reveal_strlit("large-v3-turbo-q5_0");
    reveal_strlit("parakeet-ctc-0.6b");
    reveal_strlit("parakeet-tdt-0.6b-v3");
    reveal_strlit("parakeet-eou-120m");
    assert("base-en-q5_1"@.len() == 12);
    assert("small-en"@.len() == 8);
    assert("small-en-q5_1"@.len() == 13);
    assert("large-v3-turbo-q5_0"@.len() == 19);
    assert("parakeet-ctc-0.6b"@.len() == 17);
    assert("parakeet-tdt-0.6b-v3"@.len() == 20);
    assert("parakeet-eou-120m"@.len() == 17);
    assert("parakeet-ctc-0.6b"@[9] == 'c');
    assert("parakeet-eou-120m"@[9] == 'e');
    assert forall|i: int, j: int| 0 <= i < j < BUILTIN_MODELS implies builtin_description(i).id
        != builtin_description(j).id by {
        if i == 4 && j == 6 {
            assert(builtin_description(i).id[9] != builtin_description(j).id[9]);
        } else {
            assert(builtin_description(i).id.len() != builtin_description(j).id.len());
        }
    }
}

/// The status that the first among the first `n` registry entries with
/// identifier `id` records, if there is such an entry.
pub open spec fn recorded_status(
    registry: Seq<TranscriptionModel>,
    id: Seq<char>,
    n: int,
) -> Option<DownloadStatus>
    decreases n,
{
    if n <= 0 {
        None
    } else if exists|j: int| 0 <= j < n - 1 && registry[j].id@ == id {
        recorded_status(registry, id, n - 1)
    } else if registry[n - 1].id@ == id {
        Some(registry[n - 1].download_status)
    } else {
        None
    }
}

/// The status of the built-in model `id` under a saved registry: what the
/// registry records for it, and not downloaded where it records nothing.
pub open spec fn status_under(registry: Seq<TranscriptionModel>, id: Seq<char>) -> DownloadStatus {
    match recorded_status(registry, id, registry.len() as int) {
        Some(status) => status,
        None => DownloadStatus::NotDownloaded,
    }
}

/// `models` is the built-in registry with the download status that
/// `registry` records for each model.
pub open spec fn is_registry_view(
    models: Seq<TranscriptionModel>,
    registry: Seq<TranscriptionModel>,
) -> bool {
    &&& models.len() == BUILTIN_MODELS
    &&& forall|i: int|
        0 <= i < models.len() ==> {
            &&& (#[trigger] models[i]).description() == builtin_description(i)
            &&& models[i].download_status == status_under(registry, builtin_description(i).id)
        }
}

/// Computes [`recorded_status`] over the whole registry.
fn find_status(registry: &[TranscriptionModel], id: &String) -> (status: Option<DownloadStatus>)
    ensures
        status == recorded_status(registry@, id@, registry@.len() as int),
{
    let mut i: usize = 0;
    while i < registry.len()
        invariant
            i <= registry@.len(),
            forall|j: int| 0 <= j < i ==> registry@[j].id@ != id@,
            recorded_status(registry@, id@, i as int) is None,
        decreases registry@.len() - i,
    {
        if registry[i].id == *id {
            let status = registry[i].download_status.duplicate();
            proof {
                lemma_recorded_status_settled(registry@, id@, i as int, registry@.len() as int);
            }
            return Some(status);
        }
        i += 1;
    }
    None
}

/// Once an entry with `id` is found and none stands before it, later entries
/// do not change what is recorded for `id`.
proof fn lemma_recorded_status_settled(
    registry: Seq<TranscriptionModel>,
    id: Seq<char>,
    first: int,
    n: int,
)
    requires
        0 <= first < n <= registry.len(),
        registry[first].id@ == id,
        forall|j: int| 0 <= j < first ==> registry[j].id@ != id,
    ensures
        recorded_status(registry, id, n) == Some(registry[first].download_status),
    decreases n,
{
    if n - 1 > first {
        lemma_recorded_status_settled(registry, id, first, n - 1);
        assert(registry[first].id@ == id);
    }
}

/// The built-in registry with the download status that a saved registry
/// records.
pub fn get_builtin_models(registry: &[TranscriptionModel]) -> (models: Vec<TranscriptionModel>)
    ensures
        is_registry_view(models@, registry@),
{
    let definitions = builtin_model_definitions();
    let ghost all = definitions@;
    let mut models: Vec<TranscriptionModel> = Vec::new();
    for definition in it: definitions.into_iter()
        invariant
            it.seq() == all,
            is_builtin_registry(all),
            models@.len() == it.index(),
            forall|i: int|
                0 <= i < models@.len() ==> {
                    &&& (#[trigger] models@[i]).description() == builtin_description(i)
                    &&& models@[i].download_status == status_under(
                        registry@,
                        builtin_description(i).id,
                    )
                },
    {
        let ghost i = it.index() as int;
        assert(definition == all[i]);
        let mut model = definition;
        match find_status(registry, &model.id) {
            Some(status) => {
                model.download_status = status;
            },
            None => {},
        }
        assert(model.description() == all[i].description());
        models.push(model);
    }
    models
}

/// `models` is `before` with the status of the first model that bears `id`
/// replaced by `status`; without such a model it is `before`.
pub open spec fn is_status_update(
    models: Seq<TranscriptionModel>,
    before: Seq<TranscriptionModel>,
    id: Seq<char>,
    status: DownloadStatus,
) -> bool {
    &&& models.len() == before.len()
    &&& forall|i: int|
        0 <= i < models.len() ==> {
            &&& (#[trigger] models[i]).description() == before[i].description()
            &&& models[i].download_status == if before[i].id@ == id && forall|j: int|
                0 <= j < i ==> before[j].id@ != id {
                status
            } else {
                before[i].download_status
            }
        }
}

/// Set the download status of one model.
///
/// The result is the registry that is to be saved: the built-in models with
/// the status that `registry` records for each, but `status` for the model
/// `model_id`. An identifier that no built-in model bears changes nothing.
pub fn update_model_status(
    registry: &[TranscriptionModel],
    model_id: &str,
    status: DownloadStatus,
) -> (models: Vec<TranscriptionModel>)
    ensures
        exists|before: Seq<TranscriptionModel>|
            is_registry_view(before, registry@) && #[trigger] is_status_update(
                models@,
                before,
                model_id@,
                status,
            ),
{
    let current = get_builtin_models(registry);
    let ghost before = current@;
    let wanted = String::from_str(model_id);
    let mut pending = Some(status);
    let mut models: Vec<TranscriptionModel> = Vec::new();
    for entry in it: current.into_iter()
        invariant
            it.seq() == before,
            wanted@ == model_id@,
            models@.len() == it.index(),
            pending is Some <==> forall|j: int| 0 <= j < it.index() ==> before[j].id@ != model_id@,
            pending is Some ==> pending == Some(status),
            forall|i: int|
                0 <= i < models@.len() ==> {
                    &&& (#[trigger] models@[i]).description() == before[i].description()
                    &&& models@[i].download_status == if before[i].id@ == model_id@ && forall|
                        j: int,
                    |
                        0 <= j < i ==> before[j].id@ != model_id@ {
                        status
                    } else {
                        before[i].download_status
                    }
                },
    {
        let ghost i = it.index() as int;
        assert(entry == before[i]);
        let mut model = entry;
        if model.id == wanted {
            match pending.take() {
                Some(new_status) => {
                    model.download_status = new_status;
                },
                None => {},
            }
        }
        assert(model.description() == before[i].description());
        models.push(model);
    }
    assert(is_status_update(models@, before, model_id@, status));
    models
}

} // verus!
