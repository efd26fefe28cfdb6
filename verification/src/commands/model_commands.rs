//! Guards and decisions of the model commands.

use vstd::prelude::*;
use vstd::string::StringExecFns;

use crate::commands::{fails_with, CommandError};
use crate::transcription::{DownloadStatus, ModelVariant, TranscriptionModel};
use crate::AppState;

verus! {

/// The engine that runs a model.
#[derive(Debug, Clone, Copy, PartialEq, Eq, Structural)]
pub enum EngineChoice {
    Whisper,
    ParakeetCtc,
    ParakeetTdt,
    ParakeetEou,
}

/// The name of a variant, as it is written in messages.
pub open spec fn variant_name(variant: ModelVariant) -> Seq<char> {
    match variant {
        ModelVariant::Tiny => "Tiny"@,
        ModelVariant::Base => "Base"@,
        ModelVariant::Small => "Small"@,
        ModelVariant::Medium => "Medium"@,
        ModelVariant::LargeV2 => "LargeV2"@,
        ModelVariant::LargeV3 => "LargeV3"@,
        ModelVariant::LargeV3Turbo => "LargeV3Turbo"@,
        ModelVariant::ParakeetCTC => "ParakeetCTC"@,
        ModelVariant::ParakeetTDT => "ParakeetTDT"@,
        ModelVariant::ParakeetEOU => "ParakeetEOU"@,
    }
}

/// Computes [`variant_name`].
fn variant_name_of(variant: ModelVariant) -> (name: &'static str)
    ensures
        name@ == variant_name(variant),
{
    match variant {
        ModelVariant::Tiny => "Tiny",
        ModelVariant::Base => "Base",
        ModelVariant::Small => "Small",
        ModelVariant::Medium => "Medium",
        ModelVariant::LargeV2 => "LargeV2",
        ModelVariant::LargeV3 => "LargeV3",
        ModelVariant::LargeV3Turbo => "LargeV3Turbo",
        ModelVariant::ParakeetCTC => "ParakeetCTC",
        ModelVariant::ParakeetTDT => "ParakeetTDT",
        ModelVariant::ParakeetEOU => "ParakeetEOU",
    }
}

/// The engine that runs a model of this family and variant, or why there is
/// none.
pub open spec fn engine_choice(family: Seq<char>, variant: ModelVariant) -> Result<
    EngineChoice,
    Seq<char>,
> {
    if family == "Whisper"@ {
        Ok(EngineChoice::Whisper)
    } else if family == "Parakeet"@ {
        match variant {
            ModelVariant::ParakeetCTC => Ok(EngineChoice::ParakeetCtc),
            ModelVariant::ParakeetTDT => Ok(EngineChoice::ParakeetTdt),
            ModelVariant::ParakeetEOU => Ok(EngineChoice::ParakeetEou),
            _ => Err("Unexpected variant for Parakeet family: "@ + variant_name(variant)),
        }
    } else {
        Err("Unknown model family: "@ + family)
    }
}

/// Choose the engine that a model is loaded into.
pub fn engine_for_model(model: &TranscriptionModel) -> (choice: Result<EngineChoice, String>)
    ensures
        (match engine_choice(model.model_family@, model.variant) {
            Ok(engine) => choice == Ok::<EngineChoice, String>(engine),
            Err(message) => choice is Err && choice->Err_0@ == message,
        }),
{
    let whisper = String::from_str("Whisper");
    let parakeet = String::from_str("Parakeet");
    if model.model_family == whisper {
        Ok(EngineChoice::Whisper)
    } else if model.model_family == parakeet {
        match model.variant {
            ModelVariant::ParakeetCTC => Ok(EngineChoice::ParakeetCtc),
            ModelVariant::ParakeetTDT => Ok(EngineChoice::ParakeetTdt),
            ModelVariant::ParakeetEOU => Ok(EngineChoice::ParakeetEou),
            other => {
                let mut message = String::from_str("Unexpected variant for Parakeet family: ");
                message.append(variant_name_of(other));
                Err(message)
            },
        }
    } else {
        let mut message = String::from_str("Unknown model family: ");
        message.append(model.model_family.as_str());
        Err(message)
    }
}

/// Validate that the active model can be switched: no recording is under
/// way.
pub fn validate_can_set_active_model<C, E>(state: &AppState<C, E>) -> (result: Result<
    (),
    CommandError,
>)
    ensures
        state.recording_active ==> fails_with(
            result,
            "RecordingInProgress"@,
            "Cannot switch models while recording is in progress. Stop recording first."@,
        ),
        !state.recording_active ==> result is Ok,
{
    if state.recording_active {
        return Err(
            CommandError::new(
                "RecordingInProgress",
                "Cannot switch models while recording is in progress. Stop recording first.",
            ),
        );
    }
    Ok(())
}

/// Model `i` is the first that bears `id`.
pub open spec fn is_first_with_id(models: Seq<TranscriptionModel>, id: Seq<char>, i: int) -> bool {
    &&& 0 <= i < models.len()
    &&& models[i].id@ == id
    &&& forall|j: int| 0 <= j < i ==> models[j].id@ != id
}

/// Some model bears `id`.
pub open spec fn has_model(models: Seq<TranscriptionModel>, id: Seq<char>) -> bool {
    exists|i: int| 0 <= i < models.len() && (#[trigger] models[i]).id@ == id
}

/// The command failed because no model bears `id`.
pub open spec fn fails_model_not_found<T>(result: Result<T, CommandError>, id: Seq<char>) -> bool {
    fails_with(result, "ModelNotFound"@, "No model with id: "@ + id)
}

/// Find the first model that bears `model_id`.
pub fn find_model(models: &[TranscriptionModel], model_id: &str) -> (result: Result<
    usize,
    CommandError,
>)
    ensures
        has_model(models@, model_id@) ==> result is Ok && is_first_with_id(
            models@,
            model_id@,
            result->Ok_0 as int,
        ),
        !has_model(models@, model_id@) ==> fails_model_not_found(result, model_id@),
{
    let wanted = String::from_str(model_id);
    let mut i: usize = 0;
    while i < models.len()
        invariant
            i <= models@.len(),
            wanted@ == model_id@,
            forall|j: int| 0 <= j < i ==> (#[trigger] models@[j]).id@ != model_id@,
        decreases models@.len() - i,
    {
        if models[i].id == wanted {
            return Ok(i);
        }
        i += 1;
    }
    let mut message = String::from_str("No model with id: ");
    message.append(model_id);
    Err(CommandError::new("ModelNotFound", message.as_str()))
}

/// Where the model that is to be activated lies on disk.
///
/// The model must exist and be downloaded; the result is its position among
/// `models` and its local path.
pub fn activation_target(models: &[TranscriptionModel], model_id: &str) -> (result: Result<
    (usize, String),
    CommandError,
>)
    ensures
        !has_model(models@, model_id@) ==> fails_model_not_found(result, model_id@),
        (has_model(models@, model_id@) ==> exists|i: int| #[trigger]
            is_first_with_id(models@, model_id@, i) && match models@[i].download_status {
                DownloadStatus::Downloaded { local_path } => result == Ok::<
                    (usize, String),
                    CommandError,
                >((i as usize, local_path)),
                _ => fails_with(
                    result,
                    "NotDownloaded"@,
                    "Model must be downloaded before activating."@,
                ),
            }),
{
    let index = match find_model(models, model_id) {
        Ok(index) => index,
        Err(e) => {
            return Err(e);
        },
    };
    match &models[index].download_status {
        DownloadStatus::Downloaded { local_path } => Ok((index, local_path.clone())),
        _ => Err(
            CommandError::new("NotDownloaded", "Model must be downloaded before activating."),
        ),
    }
}

/// What the session reports when an engine could not be loaded.
pub fn load_failed(cause: &str) -> (error: CommandError)
    ensures
        error.is("LoadFailed"@, cause@),
{
    CommandError::new("LoadFailed", cause)
}

/// Make `engine` the loaded engine and `model_id` the active model.
pub fn activate_model<C, E>(state: &mut AppState<C, E>, model_id: &str, engine: E)
    ensures
        final(state).engine == Some(engine),
        old(state).is_consistent() ==> final(state).is_consistent(),
        final(state).preferences.active_model_id is Some,
        final(state).preferences.active_model_id->Some_0@ == model_id@,
        final(state).preferences.recording_mode == old(state).preferences.recording_mode,
        final(state).preferences.hotkeys == old(state).preferences.hotkeys,
        final(state).preferences.target_mode == old(state).preferences.target_mode,
        final(state).preferences.text_injection_method == old(
            state,
        ).preferences.text_injection_method,
        final(state).preferences.overlay_position == old(state).preferences.overlay_position,
        final(state).preferences.overlay_opacity == old(state).preferences.overlay_opacity,
        final(state).preferences.overlay_visualization == old(
            state,
        ).preferences.overlay_visualization,
        final(state).preferences.overlay_processing_animation == old(
            state,
        ).preferences.overlay_processing_animation,
        final(state).preferences.overlay_custom_position == old(
            state,
        ).preferences.overlay_custom_position,
        final(state).preferences.selected_audio_device == old(
            state,
        ).preferences.selected_audio_device,
        final(state).preferences.launch_at_login == old(state).preferences.launch_at_login,
        final(state).recording_active == old(state).recording_active,
        final(state).active_capture == old(state).active_capture,
        final(state).recording_started_at == old(state).recording_started_at,
{
    state.engine = Some(engine);
    state.preferences.active_model_id = Some(String::from_str(model_id));
}

/// Validate that a model can be downloaded: it exists and is neither on disk
/// nor on its way there. The result is its position among `models`.
pub fn validate_can_download(models: &[TranscriptionModel], model_id: &str) -> (result: Result<
    usize,
    CommandError,
>)
    ensures
        !has_model(models@, model_id@) ==> fails_model_not_found(result, model_id@),
        (has_model(models@, model_id@) ==> exists|i: int| #[trigger]
            is_first_with_id(models@, model_id@, i) && match models@[i].download_status {
                DownloadStatus::Downloaded { .. } => fails_with(
                    result,
                    "AlreadyDownloaded"@,
                    "Model is already downloaded."@,
                ),
                DownloadStatus::Downloading { .. } => fails_with(
                    result,
                    "AlreadyDownloading"@,
                    "Model is already being downloaded."@,
                ),
                _ => result == Ok::<usize, CommandError>(i as usize),
            }),
{
    let index = match find_model(models, model_id) {
        Ok(index) => index,
        Err(e) => {
            return Err(e);
        },
    };
    match &models[index].download_status {
        DownloadStatus::Downloaded { .. } => Err(
            CommandError::new("AlreadyDownloaded", "Model is already downloaded."),
        ),
        DownloadStatus::Downloading { .. } => Err(
            CommandError::new("AlreadyDownloading", "Model is already being downloaded."),
        ),
        _ => Ok(index),
    }
}

/// Validate that a model can be deleted: it is not the active one, it exists
/// and it is on disk. The result is its local path.
pub fn validate_can_delete(
    active_model_id: &Option<String>,
    models: &[TranscriptionModel],
    model_id: &str,
) -> (result: Result<String, CommandError>)
    ensures
        active_model_id is Some && active_model_id->Some_0@ == model_id@ ==> fails_with(
            result,
            "ModelInUse"@,
            "Cannot delete the active model. Switch to another model first."@,
        ),
        (!(active_model_id is Some && active_model_id->Some_0@ == model_id@) ==> {
            &&& !has_model(models@, model_id@) ==> fails_model_not_found(result, model_id@)
            &&& has_model(models@, model_id@) ==> exists|i: int| #[trigger]
                is_first_with_id(models@, model_id@, i) && match models@[i].download_status {
                    DownloadStatus::Downloaded { local_path } => result == Ok::<
                        String,
                        CommandError,
                    >(local_path),
                    _ => fails_with(result, "NotDownloaded"@, "Model is not downloaded."@),
                }
        }),
{
    let wanted = String::from_str(model_id);
    let active = match active_model_id {
        Some(id) => *id == wanted,
        None => false,
    };
    if active {
        return Err(
            CommandError::new(
                "ModelInUse",
                "Cannot delete the active model. Switch to another model first.",
            ),
        );
    }
    let index = match find_model(models, model_id) {
        Ok(index) => index,
        Err(e) => {
            return Err(e);
        },
    };
    match &models[index].download_status {
        DownloadStatus::Downloaded { local_path } => Ok(local_path.clone()),
        _ => Err(CommandError::new("NotDownloaded", "Model is not downloaded.")),
    }
}

} // verus!
