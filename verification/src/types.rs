//! The values that go to the service and come back from it.
//!
//! Requests are the finalized parameters of a call. Responses mirror what the
//! service reports; this crate reads little of them and keeps the rest for the
//! caller. Real numbers are held by their bits (see [`crate::number`]).

use crate::number::{Float32, Float64, DOUBLE_HALF, DOUBLE_ONE, DOUBLE_ZERO};
use std::collections::HashMap;
use vstd::prelude::*;

verus! {

/// `serde_json::Value`, a JSON value of any shape. A value is carried through
/// unread.
#[verifier::external_type_specification]
#[verifier::external_body]
pub struct ExJsonValue(serde_json::Value);

/// The parameters of a design-voice call.
#[derive(Debug, Clone)]
pub struct TTVDesignVoiceRequest {
    /// What the voice should sound like.
    pub voice_description: String,
    /// Codec, sample rate and bit rate of the previews, such as
    /// `mp3_44100_128`. It travels in the URL, not in the body.
    pub output_format: Option<String>,
    /// The model that generates the voice.
    pub model_id: Option<String>,
    /// The text that the previews speak, 100 to 1000 characters long.
    pub text: Option<String>,
    /// Whether the service writes a text that suits the description.
    pub auto_generate_text: Option<bool>,
    /// Volume, from -1 (quietest) to 1 (loudest).
    pub loudness: Option<Float32>,
    /// A seed for best-effort deterministic sampling.
    pub seed: Option<u32>,
    /// How closely the description is followed, from 0 to 100.
    pub guidance_scale: Option<u32>,
    /// Whether only identifiers are returned, to be streamed afterwards.
    pub stream_previews: Option<bool>,
    /// The remixing session that the call belongs to.
    pub remixing_session_id: Option<String>,
    /// The iteration of the remixing session to attach the previews to.
    pub remixing_session_iteration_id: Option<String>,
    /// Quality against variety, from -1 to 1.
    pub quality: Option<Float32>,
    /// Base64 audio to imitate; only the third model version reads it.
    pub reference_audio_base64: Option<String>,
    /// Weight of the description against the reference audio, from 0 to 1.
    pub prompt_strength: Option<Float32>,
}

/// The mathematical value of the parameters of a design-voice call.
pub struct DesignVoiceParameters {
    pub voice_description: Seq<char>,
    pub output_format: Option<Seq<char>>,
    pub model_id: Option<Seq<char>>,
    pub text: Option<Seq<char>>,
    pub auto_generate_text: Option<bool>,
    pub loudness: Option<Float32>,
    pub seed: Option<u32>,
    pub guidance_scale: Option<u32>,
    pub stream_previews: Option<bool>,
    pub remixing_session_id: Option<Seq<char>>,
    pub remixing_session_iteration_id: Option<Seq<char>>,
    pub quality: Option<Float32>,
    pub reference_audio_base64: Option<Seq<char>>,
    pub prompt_strength: Option<Float32>,
}

/// The characters of an optional text.
pub open spec fn text_view(text: Option<String>) -> Option<Seq<char>> {
    match text {
        Some(s) => Some(s@),
        None => None,
    }
}

impl View for TTVDesignVoiceRequest {
    type V = DesignVoiceParameters;

    open spec fn view(&self) -> DesignVoiceParameters {
        DesignVoiceParameters {
            voice_description: self.voice_description@,
            output_format: text_view(self.output_format),
            model_id: text_view(self.model_id),
            text: text_view(self.text),
            auto_generate_text: self.auto_generate_text,
            loudness: self.loudness,
            seed: self.seed,
            guidance_scale: self.guidance_scale,
            stream_previews: self.stream_previews,
            remixing_session_id: text_view(self.remixing_session_id),
            remixing_session_iteration_id: text_view(self.remixing_session_iteration_id),
            quality: self.quality,
            reference_audio_base64: text_view(self.reference_audio_base64),
            prompt_strength: self.prompt_strength,
        }
    }
}

/// The parameters of a create-voice call.
#[derive(Debug, Clone)]
pub struct TTVCreateVoiceRequest {
    /// The name of the new voice.
    pub voice_name: String,
    /// The description of the new voice.
    pub voice_description: String,
    /// The identifier of the designed preview to keep.
    pub generated_voice_id: String,
    /// Metadata to attach to the voice.
    pub labels: Option<String>,
    /// The previews that were played and not chosen.
    pub played_not_selected_voice_ids: Option<String>,
}

/// The mathematical value of the parameters of a create-voice call.
pub struct CreateVoiceParameters {
    pub voice_name: Seq<char>,
    pub voice_description: Seq<char>,
    pub generated_voice_id: Seq<char>,
    pub labels: Option<Seq<char>>,
    pub played_not_selected_voice_ids: Option<Seq<char>>,
}

impl View for TTVCreateVoiceRequest {
    type V = CreateVoiceParameters;

    open spec fn view(&self) -> CreateVoiceParameters {
        CreateVoiceParameters {
            voice_name: self.voice_name@,
            voice_description: self.voice_description@,
            generated_voice_id: self.generated_voice_id@,
            labels: text_view(self.labels),
            played_not_selected_voice_ids: text_view(self.played_not_selected_voice_ids),
        }
    }
}

/// The answer to a design-voice call.
#[derive(Debug, Clone)]
pub struct TTVDesignVoiceResponse {
    /// The previews, in the order in which the service gave them.
    pub previews: Vec<TTVDesignVoiceResponseVoicePreview>,
    /// The text that the previews speak.
    pub text: String,
}

/// One preview of a designed voice.
#[derive(Debug, Clone)]
pub struct TTVDesignVoiceResponseVoicePreview {
    /// The audio, base64 encoded.
    pub audio_base_64: String,
    /// The identifier by which a voice is created from this preview.
    pub generated_voice_id: String,
    /// The media type of the audio.
    pub media_type: String,
    /// The length of the audio in seconds.
    pub duration_secs: Float64,
    /// The language of the preview, if known.
    pub language: Option<String>,
}

/// The record of a created voice.
#[derive(Debug, Clone)]
pub struct TTVCreateVoiceResponse {
    pub voice_id: String,
    pub name: Option<String>,
    pub samples: Option<Vec<Sample>>,
    pub category: Option<VoiceCategory>,
    pub fine_tuning: Option<FineTuning>,
    pub labels: Option<HashMap<String, String>>,
    pub description: Option<String>,
    pub preview_url: Option<String>,
    pub available_for_tiers: Option<Vec<String>>,
    pub settings: Option<VoiceSettings>,
    pub sharing: Option<VoiceSharing>,
    pub high_quality_base_model_ids: Option<Vec<String>>,
    pub verified_languages: Option<Vec<VerifiedLanguage>>,
    pub safety_control: Option<SafetyControl>,
    pub voice_verification: Option<VoiceVerification>,
    pub permission_on_resource: Option<String>,
    pub is_owner: Option<bool>,
    pub is_legacy: Option<bool>,
    pub is_mixed: Option<bool>,
    pub favorited_at_unix: Option<i64>,
    pub created_at_unix: Option<i64>,
}

/// An audio sample of a voice.
#[derive(Debug, Clone)]
pub struct Sample {
    pub sample_id: Option<String>,
    pub file_name: Option<String>,
    pub mime_type: Option<String>,
    pub size_bytes: Option<i64>,
    pub hash: Option<String>,
    pub duration_secs: Option<Float64>,
    pub remove_background_noise: Option<bool>,
    pub has_isolated_audio: Option<bool>,
    pub has_isolated_audio_preview: Option<bool>,
    pub speaker_separation: Option<SpeakerSeparation>,
    pub trim_start: Option<i64>,
    pub trim_end: Option<i64>,
}

/// The separation of a sample into its speakers.
#[derive(Debug, Clone)]
pub struct SpeakerSeparation {
    pub voice_id: String,
    pub sample_id: String,
    pub status: SeparationStatus,
    pub speakers: Option<HashMap<String, Speaker>>,
    pub selected_speaker_ids: Option<Vec<String>>,
}

/// How far a speaker separation has come.
#[derive(Debug, Clone)]
pub enum SeparationStatus {
    NotStarted,
    Pending,
    Completed,
    Failed,
}

/// One speaker found in a sample.
#[derive(Debug, Clone)]
pub struct Speaker {
    pub speaker_id: String,
    pub duration_secs: Float64,
    pub utterances: Option<Vec<Utterance>>,
}

/// A stretch of speech, by its start and end in seconds.
#[derive(Debug, Clone)]
pub struct Utterance {
    pub start: Float64,
    pub end: Float64,
}

/// Where a voice comes from.
#[derive(Debug, Clone)]
pub enum VoiceCategory {
    Generated,
    Cloned,
    Premade,
    Professional,
    Famous,
    HighQuality,
}

/// The fine-tuning of a voice.
#[derive(Debug, Clone)]
pub struct FineTuning {
    pub is_allowed_to_fine_tune: Option<bool>,
    pub state: Option<HashMap<String, FineTuningState>>,
    pub verification_failures: Option<Vec<String>>,
    pub verification_attempts_count: Option<i64>,
    pub manual_verification_requested: Option<bool>,
    pub language: Option<String>,
    pub progress: Option<HashMap<String, Float64>>,
    pub message: Option<HashMap<String, String>>,
    pub dataset_duration_seconds: Option<Float64>,
    pub verification_attempts: Option<Vec<VerificationAttempt>>,
    pub slice_ids: Option<Vec<String>>,
    pub manual_verification: Option<ManualVerification>,
    pub max_verification_attempts: Option<i64>,
    pub next_max_verification_attempts_reset_unix_ms: Option<i64>,
    /// A value whose shape the service does not fix.
    pub finetuning_state: Option<serde_json::Value>,
}

/// How far the fine-tuning for one model has come.
#[derive(Debug, Clone)]
pub enum FineTuningState {
    NotStarted,
    Queued,
    FineTuning,
    FineTuned,
    Failed,
    Delayed,
}

/// One attempt to verify the owner of a voice.
#[derive(Debug, Clone)]
pub struct VerificationAttempt {
    pub text: String,
    pub date_unix: i64,
    pub accepted: bool,
    pub similarity: Float64,
    pub levenshtein_distance: Float64,
    pub recording: Option<Recording>,
}

/// The recording of a verification attempt.
#[derive(Debug, Clone)]
pub struct Recording {
    pub recording_id: String,
    pub mime_type: String,
    pub size_bytes: i64,
    pub upload_date_unix: i64,
    pub transcription: String,
}

/// A request for verification by hand.
#[derive(Debug, Clone)]
pub struct ManualVerification {
    pub extra_text: String,
    pub request_time_unix: i64,
    pub files: Vec<VerificationFile>,
}

/// A file handed in for verification by hand.
#[derive(Debug, Clone)]
pub struct VerificationFile {
    pub file_id: String,
    pub file_name: String,
    pub mime_type: String,
    pub size_bytes: i64,
    pub upload_date_unix: i64,
}

/// The synthesis settings of a voice.
#[derive(Debug, Clone)]
pub struct VoiceSettings {
    pub stability: Option<Float64>,
    pub use_speaker_boost: Option<bool>,
    pub similarity_boost: Option<Float64>,
    pub style: Option<Float64>,
    pub speed: Option<Float64>,
}

/// How a voice is shared in the library.
#[derive(Debug, Clone)]
pub struct VoiceSharing {
    pub status: Option<SharingStatus>,
    pub history_item_sample_id: Option<String>,
    pub date_unix: Option<i64>,
    pub whitelisted_emails: Option<Vec<String>>,
    pub public_owner_id: Option<String>,
    pub original_voice_id: Option<String>,
    pub financial_rewards_enabled: Option<bool>,
    pub free_users_allowed: Option<bool>,
    pub live_moderation_enabled: Option<bool>,
    pub rate: Option<Float64>,
    pub fiat_rate: Option<Float64>,
    pub notice_period: Option<i64>,
    pub disable_at_unix: Option<i64>,
    pub voice_mixing_allowed: Option<bool>,
    pub featured: Option<bool>,
    pub category: Option<VoiceCategory>,
    pub reader_app_enabled: Option<bool>,
    pub image_url: Option<String>,
    pub ban_reason: Option<String>,
    pub liked_by_count: Option<i64>,
    pub cloned_by_count: Option<i64>,
    pub name: Option<String>,
    pub description: Option<String>,
    pub labels: Option<HashMap<String, String>>,
    pub review_status: Option<ReviewStatus>,
    pub review_message: Option<String>,
    pub enabled_in_library: Option<bool>,
    pub instagram_username: Option<String>,
    pub twitter_username: Option<String>,
    pub youtube_username: Option<String>,
    pub tiktok_username: Option<String>,
    pub moderation_check: Option<ModerationCheck>,
    pub reader_restricted_on: Option<Vec<ReaderRestriction>>,
}

/// Whether a voice is shared.
#[derive(Debug, Clone)]
pub enum SharingStatus {
    Enabled,
    Disabled,
    Copied,
    CopiedDisabled,
}

/// The state of the review of a shared voice.
#[derive(Debug, Clone)]
pub enum ReviewStatus {
    NotRequested,
    Pending,
    Declined,
    Allowed,
    AllowedWithChanges,
}

/// What moderation found of a shared voice.
#[derive(Debug, Clone)]
pub struct ModerationCheck {
    pub date_checked_unix: Option<i64>,
    pub name_value: Option<String>,
    pub name_check: Option<bool>,
    pub description_value: Option<String>,
    pub description_check: Option<bool>,
    pub sample_ids: Option<Vec<String>>,
    pub sample_checks: Option<Vec<Float64>>,
    pub captcha_ids: Option<Vec<String>>,
    pub captcha_checks: Option<Vec<Float64>>,
}

/// A resource of the reader application on which a voice may not be used.
#[derive(Debug, Clone)]
pub struct ReaderRestriction {
    pub resource_type: ResourceType,
    pub resource_id: String,
}

/// The kind of a reader resource.
#[derive(Debug, Clone)]
pub enum ResourceType {
    Read,
    Collection,
}

/// A language in which a voice was verified.
#[derive(Debug, Clone)]
pub struct VerifiedLanguage {
    pub language: String,
    pub model_id: String,
    pub accent: Option<String>,
    pub locale: Option<String>,
    pub preview_url: Option<String>,
}

/// A restriction that safety placed on a voice.
#[derive(Debug, Clone)]
pub enum SafetyControl {
    /// No restriction.
    Unrestricted,
    Ban,
    Captcha,
    EnterpriseBan,
    EnterpriseCaptcha,
}

/// Whether the owner of a voice was verified.
#[derive(Debug, Clone)]
pub struct VoiceVerification {
    pub requires_verification: bool,
    pub is_verified: bool,
    pub verification_failures: Vec<String>,
    pub verification_attempts_count: i64,
    pub language: Option<String>,
    pub verification_attempts: Option<Vec<VerificationAttempt>>,
}

impl TTVCreateVoiceResponse {
    /// A voice is ready unless its verification is asked for and still open.
    pub open spec fn spec_is_ready(&self) -> bool {
        match self.voice_verification {
            Some(verification) => !verification.requires_verification || verification.is_verified,
            None => true,
        }
    }

    /// Whether the voice can be used.
    #[verifier::when_used_as_spec(spec_is_ready)]
    pub fn is_ready(&self) -> (r: bool)
        ensures
            r == self.spec_is_ready(),
    {
        if let Some(verification) = &self.voice_verification {
            !verification.requires_verification || verification.is_verified
        } else {
            true
        }
    }

    /// A voice is shared exactly when its sharing record says `Enabled`.
    pub open spec fn spec_is_shared(&self) -> bool {
        self.sharing matches Some(sharing) && sharing.status matches Some(SharingStatus::Enabled)
    }

    /// Whether the voice is shared in the library.
    #[verifier::when_used_as_spec(spec_is_shared)]
    pub fn is_shared(&self) -> (r: bool)
        ensures
            r == self.spec_is_shared(),
    {
        match &self.sharing {
            Some(sharing) => match &sharing.status {
                Some(SharingStatus::Enabled) => true,
                _ => false,
            },
            None => false,
        }
    }
}

impl Default for VoiceSettings {
    /// Stability and similarity boost one half, style zero, speed one, with
    /// the speaker boost on.
    fn default() -> (r: Self)
        ensures
            r.stability == Some(Float64 { bits: DOUBLE_HALF }),
            r.use_speaker_boost == Some(true),
            r.similarity_boost == Some(Float64 { bits: DOUBLE_HALF }),
            r.style == Some(Float64 { bits: DOUBLE_ZERO }),
            r.speed == Some(Float64 { bits: DOUBLE_ONE }),
    {
        VoiceSettings {
            stability: Some(Float64 { bits: DOUBLE_HALF }),
            use_speaker_boost: Some(true),
            similarity_boost: Some(Float64 { bits: DOUBLE_HALF }),
            style: Some(Float64 { bits: DOUBLE_ZERO }),
            speed: Some(Float64 { bits: DOUBLE_ONE }),
        }
    }
}

} // verus!
