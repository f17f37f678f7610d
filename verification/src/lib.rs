//! Typed request building and response mapping for the ElevenLabs
//! text-to-voice endpoints.
//!
//! The crate prepares the two calls of the service (designing a voice from a
//! description, and creating a voice from a designed preview) and interprets
//! what comes back. It performs no input or output of its own: a caller sends
//! the [`PreparedCall`] and hands what came back to the functions of
//! [`response`].

pub mod error;
pub mod models;
pub mod number;
pub mod payload;
pub mod response;
pub mod text;
pub mod types;

pub use crate::error::ElevenLabsTTVError;
use crate::types::text_view;
pub use crate::types::{
    CreateVoiceParameters, DesignVoiceParameters, FineTuning, FineTuningState, ManualVerification,
    ModerationCheck, ReaderRestriction, Recording, ResourceType, ReviewStatus, SafetyControl,
    Sample, SeparationStatus, SharingStatus, Speaker, SpeakerSeparation, TTVCreateVoiceRequest,
    TTVCreateVoiceResponse, TTVDesignVoiceRequest, TTVDesignVoiceResponse,
    TTVDesignVoiceResponseVoicePreview, Utterance, VerificationAttempt, VerificationFile,
    VerifiedLanguage, VoiceCategory, VoiceSettings, VoiceSharing, VoiceVerification,
};

use crate::models::elevanlabs_models::ELEVEN_MULTILINGUAL_TTV_V2;
use crate::number::{Float32, SINGLE_HALF};
use crate::payload::{create_payload, design_payload, views, PayloadField, PayloadFieldView};
use vstd::prelude::*;
use vstd::string::StringExecFns;

verus! {

/// The root of the service's API, used unless a client is given another.
pub const DEFAULT_BASE_URL: &'static str = "https://api.elevenlabs.io/v1";

/// The output format of a design call that names none.
pub const DEFAULT_OUTPUT_FORMAT: &'static str = "mp3_44100_128";

/// The guidance scale of a design call that names none.
pub const DEFAULT_GUIDANCE_SCALE: u32 = 5;

/// The path of a design call below the base URL, up to the output format,
/// which is the value of the query parameter `output_format`.
pub const DESIGN_VOICE_PATH: &'static str = "/text-to-voice/design?output_format=";

/// The path of a create call below the base URL.
pub const CREATE_VOICE_PATH: &'static str = "/text-to-voice";

/// The name of the header that carries the API key.
pub const API_KEY_HEADER: &'static str = "xi-api-key";

/// The name of the header that names the type of the body.
pub const CONTENT_TYPE_HEADER: &'static str = "Content-Type";

/// The type of the body.
pub const JSON_CONTENT_TYPE: &'static str = "application/json";

/// What a client needs to reach the service: the key and the base URL.
#[derive(Debug)]
pub struct ElevenLabsTTVClient {
    pub api_key: String,
    pub base_url: String,
}

/// The mathematical value of an [`ElevenLabsTTVClient`].
pub struct ClientView {
    pub api_key: Seq<char>,
    pub base_url: Seq<char>,
}

impl View for ElevenLabsTTVClient {
    type V = ClientView;

    open spec fn view(&self) -> ClientView {
        ClientView { api_key: self.api_key@, base_url: self.base_url@ }
    }
}

impl Clone for ElevenLabsTTVClient {
    fn clone(&self) -> (r: Self)
        ensures
            r@ == self@,
    {
        ElevenLabsTTVClient { api_key: self.api_key.clone(), base_url: self.base_url.clone() }
    }
}

/// A header of a call.
#[derive(Debug, Clone, PartialEq)]
pub struct Header {
    pub name: String,
    pub value: String,
}

/// The mathematical value of a [`Header`].
pub struct HeaderView {
    pub name: Seq<char>,
    pub value: Seq<char>,
}

impl View for Header {
    type V = HeaderView;

    open spec fn view(&self) -> HeaderView {
        HeaderView { name: self.name@, value: self.value@ }
    }
}

/// The method of a call. Both calls of the service are POSTs.
#[derive(Clone, Copy, Debug, PartialEq, Eq, Structural)]
pub enum HttpMethod {
    Post,
}

/// A call that is ready to be sent: a request to `url` with the given method
/// and headers and, as its JSON body, an object of the given fields.
#[derive(Debug, Clone, PartialEq)]
pub struct PreparedCall {
    pub method: HttpMethod,
    pub url: String,
    pub headers: Vec<Header>,
    pub body: Vec<PayloadField>,
}

/// The mathematical value of a [`PreparedCall`].
pub struct PreparedCallView {
    pub method: HttpMethod,
    pub url: Seq<char>,
    pub headers: Seq<HeaderView>,
    pub body: Seq<PayloadFieldView>,
}

impl View for PreparedCall {
    type V = PreparedCallView;

    open spec fn view(&self) -> PreparedCallView {
        PreparedCallView {
            method: self.method,
            url: self.url@,
            headers: views(self.headers@),
            body: views(self.body@),
        }
    }
}

/// The headers of every call: the key, then the type of the body.
pub open spec fn call_headers(client: ClientView) -> Seq<HeaderView> {
    seq![
        HeaderView { name: API_KEY_HEADER@, value: client.api_key },
        HeaderView { name: CONTENT_TYPE_HEADER@, value: JSON_CONTENT_TYPE@ },
    ]
}

/// The output format that a design call asks for: the one it names, or the
/// default.
pub open spec fn effective_output_format(p: DesignVoiceParameters) -> Seq<char> {
    match p.output_format {
        Some(format) => format,
        None => DEFAULT_OUTPUT_FORMAT@,
    }
}

/// The design-voice call of a client for the given parameters. The output
/// format is the query of the URL and no part of the body.
pub open spec fn design_voice_call(client: ClientView, p: DesignVoiceParameters) -> PreparedCallView {
    PreparedCallView {
        method: HttpMethod::Post,
        url: client.base_url + DESIGN_VOICE_PATH@ + effective_output_format(p),
        headers: call_headers(client),
        body: design_payload(p),
    }
}

/// The create-voice call of a client for the given parameters.
pub open spec fn create_voice_call(client: ClientView, p: CreateVoiceParameters) -> PreparedCallView {
    PreparedCallView {
        method: HttpMethod::Post,
        url: client.base_url + CREATE_VOICE_PATH@,
        headers: call_headers(client),
        body: create_payload(p),
    }
}

impl ElevenLabsTTVClient {
    /// A client for the service's own API root.
    pub fn new(api_key: &str) -> (r: Self)
        ensures
            r@ == (ClientView { api_key: api_key@, base_url: DEFAULT_BASE_URL@ }),
    {
        ElevenLabsTTVClient {
            api_key: String::from_str(api_key),
            base_url: String::from_str(DEFAULT_BASE_URL),
        }
    }

    /// A client for another API root, such as a test double.
    pub fn with_base_url(api_key: &str, base_url: &str) -> (r: Self)
        ensures
            r@ == (ClientView { api_key: api_key@, base_url: base_url@ }),
    {
        ElevenLabsTTVClient {
            api_key: String::from_str(api_key),
            base_url: String::from_str(base_url),
        }
    }

    /// Starts a design-voice call for the given description, with no other
    /// parameter set.
    pub fn design_voice(&self, voice_description: &str) -> (r: TextToVoiceDesignVoiceBuilder)
        ensures
            r.client@ == self@,
            r@ == DesignVoiceParameters::described(voice_description@),
    {
        TextToVoiceDesignVoiceBuilder::new(self.clone(), String::from_str(voice_description))
    }

    /// Starts a create-voice call that keeps the preview `generated_voice_id`
    /// under the given name and description, with no other parameter set.
    pub fn create_voice(
        &self,
        voice_name: &str,
        voice_description: &str,
        generated_voice_id: &str,
    ) -> (r: TextToVoiceCreateVoiceBuilder)
        ensures
            r.client@ == self@,
            r@ == CreateVoiceParameters::named(
                voice_name@,
                voice_description@,
                generated_voice_id@,
            ),
    {
        TextToVoiceCreateVoiceBuilder::new(
            self.clone(),
            String::from_str(voice_name),
            String::from_str(voice_description),
            String::from_str(generated_voice_id),
        )
    }

    /// The headers of every call of this client.
    fn headers(&self) -> (r: Vec<Header>)
        ensures
            views(r@) == call_headers(self@),
    {
        let mut headers: Vec<Header> = Vec::new();
        headers.push(
            Header { name: String::from_str(API_KEY_HEADER), value: self.api_key.clone() },
        );
        headers.push(
            Header {
                name: String::from_str(CONTENT_TYPE_HEADER),
                value: String::from_str(JSON_CONTENT_TYPE),
            },
        );
        headers
    }

    /// The design-voice call for `request`, ready to be sent.
    pub fn prepare_design_voice(&self, request: &TTVDesignVoiceRequest) -> (r: PreparedCall)
        ensures
            r@ == design_voice_call(self@, request@),
    {
        let mut url = self.base_url.clone();
        url.append(DESIGN_VOICE_PATH);
        match &request.output_format {
            Some(format) => url.append(format.as_str()),
            None => url.append(DEFAULT_OUTPUT_FORMAT),
        }
        PreparedCall {
            method: HttpMethod::Post,
            url,
            headers: self.headers(),
            body: request.payload(),
        }
    }

    /// The create-voice call for `request`, ready to be sent.
    pub fn prepare_create_voice(&self, request: &TTVCreateVoiceRequest) -> (r: PreparedCall)
        ensures
            r@ == create_voice_call(self@, request@),
    {
        let mut url = self.base_url.clone();
        url.append(CREATE_VOICE_PATH);
        PreparedCall {
            method: HttpMethod::Post,
            url,
            headers: self.headers(),
            body: request.payload(),
        }
    }
}

impl DesignVoiceParameters {
    /// The parameters that hold a description and nothing else.
    pub open spec fn described(voice_description: Seq<char>) -> Self {
        DesignVoiceParameters {
            voice_description,
            output_format: None,
            model_id: None,
            text: None,
            auto_generate_text: None,
            loudness: None,
            seed: None,
            guidance_scale: None,
            stream_previews: None,
            remixing_session_id: None,
            remixing_session_iteration_id: None,
            quality: None,
            reference_audio_base64: None,
            prompt_strength: None,
        }
    }

    pub open spec fn with_output_format(self, output_format: Seq<char>) -> Self {
        DesignVoiceParameters { output_format: Some(output_format), ..self }
    }

    pub open spec fn with_text(self, text: Seq<char>) -> Self {
        DesignVoiceParameters { text: Some(text), ..self }
    }

    pub open spec fn with_model(self, model_id: Seq<char>) -> Self {
        DesignVoiceParameters { model_id: Some(model_id), ..self }
    }

    pub open spec fn with_auto_generate_text(self, auto_generate_text: bool) -> Self {
        DesignVoiceParameters { auto_generate_text: Some(auto_generate_text), ..self }
    }

    pub open spec fn with_loudness(self, loudness: Float32) -> Self {
        DesignVoiceParameters { loudness: Some(loudness), ..self }
    }

    pub open spec fn with_seed(self, seed: u32) -> Self {
        DesignVoiceParameters { seed: Some(seed), ..self }
    }

    pub open spec fn with_guidance_scale(self, guidance_scale: u32) -> Self {
        DesignVoiceParameters { guidance_scale: Some(guidance_scale), ..self }
    }

    pub open spec fn with_stream_previews(self, stream_previews: bool) -> Self {
        DesignVoiceParameters { stream_previews: Some(stream_previews), ..self }
    }

    pub open spec fn with_remixing_session_id(self, remixing_session_id: Seq<char>) -> Self {
        DesignVoiceParameters { remixing_session_id: Some(remixing_session_id), ..self }
    }

    pub open spec fn with_remixing_session_iteration_id(
        self,
        remixing_session_iteration_id: Seq<char>,
    ) -> Self {
        DesignVoiceParameters {
            remixing_session_iteration_id: Some(remixing_session_iteration_id),
            ..self
        }
    }

    pub open spec fn with_quality(self, quality: Float32) -> Self {
        DesignVoiceParameters { quality: Some(quality), ..self }
    }

    pub open spec fn with_reference_audio_base64(self, reference_audio_base64: Seq<char>) -> Self {
        DesignVoiceParameters { reference_audio_base64: Some(reference_audio_base64), ..self }
    }

    pub open spec fn with_prompt_strength(self, prompt_strength: Float32) -> Self {
        DesignVoiceParameters { prompt_strength: Some(prompt_strength), ..self }
    }

    /// Whether every parameter that has a value in `earlier` has one here.
    pub open spec fn keeps_set(self, earlier: Self) -> bool {
        &&& earlier.output_format is Some ==> self.output_format is Some
        &&& earlier.model_id is Some ==> self.model_id is Some
        &&& earlier.text is Some ==> self.text is Some
        &&& earlier.auto_generate_text is Some ==> self.auto_generate_text is Some
        &&& earlier.loudness is Some ==> self.loudness is Some
        &&& earlier.seed is Some ==> self.seed is Some
        &&& earlier.guidance_scale is Some ==> self.guidance_scale is Some
        &&& earlier.stream_previews is Some ==> self.stream_previews is Some
        &&& earlier.remixing_session_id is Some ==> self.remixing_session_id is Some
        &&& earlier.remixing_session_iteration_id is Some ==> self.remixing_session_iteration_id
            is Some
        &&& earlier.quality is Some ==> self.quality is Some
        &&& earlier.reference_audio_base64 is Some ==> self.reference_audio_base64 is Some
        &&& earlier.prompt_strength is Some ==> self.prompt_strength is Some
    }

    /// The parameters of the call that is made: every parameter that was set
    /// keeps its value, and of those that were not, six get a default. The
    /// output format, the model, the loudness, the guidance scale and the
    /// streaming of previews always get theirs; the service is told to write
    /// the text itself only where no text was given; all others stay unset.
    pub open spec fn finalized(self) -> Self {
        DesignVoiceParameters {
            output_format: Some(effective_output_format(self)),
            model_id: Some(
                match self.model_id {
                    Some(model_id) => model_id,
                    None => ELEVEN_MULTILINGUAL_TTV_V2@,
                },
            ),
            auto_generate_text: match self.auto_generate_text {
                Some(flag) => Some(flag),
                None => if self.text is Some {
                    None
                } else {
                    Some(true)
                },
            },
            loudness: Some(
                match self.loudness {
                    Some(loudness) => loudness,
                    None => Float32 { bits: SINGLE_HALF },
                },
            ),
            guidance_scale: Some(
                match self.guidance_scale {
                    Some(guidance_scale) => guidance_scale,
                    None => DEFAULT_GUIDANCE_SCALE,
                },
            ),
            stream_previews: Some(
                match self.stream_previews {
                    Some(stream_previews) => stream_previews,
                    None => false,
                },
            ),
            ..self
        }
    }
}

/// The parameters of a design-voice call while they are being set.
#[derive(Debug)]
pub struct TextToVoiceDesignVoiceBuilder {
    pub client: ElevenLabsTTVClient,
    pub voice_description: String,
    pub output_format: Option<String>,
    pub model_id: Option<String>,
    pub text: Option<String>,
    pub auto_generate_text: Option<bool>,
    pub loudness: Option<Float32>,
    pub seed: Option<u32>,
    pub guidance_scale: Option<u32>,
    pub stream_previews: Option<bool>,
    pub remixing_session_id: Option<String>,
    pub remixing_session_iteration_id: Option<String>,
    pub quality: Option<Float32>,
    pub reference_audio_base64: Option<String>,
    pub prompt_strength: Option<Float32>,
}

impl View for TextToVoiceDesignVoiceBuilder {
    type V = DesignVoiceParameters;

    open spec fn view(&self) -> DesignVoiceParameters {
        DesignVoiceParameters {
            voice_description: self.voice_description@,
            output_format: text_view(self.output_format),
            model_id: text_view(self.model_id),
            text: text_view(self.text),
            auto_generate_text: self.auto_generate_text,
            loudness: self.loudness,
            seed: self.seed,
            guidance_scale: self.guidance_scale,
            stream_previews: self.stream_previews,
            remixing_session_id: text_view(self.remixing_session_id),
            remixing_session_iteration_id: text_view(
                self.remixing_session_iteration_id,
            ),
            quality: self.quality,
            reference_audio_base64: text_view(self.reference_audio_base64),
            prompt_strength: self.prompt_strength,
        }
    }
}

impl TextToVoiceDesignVoiceBuilder {
    fn new(client: ElevenLabsTTVClient, voice_description: String) -> (r: Self)
        ensures
            r.client == client,
            r@ == DesignVoiceParameters::described(voice_description@),
    {
        TextToVoiceDesignVoiceBuilder {
            client,
            voice_description,
            output_format: None,
            text: None,
            model_id: None,
            auto_generate_text: None,
            loudness: None,
            seed: None,
            guidance_scale: None,
            stream_previews: None,
            remixing_session_id: None,
            remixing_session_iteration_id: None,
            quality: None,
            reference_audio_base64: None,
            prompt_strength: None,
        }
    }

    /// Sets the output format of the previews, such as `mp3_22050_32` or
    /// `pcm_16000`. It goes into the URL of the call.
    pub fn output_format(self, output_format: &str) -> (r: Self)
        ensures
            r.client == self.client,
            r@ == self@.with_output_format(output_format@),
    {
        let mut builder = self;
        builder.output_format = Some(String::from_str(output_format));
        builder
    }

    /// Sets the text that the previews speak. The service takes 100 to 1000
    /// characters.
    pub fn text(self, text: &str) -> (r: Self)
        ensures
            r.client == self.client,
            r@ == self@.with_text(text@),
    {
        let mut builder = self;
        builder.text = Some(String::from_str(text));
        builder
    }

    /// Sets the model that generates the voice.
    pub fn model(self, model_id: &str) -> (r: Self)
        ensures
            r.client == self.client,
            r@ == self@.with_model(model_id@),
    {
        let mut builder = self;
        builder.model_id = Some(String::from_str(model_id));
        builder
    }

    /// Sets whether the service writes a text that suits the description.
    pub fn auto_generate_text(self, auto_generate_text: bool) -> (r: Self)
        ensures
            r.client == self.client,
            r@ == self@.with_auto_generate_text(auto_generate_text),
    {
        let mut builder = self;
        builder.auto_generate_text = Some(auto_generate_text);
        builder
    }

    /// Sets the volume. The service takes -1 (quietest) to 1 (loudest).
    pub fn loudness(self, loudness: Float32) -> (r: Self)
        ensures
            r.client == self.client,
            r@ == self@.with_loudness(loudness),
    {
        let mut builder = self;
        builder.loudness = Some(loudness);
        builder
    }

    /// Sets the seed, for best-effort deterministic sampling.
    pub fn seed(self, seed: u32) -> (r: Self)
        ensures
            r.client == self.client,
            r@ == self@.with_seed(seed),
    {
        let mut builder = self;
        builder.seed = Some(seed);
        builder
    }

    /// Sets how closely the description is followed. The service takes 0 to
    /// 100.
    pub fn guidance_scale(self, guidance_scale: u32) -> (r: Self)
        ensures
            r.client == self.client,
            r@ == self@.with_guidance_scale(guidance_scale),
    {
        let mut builder = self;
        builder.guidance_scale = Some(guidance_scale);
        builder
    }

    /// Sets whether only identifiers are returned, to be streamed afterwards.
    pub fn stream_previews(self, stream_previews: bool) -> (r: Self)
        ensures
            r.client == self.client,
            r@ == self@.with_stream_previews(stream_previews),
    {
        let mut builder = self;
        builder.stream_previews = Some(stream_previews);
        builder
    }

    /// Sets the remixing session that the call belongs to.
    pub fn remixing_session_id(self, remixing_session_id: &str) -> (r: Self)
        ensures
            r.client == self.client,
            r@ == self@.with_remixing_session_id(remixing_session_id@),
    {
        let mut builder = self;
        builder.remixing_session_id = Some(String::from_str(remixing_session_id));
        builder
    }

    /// Sets the iteration of the remixing session to attach the previews to.
    pub fn remixing_session_iteration_id(self, remixing_session_iteration_id: &str) -> (r: Self)
        ensures
            r.client == self.client,
            r@ == self@.with_remixing_session_iteration_id(remixing_session_iteration_id@),
    {
        let mut builder = self;
        builder.remixing_session_iteration_id = Some(
            String::from_str(remixing_session_iteration_id),
        );
        builder
    }

    /// Sets quality against variety. The service takes -1 to 1.
    pub fn quality(self, quality: Float32) -> (r: Self)
        ensures
            r.client == self.client,
            r@ == self@.with_quality(quality),
    {
        let mut builder = self;
        builder.quality = Some(quality);
        builder
    }

    /// Sets base64 audio to imitate. Only the third model version reads it;
    /// with another model the service may refuse the call.
    pub fn reference_audio_base64(self, reference_audio_base64: &str) -> (r: Self)
        ensures
            r.client == self.client,
            r@ == self@.with_reference_audio_base64(reference_audio_base64@),
    {
        let mut builder = self;
        builder.reference_audio_base64 = Some(String::from_str(reference_audio_base64));
        builder
    }

    /// Sets the weight of the description against the reference audio. The
    /// service takes 0 to 1, and reads it only beside reference audio.
    pub fn prompt_strength(self, prompt_strength: Float32) -> (r: Self)
        ensures
            r.client == self.client,
            r@ == self@.with_prompt_strength(prompt_strength),
    {
        let mut builder = self;
        builder.prompt_strength = Some(prompt_strength);
        builder
    }

    /// The call that the builder describes, ready to be sent: that of its
    /// client for its parameters with the defaults filled in.
    pub fn prepare(self) -> (r: PreparedCall)
        ensures
            r@ == design_voice_call(self.client@, self@.finalized()),
    {
        let client = self.client.clone();
        let request = self.build();
        client.prepare_design_voice(&request)
    }

    /// The parameters of the call, with the defaults filled in. No range is
    /// checked here: the service judges the values.
    pub fn build(self) -> (r: TTVDesignVoiceRequest)
        ensures
            r@ == self@.finalized(),
    {
        let output_format = match self.output_format {
            Some(format) => format,
            None => String::from_str(DEFAULT_OUTPUT_FORMAT),
        };
        let model_id = match self.model_id {
            Some(model_id) => model_id,
            None => String::from_str(ELEVEN_MULTILINGUAL_TTV_V2),
        };
        let auto_generate_text = match self.auto_generate_text {
            Some(flag) => Some(flag),
            None => if self.text.is_some() {
                None
            } else {
                Some(true)
            },
        };
        let loudness = match self.loudness {
            Some(loudness) => loudness,
            None => Float32 { bits: SINGLE_HALF },
        };
        let guidance_scale = match self.guidance_scale {
            Some(guidance_scale) => guidance_scale,
            None => DEFAULT_GUIDANCE_SCALE,
        };
        let stream_previews = match self.stream_previews {
            Some(stream_previews) => stream_previews,
            None => false,
        };
        TTVDesignVoiceRequest {
            voice_description: self.voice_description,
            output_format: Some(output_format),
            model_id: Some(model_id),
            text: self.text,
            auto_generate_text,
            loudness: Some(loudness),
            seed: self.seed,
            guidance_scale: Some(guidance_scale),
            stream_previews: Some(stream_previews),
            remixing_session_id: self.remixing_session_id,
            remixing_session_iteration_id: self.remixing_session_iteration_id,
            quality: self.quality,
            reference_audio_base64: self.reference_audio_base64,
            prompt_strength: self.prompt_strength,
        }
    }
}

impl CreateVoiceParameters {
    /// The parameters that hold the three required values and nothing else.
    pub open spec fn named(
        voice_name: Seq<char>,
        voice_description: Seq<char>,
        generated_voice_id: Seq<char>,
    ) -> Self {
        CreateVoiceParameters {
            voice_name,
            voice_description,
            generated_voice_id,
            labels: None,
            played_not_selected_voice_ids: None,
        }
    }

    pub open spec fn with_labels(self, labels: Seq<char>) -> Self {
        CreateVoiceParameters { labels: Some(labels), ..self }
    }

    pub open spec fn with_played_not_selected_voice_ids(self, ids: Seq<char>) -> Self {
        CreateVoiceParameters { played_not_selected_voice_ids: Some(ids), ..self }
    }
}

/// The parameters of a create-voice call while they are being set.
#[derive(Debug)]
pub struct TextToVoiceCreateVoiceBuilder {
    pub client: ElevenLabsTTVClient,
    pub voice_name: String,
    pub voice_description: String,
    pub generated_voice_id: String,
    pub labels: Option<String>,
    pub played_not_selected_voice_ids: Option<String>,
}

impl View for TextToVoiceCreateVoiceBuilder {
    type V = CreateVoiceParameters;

    open spec fn view(&self) -> CreateVoiceParameters {
        CreateVoiceParameters {
            voice_name: self.voice_name@,
            voice_description: self.voice_description@,
            generated_voice_id: self.generated_voice_id@,
            labels: text_view(self.labels),
            played_not_selected_voice_ids: text_view(
                self.played_not_selected_voice_ids,
            ),
        }
    }
}

impl TextToVoiceCreateVoiceBuilder {
    fn new(
        client: ElevenLabsTTVClient,
        voice_name: String,
        voice_description: String,
        generated_voice_id: String,
    ) -> (r: Self)
        ensures
            r.client == client,
            r@ == CreateVoiceParameters::named(
                voice_name@,
                voice_description@,
                generated_voice_id@,
            ),
    {
        TextToVoiceCreateVoiceBuilder {
            client,
            voice_name,
            voice_description,
            generated_voice_id,
            labels: None,
            played_not_selected_voice_ids: None,
        }
    }

    /// Sets the metadata to attach to the voice.
    pub fn labels(self, labels: &str) -> (r: Self)
        ensures
            r.client == self.client,
            r@ == self@.with_labels(labels@),
    {
        let mut builder = self;
        builder.labels = Some(String::from_str(labels));
        builder
    }

    /// Sets the previews that were played and not chosen.
    pub fn played_not_selected_voice_ids(self, played_not_selected_voice_ids: &str) -> (r: Self)
        ensures
            r.client == self.client,
            r@ == self@.with_played_not_selected_voice_ids(played_not_selected_voice_ids@),
    {
        let mut builder = self;
        builder.played_not_selected_voice_ids = Some(
            String::from_str(played_not_selected_voice_ids),
        );
        builder
    }

    /// The call that the builder describes, ready to be sent: that of its
    /// client for its parameters.
    pub fn prepare(self) -> (r: PreparedCall)
        ensures
            r@ == create_voice_call(self.client@, self@),
    {
        let client = self.client.clone();
        let request = self.build();
        client.prepare_create_voice(&request)
    }

    /// The parameters of the call: what was set, and nothing else.
    pub fn build(self) -> (r: TTVCreateVoiceRequest)
        ensures
            r@ == self@,
    {
        TTVCreateVoiceRequest {
            voice_name: self.voice_name,
            voice_description: self.voice_description,
            generated_voice_id: self.generated_voice_id,
            labels: self.labels,
            played_not_selected_voice_ids: self.played_not_selected_voice_ids,
        }
    }
}

/// Where no text is given and nothing is said of generating one, the call
/// that is made tells the service to write the text itself.
pub proof fn lemma_text_is_generated_by_default(p: DesignVoiceParameters)
    requires
        p.text is None,
        p.auto_generate_text is None,
    ensures
        p.finalized().auto_generate_text == Some(true),
{
}

/// Where a text is given and nothing is said of generating one, the call
/// that is made says nothing of it either.
pub proof fn lemma_given_text_leaves_generation_unset(p: DesignVoiceParameters)
    requires
        p.text is Some,
        p.auto_generate_text is None,
    ensures
        p.finalized().auto_generate_text is None,
{
}

/// The call that is made always carries a text or says whether the service
/// is to write one.
pub proof fn lemma_final_call_has_text_or_instruction(p: DesignVoiceParameters)
    ensures
        p.finalized().text is Some || p.finalized().auto_generate_text is Some,
{
}

/// The defaults: a parameter that was not set is, in the call that is made,
/// one half for the loudness, five for the guidance scale, off for the
/// streaming of previews, the second multilingual model, and MP3 at 44.1 kHz
/// and 128 kbit/s for the output format.
pub proof fn lemma_defaults(p: DesignVoiceParameters)
    ensures
        p.loudness is None ==> p.finalized().loudness == Some(Float32 { bits: SINGLE_HALF }),
        p.guidance_scale is None ==> p.finalized().guidance_scale == Some(5u32),
        p.stream_previews is None ==> p.finalized().stream_previews == Some(false),
        p.model_id is None ==> p.finalized().model_id == Some("eleven_multilingual_ttv_v2"@),
        p.output_format is None ==> p.finalized().output_format == Some("mp3_44100_128"@),
        p.seed is None ==> p.finalized().seed is None,
        p.remixing_session_id is None ==> p.finalized().remixing_session_id is None,
        p.remixing_session_iteration_id is None
            ==> p.finalized().remixing_session_iteration_id is None,
        p.quality is None ==> p.finalized().quality is None,
        p.reference_audio_base64 is None ==> p.finalized().reference_audio_base64 is None,
        p.prompt_strength is None ==> p.finalized().prompt_strength is None,
{
}

/// A value that was set is the value of the call that is made, for every
/// parameter of a design-voice call; and the description is never changed.
pub proof fn lemma_set_value_is_kept(
    p: DesignVoiceParameters,
    text: Seq<char>,
    flag: bool,
    number: u32,
    level: Float32,
)
    ensures
        p.finalized().voice_description == p.voice_description,
        p.with_output_format(text).finalized().output_format == Some(text),
        p.with_text(text).finalized().text == Some(text),
        p.with_model(text).finalized().model_id == Some(text),
        p.with_auto_generate_text(flag).finalized().auto_generate_text == Some(flag),
        p.with_loudness(level).finalized().loudness == Some(level),
        p.with_seed(number).finalized().seed == Some(number),
        p.with_guidance_scale(number).finalized().guidance_scale == Some(number),
        p.with_stream_previews(flag).finalized().stream_previews == Some(flag),
        p.with_remixing_session_id(text).finalized().remixing_session_id == Some(text),
        p.with_remixing_session_iteration_id(text).finalized().remixing_session_iteration_id
            == Some(text),
        p.with_quality(level).finalized().quality == Some(level),
        p.with_reference_audio_base64(text).finalized().reference_audio_base64 == Some(text),
        p.with_prompt_strength(level).finalized().prompt_strength == Some(level),
{
}

/// No step unsets a parameter: whatever has a value keeps one through every
/// setter and through finalizing.
pub proof fn lemma_nothing_is_unset(
    p: DesignVoiceParameters,
    text: Seq<char>,
    flag: bool,
    number: u32,
    level: Float32,
)
    ensures
        p.with_output_format(text).keeps_set(p),
        p.with_text(text).keeps_set(p),
        p.with_model(text).keeps_set(p),
        p.with_auto_generate_text(flag).keeps_set(p),
        p.with_loudness(level).keeps_set(p),
        p.with_seed(number).keeps_set(p),
        p.with_guidance_scale(number).keeps_set(p),
        p.with_stream_previews(flag).keeps_set(p),
        p.with_remixing_session_id(text).keeps_set(p),
        p.with_remixing_session_iteration_id(text).keeps_set(p),
        p.with_quality(level).keeps_set(p),
        p.with_reference_audio_base64(text).keeps_set(p),
        p.with_prompt_strength(level).keeps_set(p),
        p.finalized().keeps_set(p),
{
}

/// A value that was set stays when other parameters are set after it, up to
/// the call that is made: finalizing keeps every parameter that has a value.
pub proof fn lemma_finalize_keeps_what_is_set(p: DesignVoiceParameters)
    ensures
        p.output_format is Some ==> p.finalized().output_format == p.output_format,
        p.text is Some ==> p.finalized().text == p.text,
        p.model_id is Some ==> p.finalized().model_id == p.model_id,
        p.auto_generate_text is Some ==> p.finalized().auto_generate_text == p.auto_generate_text,
        p.loudness is Some ==> p.finalized().loudness == p.loudness,
        p.seed is Some ==> p.finalized().seed == p.seed,
        p.guidance_scale is Some ==> p.finalized().guidance_scale == p.guidance_scale,
        p.stream_previews is Some ==> p.finalized().stream_previews == p.stream_previews,
        p.remixing_session_id is Some ==> p.finalized().remixing_session_id
            == p.remixing_session_id,
        p.remixing_session_iteration_id is Some ==> p.finalized().remixing_session_iteration_id
            == p.remixing_session_iteration_id,
        p.quality is Some ==> p.finalized().quality == p.quality,
        p.reference_audio_base64 is Some ==> p.finalized().reference_audio_base64
            == p.reference_audio_base64,
        p.prompt_strength is Some ==> p.finalized().prompt_strength == p.prompt_strength,
{
}

/// A value that was set is the value of the call that is made, for both
/// optional parameters of a create-voice call (which is made as it was set).
pub proof fn lemma_create_value_is_kept(p: CreateVoiceParameters, text: Seq<char>)
    ensures
        p.with_labels(text).labels == Some(text),
        p.with_played_not_selected_voice_ids(text).played_not_selected_voice_ids == Some(text),
        CreateVoiceParameters::named(text, text, text).labels is None,
        CreateVoiceParameters::named(text, text, text).played_not_selected_voice_ids is None,
{
}

} // verus!
