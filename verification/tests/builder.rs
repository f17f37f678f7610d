use elevenlabs_ttv::models;
use elevenlabs_ttv::number::Float32;
use elevenlabs_ttv::payload::{PayloadField, PayloadValue};
use elevenlabs_ttv::{ElevenLabsTTVClient, Header, HttpMethod};

fn text_field(name: &str, value: &str) -> PayloadField {
    PayloadField { name: name.to_string(), value: PayloadValue::Text(value.to_string()) }
}

fn flag_field(name: &str, value: bool) -> PayloadField {
    PayloadField { name: name.to_string(), value: PayloadValue::Flag(value) }
}

fn integer_field(name: &str, value: u32) -> PayloadField {
    PayloadField { name: name.to_string(), value: PayloadValue::Integer(value) }
}

fn real_field(name: &str, value: f32) -> PayloadField {
    PayloadField {
        name: name.to_string(),
        value: PayloadValue::Real(Float32::from_bits(value.to_bits())),
    }
}

fn json_object(fields: &[PayloadField]) -> serde_json::Map<String, serde_json::Value> {
    let mut object = serde_json::Map::new();
    for field in fields {
        let value = match &field.value {
            PayloadValue::Text(text) => serde_json::Value::from(text.clone()),
            PayloadValue::Flag(flag) => serde_json::Value::from(*flag),
            PayloadValue::Integer(number) => serde_json::Value::from(*number),
            PayloadValue::Real(number) => serde_json::Value::from(f32::from_bits(number.to_bits())),
        };
        object.insert(field.name.clone(), value);
    }
    object
}

#[test]
fn lib_test_client_creation() {
    let client = ElevenLabsTTVClient::new("test-key");
    assert_eq!(client.api_key, "test-key");
}

#[test]
fn integration_test_test_client_creation() {
    let _client = ElevenLabsTTVClient::new("test-api-key");
    assert_eq!(true, true);
}

#[test]
fn test_builder_design_voice() {
    let client = ElevenLabsTTVClient::new("test-key");
    let _builder = client
        .design_voice("Confident male, 30s, general American accent, motivational and inspiring.")
        .model(models::elevanlabs_models::ELEVEN_MULTILINGUAL_TTV_V2);
    assert_eq!(true, true);
}

#[test]
fn test_builder_create_voice() {
    let client = ElevenLabsTTVClient::new("test-key");
    let _builder = client.create_voice(
        "Andry",
        "Confident male, 30s, general American accent, motivational and inspiring.",
        "designed-voice-id",
    );
    assert_eq!(true, true);
}

#[test]
fn test_invalid_api_key_error() {
    let _client = ElevenLabsTTVClient::new("invalid-key");
    assert_eq!(true, true);
}

#[test]
fn test_builder_pattern_design_voice() {
    let client = ElevenLabsTTVClient::new("test-key");
    let builder = client
        .design_voice(
            "Warm, friendly female, mid-20s, neutral American accent, casual and supportive",
        )
        .model("model-456");

    assert_eq!(
        builder.voice_description,
        "Warm, friendly female, mid-20s, neutral American accent, casual and supportive"
            .to_string()
    );
    assert_eq!(builder.model_id, Some("model-456".to_string()));
}

#[test]
fn test_builder_pattern_create_voice() {
    let client = ElevenLabsTTVClient::new("test-key");
    let builder = client
        .create_voice(
            "Elina",
            "Warm, friendly female, mid-20s, neutral American accent, casual and supportive",
            "generated-voice-id",
        )
        .labels("voice-labels");

    assert_eq!(builder.voice_name, "Elina".to_string());
    assert_eq!(
        builder.voice_description,
        "Warm, friendly female, mid-20s, neutral American accent, casual and supportive"
            .to_string()
    );
    assert_eq!(builder.generated_voice_id, "generated-voice-id".to_string());
    assert_eq!(builder.labels, Some("voice-labels".to_string()));
}

#[test]
fn client_uses_the_production_root_by_default() {
    let client = ElevenLabsTTVClient::new("k");
    assert_eq!(client.base_url, "https://api.elevenlabs.io/v1");
    assert_eq!(elevenlabs_ttv::DEFAULT_BASE_URL, "https://api.elevenlabs.io/v1");
}

#[test]
fn client_takes_another_root() {
    let client = ElevenLabsTTVClient::with_base_url("k", "http://localhost:8080/v1");
    assert_eq!(client.api_key, "k");
    assert_eq!(client.base_url, "http://localhost:8080/v1");
}

#[test]
fn builder_keeps_the_client() {
    let client = ElevenLabsTTVClient::with_base_url("secret", "http://double");
    let design = client.design_voice("X").seed(1);
    assert_eq!(design.client.api_key, "secret");
    assert_eq!(design.client.base_url, "http://double");
    let create = client.create_voice("n", "d", "id").labels("l");
    assert_eq!(create.client.api_key, "secret");
    assert_eq!(create.client.base_url, "http://double");
}

#[test]
fn new_design_builder_has_nothing_set() {
    let builder = ElevenLabsTTVClient::new("k").design_voice("X");
    assert_eq!(builder.voice_description, "X");
    assert_eq!(builder.output_format, None);
    assert_eq!(builder.model_id, None);
    assert_eq!(builder.text, None);
    assert_eq!(builder.auto_generate_text, None);
    assert_eq!(builder.loudness, None);
    assert_eq!(builder.seed, None);
    assert_eq!(builder.guidance_scale, None);
    assert_eq!(builder.stream_previews, None);
    assert_eq!(builder.remixing_session_id, None);
    assert_eq!(builder.remixing_session_iteration_id, None);
    assert_eq!(builder.quality, None);
    assert_eq!(builder.reference_audio_base64, None);
    assert_eq!(builder.prompt_strength, None);
}

#[test]
fn text_is_generated_when_none_is_given() {
    let request = ElevenLabsTTVClient::new("k").design_voice("X").build();
    assert_eq!(request.text, None);
    assert_eq!(request.auto_generate_text, Some(true));
}

#[test]
fn given_text_leaves_generation_unset() {
    let request = ElevenLabsTTVClient::new("k").design_voice("X").text("Hello there").build();
    assert_eq!(request.text, Some("Hello there".to_string()));
    assert_eq!(request.auto_generate_text, None);
}

#[test]
fn explicit_generation_flag_wins_over_the_default() {
    let client = ElevenLabsTTVClient::new("k");
    let off = client.design_voice("X").auto_generate_text(false).build();
    assert_eq!(off.auto_generate_text, Some(false));
    let on = client.design_voice("X").text("Hello").auto_generate_text(true).build();
    assert_eq!(on.auto_generate_text, Some(true));
    assert_eq!(on.text, Some("Hello".to_string()));
}

#[test]
fn defaults_are_filled_in() {
    let request = ElevenLabsTTVClient::new("k").design_voice("X").build();
    assert_eq!(request.voice_description, "X");
    assert_eq!(request.loudness, Some(Float32::from_bits(0.5f32.to_bits())));
    assert_eq!(request.loudness.map(|l| f32::from_bits(l.to_bits())), Some(0.5));
    assert_eq!(request.guidance_scale, Some(5));
    assert_eq!(request.stream_previews, Some(false));
    assert_eq!(request.model_id, Some("eleven_multilingual_ttv_v2".to_string()));
    assert_eq!(request.output_format, Some("mp3_44100_128".to_string()));
    assert_eq!(request.seed, None);
    assert_eq!(request.remixing_session_id, None);
    assert_eq!(request.remixing_session_iteration_id, None);
    assert_eq!(request.quality, None);
    assert_eq!(request.reference_audio_base64, None);
    assert_eq!(request.prompt_strength, None);
}

#[test]
fn model_constants_have_the_service_names() {
    assert_eq!(models::elevanlabs_models::ELEVEN_MULTILINGUAL_TTV_V2, "eleven_multilingual_ttv_v2");
    assert_eq!(models::elevanlabs_models::ELEVEN_TTV_V3, "eleven_ttv_v3");
    assert_eq!(elevenlabs_ttv::DEFAULT_OUTPUT_FORMAT, "mp3_44100_128");
    assert_eq!(elevenlabs_ttv::DEFAULT_GUIDANCE_SCALE, 5);
    assert_eq!(f32::from_bits(elevenlabs_ttv::number::SINGLE_HALF), 0.5);
}

#[test]
fn every_set_value_is_kept() {
    let request = ElevenLabsTTVClient::new("k")
        .design_voice("X")
        .output_format("pcm_16000")
        .text("Some text to speak")
        .model("eleven_ttv_v3")
        .auto_generate_text(false)
        .loudness(Float32::from_bits((-0.25f32).to_bits()))
        .seed(4294967295)
        .guidance_scale(20)
        .stream_previews(true)
        .remixing_session_id("session-1")
        .remixing_session_iteration_id("iteration-2")
        .quality(Float32::from_bits(1.0f32.to_bits()))
        .reference_audio_base64("QUJD")
        .prompt_strength(Float32::from_bits(0.75f32.to_bits()))
        .build();
    assert_eq!(request.voice_description, "X");
    assert_eq!(request.output_format, Some("pcm_16000".to_string()));
    assert_eq!(request.text, Some("Some text to speak".to_string()));
    assert_eq!(request.model_id, Some("eleven_ttv_v3".to_string()));
    assert_eq!(request.auto_generate_text, Some(false));
    assert_eq!(request.loudness.map(|l| f32::from_bits(l.to_bits())), Some(-0.25));
    assert_eq!(request.seed, Some(4294967295));
    assert_eq!(request.guidance_scale, Some(20));
    assert_eq!(request.stream_previews, Some(true));
    assert_eq!(request.remixing_session_id, Some("session-1".to_string()));
    assert_eq!(request.remixing_session_iteration_id, Some("iteration-2".to_string()));
    assert_eq!(request.quality.map(|q| f32::from_bits(q.to_bits())), Some(1.0));
    assert_eq!(request.reference_audio_base64, Some("QUJD".to_string()));
    assert_eq!(request.prompt_strength.map(|s| f32::from_bits(s.to_bits())), Some(0.75));
}

#[test]
fn a_later_setter_replaces_an_earlier_one() {
    let request =
        ElevenLabsTTVClient::new("k").design_voice("X").seed(1).guidance_scale(7).seed(2).build();
    assert_eq!(request.seed, Some(2));
    assert_eq!(request.guidance_scale, Some(7));
}

#[test]
fn values_outside_the_service_ranges_are_not_refused() {
    let request = ElevenLabsTTVClient::new("k")
        .design_voice("")
        .guidance_scale(1000)
        .loudness(Float32::from_bits(7.5f32.to_bits()))
        .text("short")
        .build();
    assert_eq!(request.voice_description, "");
    assert_eq!(request.guidance_scale, Some(1000));
    assert_eq!(request.loudness.map(|l| f32::from_bits(l.to_bits())), Some(7.5));
    assert_eq!(request.text, Some("short".to_string()));
}

#[test]
fn float_bits_round_trip() {
    for value in [0.0f32, 0.5, -1.0, 1.0, 0.1, f32::MAX, f32::MIN_POSITIVE] {
        assert_eq!(f32::from_bits(Float32::from_bits(value.to_bits()).to_bits()), value);
    }
    assert_eq!(Float32::from_bits(7).to_bits(), 7);
    assert_eq!(Float32::from_bits(7).bits, 7);
}

#[test]
fn design_voice_with_no_overrides() {
    let client = ElevenLabsTTVClient::new("k");
    let request = client.design_voice("X").build();
    let call = client.prepare_design_voice(&request);
    assert_eq!(call.method, HttpMethod::Post);
    assert_eq!(
        call.url,
        "https://api.elevenlabs.io/v1/text-to-voice/design?output_format=mp3_44100_128"
    );
    assert_eq!(
        call.headers,
        vec![
            Header { name: "xi-api-key".to_string(), value: "k".to_string() },
            Header { name: "Content-Type".to_string(), value: "application/json".to_string() },
        ]
    );
    assert_eq!(
        call.body,
        vec![
            text_field("voice_description", "X"),
            text_field("model_id", "eleven_multilingual_ttv_v2"),
            flag_field("auto_generate_text", true),
            real_field("loudness", 0.5),
            integer_field("guidance_scale", 5),
            flag_field("stream_previews", false),
        ]
    );
    let json = serde_json::to_string(&serde_json::Value::Object(json_object(&call.body))).unwrap();
    let parsed: serde_json::Value = serde_json::from_str(&json).unwrap();
    let object = parsed.as_object().unwrap();
    assert_eq!(object.len(), 6);
    assert_eq!(object["voice_description"].as_str(), Some("X"));
    assert_eq!(object["model_id"].as_str(), Some("eleven_multilingual_ttv_v2"));
    assert_eq!(object["loudness"].as_f64(), Some(0.5));
    assert_eq!(object["guidance_scale"].as_u64(), Some(5));
    assert_eq!(object["stream_previews"].as_bool(), Some(false));
    assert_eq!(object["auto_generate_text"].as_bool(), Some(true));
    for absent in [
        "output_format",
        "text",
        "seed",
        "remixing_session_id",
        "remixing_session_iteration_id",
        "quality",
        "reference_audio_base64",
        "prompt_strength",
    ] {
        assert!(!object.contains_key(absent));
    }
}

#[test]
fn design_payload_lists_every_set_parameter_in_order() {
    let client = ElevenLabsTTVClient::with_base_url("key", "http://double/v9");
    let request = client
        .design_voice("A voice")
        .output_format("pcm_16000")
        .text("Words")
        .model("eleven_ttv_v3")
        .auto_generate_text(false)
        .loudness(Float32::from_bits(1.0f32.to_bits()))
        .seed(9)
        .guidance_scale(20)
        .stream_previews(true)
        .remixing_session_id("s")
        .remixing_session_iteration_id("i")
        .quality(Float32::from_bits(0.25f32.to_bits()))
        .reference_audio_base64("QQ==")
        .prompt_strength(Float32::from_bits(0.5f32.to_bits()))
        .build();
    let call = client.prepare_design_voice(&request);
    assert_eq!(call.url, "http://double/v9/text-to-voice/design?output_format=pcm_16000");
    assert_eq!(
        call.body,
        vec![
            text_field("voice_description", "A voice"),
            text_field("model_id", "eleven_ttv_v3"),
            text_field("text", "Words"),
            flag_field("auto_generate_text", false),
            real_field("loudness", 1.0),
            integer_field("seed", 9),
            integer_field("guidance_scale", 20),
            flag_field("stream_previews", true),
            text_field("remixing_session_id", "s"),
            text_field("remixing_session_iteration_id", "i"),
            real_field("quality", 0.25),
            text_field("reference_audio_base64", "QQ=="),
            real_field("prompt_strength", 0.5),
        ]
    );
    assert_eq!(request.payload(), call.body);
}

#[test]
fn design_call_of_a_request_without_format_uses_the_default() {
    let client = ElevenLabsTTVClient::new("k");
    let mut request = client.design_voice("X").build();
    request.output_format = None;
    let call = client.prepare_design_voice(&request);
    assert_eq!(
        call.url,
        "https://api.elevenlabs.io/v1/text-to-voice/design?output_format=mp3_44100_128"
    );
}

#[test]
fn create_voice_without_labels_has_no_labels_field() {
    let client = ElevenLabsTTVClient::new("k");
    let request = client.create_voice("Jack", "A friendly voice", "abc123").build();
    assert_eq!(request.generated_voice_id, "abc123");
    assert_eq!(request.labels, None);
    let call = client.prepare_create_voice(&request);
    assert_eq!(call.method, HttpMethod::Post);
    assert_eq!(call.url, "https://api.elevenlabs.io/v1/text-to-voice");
    assert_eq!(
        call.headers,
        vec![
            Header { name: "xi-api-key".to_string(), value: "k".to_string() },
            Header { name: "Content-Type".to_string(), value: "application/json".to_string() },
        ]
    );
    assert_eq!(
        call.body,
        vec![
            text_field("voice_name", "Jack"),
            text_field("voice_description", "A friendly voice"),
            text_field("generated_voice_id", "abc123"),
        ]
    );
    let json = serde_json::to_string(&serde_json::Value::Object(json_object(&call.body))).unwrap();
    assert!(!json.contains("labels"));
    assert!(!json.contains("null"));
    let parsed: serde_json::Value = serde_json::from_str(&json).unwrap();
    let object = parsed.as_object().unwrap();
    assert!(!object.contains_key("labels"));
    assert!(!object.contains_key("played_not_selected_voice_ids"));
    assert_eq!(object["generated_voice_id"].as_str(), Some("abc123"));
}

#[test]
fn create_voice_keeps_what_was_set() {
    let client = ElevenLabsTTVClient::new("k");
    let request = client
        .create_voice("Jack", "A friendly voice", "abc123")
        .labels("{\"use\":\"demo\"}")
        .played_not_selected_voice_ids("p1,p2")
        .build();
    assert_eq!(request.voice_name, "Jack");
    assert_eq!(request.voice_description, "A friendly voice");
    assert_eq!(request.generated_voice_id, "abc123");
    assert_eq!(request.labels, Some("{\"use\":\"demo\"}".to_string()));
    assert_eq!(request.played_not_selected_voice_ids, Some("p1,p2".to_string()));
    assert_eq!(
        client.prepare_create_voice(&request).body,
        vec![
            text_field("voice_name", "Jack"),
            text_field("voice_description", "A friendly voice"),
            text_field("generated_voice_id", "abc123"),
            text_field("labels", "{\"use\":\"demo\"}"),
            text_field("played_not_selected_voice_ids", "p1,p2"),
        ]
    );
}

#[test]
fn client_clone_is_equal() {
    let client = ElevenLabsTTVClient::with_base_url("k", "u");
    let copy = client.clone();
    assert_eq!(copy.api_key, "k");
    assert_eq!(copy.base_url, "u");
}

#[test]
fn prepared_call_is_that_of_the_finalized_parameters() {
    let client = ElevenLabsTTVClient::with_base_url("key", "http://double");
    let direct = client.design_voice("X").seed(3).output_format("pcm_8000").prepare();
    let request = client.design_voice("X").seed(3).output_format("pcm_8000").build();
    assert_eq!(direct, client.prepare_design_voice(&request));
    assert_eq!(direct.url, "http://double/text-to-voice/design?output_format=pcm_8000");
    assert_eq!(direct.headers[0].value, "key");
    assert_eq!(direct.body.len(), 7);
    assert_eq!(direct.body[4], integer_field("seed", 3));

    let direct = client.create_voice("n", "d", "id").labels("l").prepare();
    let request = client.create_voice("n", "d", "id").labels("l").build();
    assert_eq!(direct, client.prepare_create_voice(&request));
    assert_eq!(direct.url, "http://double/text-to-voice");
    assert_eq!(direct.body.len(), 4);
    assert_eq!(direct.body[3], text_field("labels", "l"));
}
