//! The body of a call, as the list of fields that go on the wire.
//!
//! A parameter that was never set has no field: the body names a parameter
//! only to give it a value. The output format of a design call is no field
//! either, since it travels in the URL.

use crate::number::Float32;
use crate::types::{
    text_view, CreateVoiceParameters, DesignVoiceParameters, TTVCreateVoiceRequest,
    TTVDesignVoiceRequest,
};
use vstd::prelude::*;
use vstd::string::StringExecFns;

verus! {

/// The value of a field of the body.
#[derive(Debug, Clone, PartialEq)]
pub enum PayloadValue {
    Text(String),
    Flag(bool),
    Integer(u32),
    Real(Float32),
}

/// The mathematical value of a [`PayloadValue`].
pub enum PayloadValueView {
    Text(Seq<char>),
    Flag(bool),
    Integer(u32),
    Real(Float32),
}

impl View for PayloadValue {
    type V = PayloadValueView;

    open spec fn view(&self) -> PayloadValueView {
        match *self {
            PayloadValue::Text(text) => PayloadValueView::Text(text@),
            PayloadValue::Flag(flag) => PayloadValueView::Flag(flag),
            PayloadValue::Integer(number) => PayloadValueView::Integer(number),
            PayloadValue::Real(number) => PayloadValueView::Real(number),
        }
    }
}

/// A field of the body: a name and its value.
#[derive(Debug, Clone, PartialEq)]
pub struct PayloadField {
    pub name: String,
    pub value: PayloadValue,
}

/// The mathematical value of a [`PayloadField`].
pub struct PayloadFieldView {
    pub name: Seq<char>,
    pub value: PayloadValueView,
}

impl View for PayloadField {
    type V = PayloadFieldView;

    open spec fn view(&self) -> PayloadFieldView {
        PayloadFieldView { name: self.name@, value: self.value@ }
    }
}

/// The mathematical values of a sequence of items, one for one.
pub open spec fn views<T: View>(items: Seq<T>) -> Seq<T::V> {
    items.map_values(|item: T| item@)
}

/// The field of a parameter: one field if the parameter is set, none if not.
pub open spec fn present(name: Seq<char>, value: Option<PayloadValueView>) -> Seq<
    PayloadFieldView,
> {
    match value {
        Some(value) => seq![PayloadFieldView { name, value }],
        None => Seq::empty(),
    }
}

/// An optional text as an optional field value.
pub open spec fn as_text(value: Option<Seq<char>>) -> Option<PayloadValueView> {
    match value {
        Some(text) => Some(PayloadValueView::Text(text)),
        None => None,
    }
}

/// An optional flag as an optional field value.
pub open spec fn as_flag(value: Option<bool>) -> Option<PayloadValueView> {
    match value {
        Some(flag) => Some(PayloadValueView::Flag(flag)),
        None => None,
    }
}

/// An optional unsigned number as an optional field value.
pub open spec fn as_integer(value: Option<u32>) -> Option<PayloadValueView> {
    match value {
        Some(number) => Some(PayloadValueView::Integer(number)),
        None => None,
    }
}

/// An optional real number as an optional field value.
pub open spec fn as_real(value: Option<Float32>) -> Option<PayloadValueView> {
    match value {
        Some(number) => Some(PayloadValueView::Real(number)),
        None => None,
    }
}

/// The body of a design-voice call: the description, then each parameter that
/// is set, in the order of the parameters. The output format is left out.
pub open spec fn design_payload(p: DesignVoiceParameters) -> Seq<PayloadFieldView> {
    present("voice_description"@, Some(PayloadValueView::Text(p.voice_description)))
        + present("model_id"@, as_text(p.model_id))
        + present("text"@, as_text(p.text))
        + present("auto_generate_text"@, as_flag(p.auto_generate_text))
        + present("loudness"@, as_real(p.loudness))
        + present("seed"@, as_integer(p.seed))
        + present("guidance_scale"@, as_integer(p.guidance_scale))
        + present("stream_previews"@, as_flag(p.stream_previews))
        + present("remixing_session_id"@, as_text(p.remixing_session_id))
        + present("remixing_session_iteration_id"@, as_text(p.remixing_session_iteration_id))
        + present("quality"@, as_real(p.quality))
        + present("reference_audio_base64"@, as_text(p.reference_audio_base64))
        + present("prompt_strength"@, as_real(p.prompt_strength))
}

/// The body of a create-voice call: name, description and preview identifier,
/// then the labels and the rejected previews where they are set.
pub open spec fn create_payload(p: CreateVoiceParameters) -> Seq<PayloadFieldView> {
    present("voice_name"@, Some(PayloadValueView::Text(p.voice_name)))
        + present("voice_description"@, Some(PayloadValueView::Text(p.voice_description)))
        + present("generated_voice_id"@, Some(PayloadValueView::Text(p.generated_voice_id)))
        + present("labels"@, as_text(p.labels))
        + present("played_not_selected_voice_ids"@, as_text(p.played_not_selected_voice_ids))
}

/// The mathematical value of an optional field value.
pub open spec fn value_view(value: Option<PayloadValue>) -> Option<PayloadValueView> {
    match value {
        Some(value) => Some(value@),
        None => None,
    }
}

/// Appends the field of a parameter, if the parameter is set.
fn push_present(fields: &mut Vec<PayloadField>, name: &str, value: Option<PayloadValue>)
    ensures
        views(final(fields)@) == views(old(fields)@) + present(name@, value_view(value)),
{
    if let Some(value) = value {
        fields.push(PayloadField { name: String::from_str(name), value });
    }
}

/// A copy of an optional text, as a field value.
fn text_value(value: &Option<String>) -> (r: Option<PayloadValue>)
    ensures
        value_view(r) == as_text(text_view(*value)),
{
    match value {
        Some(text) => Some(PayloadValue::Text(text.clone())),
        None => None,
    }
}

/// An optional flag, as a field value.
fn flag_value(value: Option<bool>) -> (r: Option<PayloadValue>)
    ensures
        value_view(r) == as_flag(value),
{
    match value {
        Some(flag) => Some(PayloadValue::Flag(flag)),
        None => None,
    }
}

/// An optional unsigned number, as a field value.
fn integer_value(value: Option<u32>) -> (r: Option<PayloadValue>)
    ensures
        value_view(r) == as_integer(value),
{
    match value {
        Some(number) => Some(PayloadValue::Integer(number)),
        None => None,
    }
}

/// An optional real number, as a field value.
fn real_value(value: Option<Float32>) -> (r: Option<PayloadValue>)
    ensures
        value_view(r) == as_real(value),
{
    match value {
        Some(number) => Some(PayloadValue::Real(number)),
        None => None,
    }
}

impl TTVDesignVoiceRequest {
    /// The body of the call.
    pub fn payload(&self) -> (r: Vec<PayloadField>)
        ensures
            views(r@) == design_payload(self@),
    {
        let mut fields: Vec<PayloadField> = Vec::new();
        push_present(
            &mut fields,
            "voice_description",
            Some(PayloadValue::Text(self.voice_description.clone())),
        );
        push_present(&mut fields, "model_id", text_value(&self.model_id));
        push_present(&mut fields, "text", text_value(&self.text));
        push_present(&mut fields, "auto_generate_text", flag_value(self.auto_generate_text));
        push_present(&mut fields, "loudness", real_value(self.loudness));
        push_present(&mut fields, "seed", integer_value(self.seed));
        push_present(&mut fields, "guidance_scale", integer_value(self.guidance_scale));
        push_present(&mut fields, "stream_previews", flag_value(self.stream_previews));
        push_present(&mut fields, "remixing_session_id", text_value(&self.remixing_session_id));
        push_present(
            &mut fields,
            "remixing_session_iteration_id",
            text_value(&self.remixing_session_iteration_id),
        );
        push_present(&mut fields, "quality", real_value(self.quality));
        push_present(
            &mut fields,
            "reference_audio_base64",
            text_value(&self.reference_audio_base64),
        );
        push_present(&mut fields, "prompt_strength", real_value(self.prompt_strength));
        fields
    }
}

impl TTVCreateVoiceRequest {
    /// The body of the call.
    pub fn payload(&self) -> (r: Vec<PayloadField>)
        ensures
            views(r@) == create_payload(self@),
    {
        let mut fields: Vec<PayloadField> = Vec::new();
        push_present(&mut fields, "voice_name", Some(PayloadValue::Text(self.voice_name.clone())));
        push_present(
            &mut fields,
            "voice_description",
            Some(PayloadValue::Text(self.voice_description.clone())),
        );
        push_present(
            &mut fields,
            "generated_voice_id",
            Some(PayloadValue::Text(self.generated_voice_id.clone())),
        );
        push_present(&mut fields, "labels", text_value(&self.labels));
        push_present(
            &mut fields,
            "played_not_selected_voice_ids",
            text_value(&self.played_not_selected_voice_ids),
        );
        fields
    }
}

/// The value that a body gives to a name: that of its first field of that
/// name, and none where it has no such field.
pub open spec fn field_value(fields: Seq<PayloadFieldView>, name: Seq<char>) -> Option<
    PayloadValueView,
>
    decreases fields.len(),
{
    if fields.len() == 0 {
        None
    } else if fields[0].name == name {
        Some(fields[0].value)
    } else {
        field_value(fields.drop_first(), name)
    }
}

/// What a body gives to a name once the field of a parameter is appended:
/// what it gave before, or else the value of the parameter if that is its name.
proof fn lemma_field_value_appended(
    fields: Seq<PayloadFieldView>,
    parameter: Seq<char>,
    value: Option<PayloadValueView>,
    name: Seq<char>,
)
    ensures
        field_value(fields + present(parameter, value), name) == if field_value(fields, name)
            is Some {
            field_value(fields, name)
        } else if parameter == name {
            value
        } else {
            None
        },
    decreases fields.len(),
{
    let extended = fields + present(parameter, value);
    if fields.len() == 0 {
        assert(extended =~= present(parameter, value));
        if value is Some {
            assert(extended.drop_first() =~= Seq::<PayloadFieldView>::empty());
        }
    } else {
        assert(extended.drop_first() =~= fields.drop_first() + present(parameter, value));
        lemma_field_value_appended(fields.drop_first(), parameter, value, name);
    }
}

/// The body of a design-voice call gives every parameter the value that it
/// has, names no parameter that is unset, and never names the output format.
pub proof fn lemma_design_payload_fields(p: DesignVoiceParameters)
    ensures
        field_value(design_payload(p), "voice_description"@) == Some(
            PayloadValueView::Text(p.voice_description),
        ),
        field_value(design_payload(p), "model_id"@) == as_text(p.model_id),
        field_value(design_payload(p), "text"@) == as_text(p.text),
        field_value(design_payload(p), "auto_generate_text"@) == as_flag(p.auto_generate_text),
        field_value(design_payload(p), "loudness"@) == as_real(p.loudness),
        field_value(design_payload(p), "seed"@) == as_integer(p.seed),
        field_value(design_payload(p), "guidance_scale"@) == as_integer(p.guidance_scale),
        field_value(design_payload(p), "stream_previews"@) == as_flag(p.stream_previews),
        field_value(design_payload(p), "remixing_session_id"@) == as_text(p.remixing_session_id),
        field_value(design_payload(p), "remixing_session_iteration_id"@) == as_text(
            p.remixing_session_iteration_id,
        ),
        field_value(design_payload(p), "quality"@) == as_real(p.quality),
        field_value(design_payload(p), "reference_audio_base64"@) == as_text(
            p.reference_audio_base64,
        ),
        field_value(design_payload(p), "prompt_strength"@) == as_real(p.prompt_strength),
        field_value(design_payload(p), "output_format"@) is None,
{
    reveal_strlit("voice_description");
    reveal_strlit("model_id");
    reveal_strlit("text");
    reveal_strlit("auto_generate_text");
    reveal_strlit("loudness");
    reveal_strlit("seed");
    reveal_strlit("guidance_scale");
    reveal_strlit("stream_previews");
    reveal_strlit("remixing_session_id");
    reveal_strlit("remixing_session_iteration_id");
    reveal_strlit("quality");
    reveal_strlit("reference_audio_base64");
    reveal_strlit("prompt_strength");
    reveal_strlit("output_format");
    assert("voice_description"@.len() == 17);
    assert("model_id"@.len() == 8 && "model_id"@[0] == 'm');
    assert("text"@.len() == 4 && "text"@[0] == 't');
    assert("auto_generate_text"@.len() == 18);
    assert("loudness"@.len() == 8 && "loudness"@[0] == 'l');
    assert("seed"@.len() == 4 && "seed"@[0] == 's');
    assert("guidance_scale"@.len() == 14);
    assert("stream_previews"@.len() == 15 && "stream_previews"@[0] == 's');
    assert("remixing_session_id"@.len() == 19);
    assert("remixing_session_iteration_id"@.len() == 29);
    assert("quality"@.len() == 7);
    assert("reference_audio_base64"@.len() == 22);
    assert("prompt_strength"@.len() == 15 && "prompt_strength"@[0] == 'p');
    assert("output_format"@.len() == 13);
    let f0 = Seq::<PayloadFieldView>::empty();
    let f1 = f0 + present("voice_description"@, Some(PayloadValueView::Text(p.voice_description)));
    let f2 = f1 + present("model_id"@, as_text(p.model_id));
    let f3 = f2 + present("text"@, as_text(p.text));
    let f4 = f3 + present("auto_generate_text"@, as_flag(p.auto_generate_text));
    let f5 = f4 + present("loudness"@, as_real(p.loudness));
    let f6 = f5 + present("seed"@, as_integer(p.seed));
    let f7 = f6 + present("guidance_scale"@, as_integer(p.guidance_scale));
    let f8 = f7 + present("stream_previews"@, as_flag(p.stream_previews));
    let f9 = f8 + present("remixing_session_id"@, as_text(p.remixing_session_id));
    let f10 = f9 + present(
        "remixing_session_iteration_id"@,
        as_text(p.remixing_session_iteration_id),
    );
    let f11 = f10 + present("quality"@, as_real(p.quality));
    let f12 = f11 + present("reference_audio_base64"@, as_text(p.reference_audio_base64));
    let f13 = f12 + present("prompt_strength"@, as_real(p.prompt_strength));
    assert forall|name: Seq<char>| #[trigger] field_value(f13, name) == (if "voice_description"@
        == name {
        Some(PayloadValueView::Text(p.voice_description))
    } else if "model_id"@ == name {
        as_text(p.model_id)
    } else if "text"@ == name {
        as_text(p.text)
    } else if "auto_generate_text"@ == name {
        as_flag(p.auto_generate_text)
    } else if "loudness"@ == name {
        as_real(p.loudness)
    } else if "seed"@ == name {
        as_integer(p.seed)
    } else if "guidance_scale"@ == name {
        as_integer(p.guidance_scale)
    } else if "stream_previews"@ == name {
        as_flag(p.stream_previews)
    } else if "remixing_session_id"@ == name {
        as_text(p.remixing_session_id)
    } else if "remixing_session_iteration_id"@ == name {
        as_text(p.remixing_session_iteration_id)
    } else if "quality"@ == name {
        as_real(p.quality)
    } else if "reference_audio_base64"@ == name {
        as_text(p.reference_audio_base64)
    } else if "prompt_strength"@ == name {
        as_real(p.prompt_strength)
    } else {
        None
    }) by {
        lemma_field_value_appended(
            f0,
            "voice_description"@,
            Some(PayloadValueView::Text(p.voice_description)),
            name,
        );
        lemma_field_value_appended(f1, "model_id"@, as_text(p.model_id), name);
        lemma_field_value_appended(f2, "text"@, as_text(p.text), name);
        lemma_field_value_appended(
            f3,
            "auto_generate_text"@,
            as_flag(p.auto_generate_text),
            name,
        );
        lemma_field_value_appended(f4, "loudness"@, as_real(p.loudness), name);
        lemma_field_value_appended(f5, "seed"@, as_integer(p.seed), name);
        lemma_field_value_appended(f6, "guidance_scale"@, as_integer(p.guidance_scale), name);
        lemma_field_value_appended(f7, "stream_previews"@, as_flag(p.stream_previews), name);
        lemma_field_value_appended(
            f8,
            "remixing_session_id"@,
            as_text(p.remixing_session_id),
            name,
        );
        lemma_field_value_appended(
            f9,
            "remixing_session_iteration_id"@,
            as_text(p.remixing_session_iteration_id),
            name,
        );
        lemma_field_value_appended(f10, "quality"@, as_real(p.quality), name);
        lemma_field_value_appended(
            f11,
            "reference_audio_base64"@,
            as_text(p.reference_audio_base64),
            name,
        );
        lemma_field_value_appended(f12, "prompt_strength"@, as_real(p.prompt_strength), name);
    }
}

/// The body of a create-voice call gives every parameter the value that it
/// has and names no parameter that is unset: without labels, the body has no
/// field of that name.
pub proof fn lemma_create_payload_fields(p: CreateVoiceParameters)
    ensures
        field_value(create_payload(p), "voice_name"@) == Some(PayloadValueView::Text(p.voice_name)),
        field_value(create_payload(p), "voice_description"@) == Some(
            PayloadValueView::Text(p.voice_description),
        ),
        field_value(create_payload(p), "generated_voice_id"@) == Some(
            PayloadValueView::Text(p.generated_voice_id),
        ),
        field_value(create_payload(p), "labels"@) == as_text(p.labels),
        field_value(create_payload(p), "played_not_selected_voice_ids"@) == as_text(
            p.played_not_selected_voice_ids,
        ),
{
    reveal_strlit("voice_name");
    reveal_strlit("voice_description");
    reveal_strlit("generated_voice_id");
    reveal_strlit("labels");
    reveal_strlit("played_not_selected_voice_ids");
    assert("voice_name"@.len() == 10);
    assert("voice_description"@.len() == 17);
    assert("generated_voice_id"@.len() == 18);
    assert("labels"@.len() == 6);
    assert("played_not_selected_voice_ids"@.len() == 29);
    let f0 = Seq::<PayloadFieldView>::empty();
    let f1 = f0 + present("voice_name"@, Some(PayloadValueView::Text(p.voice_name)));
    let f2 = f1 + present("voice_description"@, Some(PayloadValueView::Text(p.voice_description)));
    let f3 = f2 + present(
        "generated_voice_id"@,
        Some(PayloadValueView::Text(p.generated_voice_id)),
    );
    let f4 = f3 + present("labels"@, as_text(p.labels));
    let f5 = f4 + present(
        "played_not_selected_voice_ids"@,
        as_text(p.played_not_selected_voice_ids),
    );
    assert forall|name: Seq<char>| #[trigger] field_value(f5, name) == (if "voice_name"@ == name {
        Some(PayloadValueView::Text(p.voice_name))
    } else if "voice_description"@ == name {
        Some(PayloadValueView::Text(p.voice_description))
    } else if "generated_voice_id"@ == name {
        Some(PayloadValueView::Text(p.generated_voice_id))
    } else if "labels"@ == name {
        as_text(p.labels)
    } else if "played_not_selected_voice_ids"@ == name {
        as_text(p.played_not_selected_voice_ids)
    } else {
        None
    }) by {
        lemma_field_value_appended(
            f0,
            "voice_name"@,
            Some(PayloadValueView::Text(p.voice_name)),
            name,
        );
        lemma_field_value_appended(
            f1,
            "voice_description"@,
            Some(PayloadValueView::Text(p.voice_description)),
            name,
        );
        lemma_field_value_appended(
            f2,
            "generated_voice_id"@,
            Some(PayloadValueView::Text(p.generated_voice_id)),
            name,
        );
        lemma_field_value_appended(f3, "labels"@, as_text(p.labels), name);
        lemma_field_value_appended(
            f4,
            "played_not_selected_voice_ids"@,
            as_text(p.played_not_selected_voice_ids),
            name,
        );
    }
}

} // verus!
