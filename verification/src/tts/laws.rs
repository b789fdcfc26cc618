//! What holds of the synthesis pipeline's validator and encoder, stated
//! over the same spec functions as their contracts and proved from them.

use vstd::prelude::*;
use crate::envelope::{envelope_of, is_success_status, utf8_lossy};
use crate::json::has_key;
use crate::scalar::INFINITY_BITS;
use crate::transport::ClientConfig;
use crate::tts::client::{
    MAX_INPUT_LENGTH, MAX_SPEED_BITS, MIN_SPEED_BITS, format_of, speech_fault, speech_result,
    speech_headers, speed_in_range,
};
use crate::tts::error::TtsFailure;
use crate::tts::types::{
    AudioFormat, Speech, SpeechRecord, SpeechRequestView, speech_members, speech_record,
};

verus! {

/* Validation */

/// A request without input is refused for that, whatever else is wrong
/// with it: a speed out of range, an empty API key.
pub proof fn lemma_missing_input_comes_first(config: ClientConfig, request: SpeechRequestView)
    requires
        request.input.len() == 0,
    ensures
        speech_fault(config, request) == Some(TtsFailure::MissingInput),
{
}

/// The rules are tried in a fixed order, and a later one is reported only
/// where every earlier one holds.
pub proof fn lemma_faults_in_order(config: ClientConfig, request: SpeechRequestView)
    ensures
        speech_fault(config, request) is Some && speech_fault(config, request)->0 is InputTooLong
            ==> request.input.len() != 0,
        speech_fault(config, request) is Some && speech_fault(config, request)->0 is InvalidSpeed
            ==> 0 < request.input.len() <= MAX_INPUT_LENGTH,
        speech_fault(config, request) is Some && speech_fault(config, request)->0 is MissingApiKey
            ==> 0 < request.input.len() <= MAX_INPUT_LENGTH && (request.speed is Some
            ==> speed_in_range(request.speed->0.bits)),
        speech_fault(config, request) is None ==> 0 < request.input.len() <= MAX_INPUT_LENGTH && (
        request.speed is Some ==> speed_in_range(request.speed->0.bits)) && config.api_key.len()
            > 0,
{
}

/// An input of up to 4096 characters is never too long; a longer one is
/// refused with the number of its characters.
pub proof fn lemma_input_length_limit(config: ClientConfig, request: SpeechRequestView)
    ensures
        request.input.len() <= 4096 ==> !(speech_fault(config, request) is Some && speech_fault(
            config,
            request,
        )->0 is InputTooLong),
        request.input.len() > 4096 ==> speech_fault(config, request) == Some(
            TtsFailure::InputTooLong(request.input.len()),
        ),
{
}

/// The two ends of the speed range belong to it, and the patterns next to
/// them on the outside do not. No pattern with the sign bit set belongs to
/// it, and none of an infinity or a NaN.
pub proof fn lemma_speed_range_is_closed()
    ensures
        speed_in_range(MIN_SPEED_BITS),
        speed_in_range(MAX_SPEED_BITS),
        !speed_in_range((MIN_SPEED_BITS - 1) as u32),
        !speed_in_range((MAX_SPEED_BITS + 1) as u32),
        forall|bits: u32| bits >= INFINITY_BITS ==> !speed_in_range(bits),
{
}

/// A request with input of a length that is taken and with a key is
/// refused for its speed exactly where the speed is set and out of range.
pub proof fn lemma_speed_decides(config: ClientConfig, request: SpeechRequestView)
    requires
        0 < request.input.len() <= MAX_INPUT_LENGTH,
        request.speed is Some,
    ensures
        speed_in_range(request.speed->0.bits) ==> !(speech_fault(config, request) is Some
            && speech_fault(config, request)->0 is InvalidSpeed),
        !speed_in_range(request.speed->0.bits) ==> speech_fault(config, request) == Some(
            TtsFailure::InvalidSpeed(request.speed->0),
        ),
{
}

/* The wire record */

/// The six keys are six different texts.
proof fn lemma_keys_differ()
    ensures
        "input"@.len() == 5 && "input"@[0] == 'i',
        "model"@.len() == 5 && "model"@[0] == 'm',
        "voice"@.len() == 5 && "voice"@[0] == 'v',
        "speed"@.len() == 5 && "speed"@[0] == 's',
        "instructions"@.len() == 12,
        "response_format"@.len() == 15,
{
    reveal_strlit("input");
    reveal_strlit("model");
    reveal_strlit("voice");
    reveal_strlit("speed");
    reveal_strlit("instructions");
    reveal_strlit("response_format");
}

/// A record on the wire has the members `input`, `model` and `voice`, and
/// has `instructions`, `response_format` and `speed` exactly where the
/// field is set: an unset field is left out, key and all.
pub proof fn lemma_unset_fields_are_left_out(record: SpeechRecord)
    ensures
        has_key(speech_members(record), "input"@),
        has_key(speech_members(record), "model"@),
        has_key(speech_members(record), "voice"@),
        has_key(speech_members(record), "instructions"@) <==> record.instructions is Some,
        has_key(speech_members(record), "response_format"@) <==> record.response_format is Some,
        has_key(speech_members(record), "speed"@) <==> record.speed is Some,
        speech_members(record).len() == 3 + (if record.instructions is Some {
            1nat
        } else {
            0nat
        }) + (if record.response_format is Some {
            1nat
        } else {
            0nat
        }) + (if record.speed is Some {
            1nat
        } else {
            0nat
        }),
{
    lemma_keys_differ();
    let members = speech_members(record);
    assert(members[0].key == "input"@);
    assert(members[1].key == "model"@);
    assert(members[2].key == "voice"@);
    let first = if record.instructions is Some {
        1int
    } else {
        0int
    };
    let second = if record.response_format is Some {
        1int
    } else {
        0int
    };
    if record.instructions is Some {
        assert(members[3].key == "instructions"@);
    }
    if record.response_format is Some {
        assert(members[3 + first].key == "response_format"@);
    }
    if record.speed is Some {
        assert(members[3 + first + second].key == "speed"@);
    }
    assert forall|i: int| 0 <= i < members.len() implies (i < 3 || (record.instructions is Some
        && i == 3 && (#[trigger] members[i]).key == "instructions"@) || (
    record.response_format is Some && i == 3 + first && members[i].key == "response_format"@) || (
    record.speed is Some && i == 3 + first + second && members[i].key == "speed"@)) by {}
}

/// The same, said of a request: the body of its call names a field that
/// may be unset exactly where the request sets it.
pub proof fn lemma_request_fields_on_the_wire(request: SpeechRequestView)
    ensures
        has_key(speech_members(speech_record(request)), "instructions"@)
            <==> request.instructions is Some,
        has_key(speech_members(speech_record(request)), "response_format"@)
            <==> request.response_format is Some,
        has_key(speech_members(speech_record(request)), "speed"@) <==> request.speed is Some,
{
    lemma_unset_fields_are_left_out(speech_record(request));
}

/* Calls */

/// A call carries two headers, `Authorization` and `Content-Type`, and no
/// header twice.
pub proof fn lemma_headers_are_distinct(config: ClientConfig)
    ensures
        speech_headers(config).len() == 2,
        speech_headers(config)[0].0 == "Authorization"@,
        speech_headers(config)[1].0 == "Content-Type"@,
        speech_headers(config)[0].0 != speech_headers(config)[1].0,
{
    reveal_strlit("Authorization");
    reveal_strlit("Content-Type");
    assert("Authorization"@.len() == 13);
    assert("Content-Type"@.len() == 12);
}

/* Answers */

/// On a success status the body is the audio, untouched, and the format is
/// the one asked for, or `mp3` where none was asked for.
pub proof fn lemma_success_body_is_the_audio(
    status: u16,
    body: Seq<u8>,
    requested: Option<AudioFormat>,
)
    requires
        is_success_status(status),
    ensures
        speech_result(status, body, requested) == Ok::<Speech, TtsFailure>(
            Speech { audio_data: body, format: format_of(requested) },
        ),
        format_of(None) == AudioFormat::Mp3,
        requested is Some ==> format_of(requested) == requested->0,
{
}

/// A failed call whose body holds no error envelope is reported with the
/// body itself as the message, read permissively as text.
pub proof fn lemma_plain_failure_body(status: u16, body: Seq<u8>, requested: Option<AudioFormat>)
    requires
        !is_success_status(status),
        envelope_of(body) is None,
    ensures
        speech_result(status, body, requested) == Err::<Speech, TtsFailure>(
            TtsFailure::ApiError { status, message: utf8_lossy(body) },
        ),
{
}

/// A failed call whose body holds an error envelope is reported with the
/// envelope's message.
pub proof fn lemma_envelope_failure_body(
    status: u16,
    body: Seq<u8>,
    requested: Option<AudioFormat>,
)
    requires
        !is_success_status(status),
        envelope_of(body) is Some,
    ensures
        speech_result(status, body, requested) == Err::<Speech, TtsFailure>(
            TtsFailure::ApiError { status, message: envelope_of(body)->0.message },
        ),
{
}

} // verus!
