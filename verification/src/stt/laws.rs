//! What holds of the transcription pipeline's encoders and decoders, stated
//! over the same spec functions as their contracts and proved from them.

use vstd::prelude::*;
use vstd::utf8::{encode_utf8, is_ascii_chars, is_ascii_chars_encode_utf8};
use crate::envelope::{envelope_of, is_success_status, utf8_lossy};
use crate::json::{Field, JsonTree, count_field, object_field, text_field};
use crate::stt::client::{transcription_headers, transcription_result};
use crate::transport::ClientConfig;
use crate::stt::error::SttFailure;
use crate::stt::types::{
    Transcript, UsageRecord, nested_details_in, transcript_in, transcript_of, usage_in,
};
use crate::stt::multipart::{
    FormPart, blocks, boundary_tag, content_type_for, content_type_of, crlf, dashes, delimiter,
    disposition, extension, fallback_content_type, form_body, is_boundary, is_symbol, last_dot,
    lemma_last_dot, lowered, quote, segment, type_line,
};

verus! {

/* Content types */

/// A name that ends in a `.` and an extension without a `.` gets the
/// table's entry for the extension, whatever the case of its letters.
pub proof fn lemma_extension_decides(stem: Seq<char>, ending: Seq<char>)
    requires
        !ending.contains('.'),
    ensures
        extension(stem + seq!['.'] + ending) == Some(ending),
        content_type_for(stem + seq!['.'] + ending) == content_type_of(lowered(ending)),
{
    let name = stem + seq!['.'] + ending;
    lemma_last_dot(name);
    let at = stem.len() as int;
    assert(name[at] == '.');
    assert forall|j: int| at < j < name.len() implies name[j] != '.' by {
        assert(name[j] == ending[j - at - 1]);
        assert(ending.contains(ending[j - at - 1]));
    }
    assert(last_dot(name) == Some(at));
    assert(name.subrange(at + 1, name.len() as int) =~= ending);
}

/// A name without a `.` gets the fallback.
pub proof fn lemma_no_extension_falls_back(name: Seq<char>)
    requires
        !name.contains('.'),
    ensures
        extension(name) is None,
        content_type_for(name) == fallback_content_type(),
{
    lemma_last_dot(name);
    if last_dot(name) is Some {
        assert(name.contains(name[last_dot(name)->0]));
    }
}

/* The shape of a body */

/// Whether `needle` stands in `hay` at the place `at`.
pub open spec fn occurs_at(needle: Seq<u8>, hay: Seq<u8>, at: int) -> bool {
    &&& 0 <= at
    &&& at + needle.len() <= hay.len()
    &&& hay.subrange(at, at + needle.len()) == needle
}

/// Whether `needle` stands somewhere in `hay`.
pub open spec fn occurs(needle: Seq<u8>, hay: Seq<u8>) -> bool {
    exists|at: int| occurs_at(needle, hay, at)
}

/// The pieces with the separator between each two of them.
pub open spec fn joined(pieces: Seq<Seq<u8>>, separator: Seq<u8>) -> Seq<u8>
    decreases pieces.len(),
{
    if pieces.len() == 0 {
        Seq::empty()
    } else if pieces.len() == 1 {
        pieces[0]
    } else {
        joined(pieces.drop_last(), separator) + separator + pieces.last()
    }
}

/// Whether a reader that looks for the separator from the start of
/// `piece + separator` finds it first where the piece ends.
pub open spec fn ends_at_separator(piece: Seq<u8>, separator: Seq<u8>) -> bool {
    forall|at: int| 0 <= at < piece.len() ==> !occurs_at(separator, piece + separator, at)
}

/// Whether splitting `body` on `separator` gives `pieces`: the body is the
/// pieces joined by the separator, every piece but the last ends where the
/// reader first finds the separator, and the last piece holds none.
pub open spec fn splits_into(body: Seq<u8>, separator: Seq<u8>, pieces: Seq<Seq<u8>>) -> bool {
    &&& pieces.len() >= 1
    &&& body == joined(pieces, separator)
    &&& forall|i: int| 0 <= i < pieces.len() - 1 ==> ends_at_separator(#[trigger] pieces[i], separator)
    &&& !occurs(separator, pieces.last())
}

/// The segments of the parts, in order.
pub open spec fn segments(parts: Seq<FormPart>) -> Seq<Seq<u8>> {
    parts.map_values(|part: FormPart| segment(part))
}

/// What stands behind the last delimiter of a body: `--` and a line end.
pub open spec fn tail_piece() -> Seq<u8> {
    dashes() + crlf()
}

/// The pieces that a body falls into at its delimiters: nothing before the
/// first delimiter, then one segment for each part, then the tail.
pub open spec fn pieces_of(parts: Seq<FormPart>) -> Seq<Seq<u8>> {
    seq![Seq::<u8>::empty()] + segments(parts) + seq![tail_piece()]
}

/// The segment of a text part holds one header line, the disposition with
/// the part's name, and no `Content-Type` line.
pub proof fn lemma_text_segment(part: FormPart)
    requires
        part.file is None,
    ensures
        segment(part) == crlf() + encode_utf8("Content-Disposition: form-data; name=\""@)
            + encode_utf8(part.name) + quote() + crlf() + crlf() + part.data + crlf(),
{
    assert(segment(part) =~= crlf() + encode_utf8("Content-Disposition: form-data; name=\""@)
        + encode_utf8(part.name) + quote() + crlf() + crlf() + part.data + crlf());
}

/// The segment of a file part holds two header lines: the disposition with
/// the part's name and `filename=`, and the `Content-Type` line.
pub proof fn lemma_file_segment(part: FormPart)
    requires
        part.file is Some,
    ensures
        segment(part) == crlf() + encode_utf8("Content-Disposition: form-data; name=\""@)
            + encode_utf8(part.name) + quote() + encode_utf8("; filename=\""@) + encode_utf8(
            part.file->0.filename,
        ) + quote() + crlf() + encode_utf8("Content-Type: "@) + encode_utf8(
            part.file->0.content_type,
        ) + crlf() + crlf() + part.data + crlf(),
{
    assert(segment(part) =~= crlf() + encode_utf8("Content-Disposition: form-data; name=\""@)
        + encode_utf8(part.name) + quote() + encode_utf8("; filename=\""@) + encode_utf8(
        part.file->0.filename,
    ) + quote() + crlf() + encode_utf8("Content-Type: "@) + encode_utf8(
        part.file->0.content_type,
    ) + crlf() + crlf() + part.data + crlf());
}

/// The blocks of the parts are the pieces before the tail, joined by the
/// delimiter.
proof fn lemma_blocks_are_joined(boundary: Seq<char>, parts: Seq<FormPart>)
    ensures
        blocks(boundary, parts) == joined(
            seq![Seq::<u8>::empty()] + segments(parts),
            delimiter(boundary),
        ),
    decreases parts.len(),
{
    let pieces = seq![Seq::<u8>::empty()] + segments(parts);
    if parts.len() == 0 {
        assert(pieces =~= seq![Seq::<u8>::empty()]);
        assert(joined(pieces, delimiter(boundary)) == Seq::<u8>::empty());
    } else {
        let front = parts.drop_last();
        lemma_blocks_are_joined(boundary, front);
        assert(pieces.drop_last() =~= seq![Seq::<u8>::empty()] + segments(front));
        assert(pieces.last() == segment(parts.last()));
        assert(blocks(boundary, parts) =~= joined(pieces, delimiter(boundary)));
    }
}

/// A body is its pieces joined by the delimiter.
pub proof fn lemma_body_is_joined(boundary: Seq<char>, parts: Seq<FormPart>)
    ensures
        form_body(boundary, parts) == joined(pieces_of(parts), delimiter(boundary)),
        pieces_of(parts).len() == parts.len() + 2,
{
    lemma_blocks_are_joined(boundary, parts);
    let pieces = pieces_of(parts);
    assert(pieces.drop_last() =~= seq![Seq::<u8>::empty()] + segments(parts));
    assert(pieces.last() == tail_piece());
    assert(form_body(boundary, parts) =~= joined(pieces, delimiter(boundary)));
}

/// Whether a character may stand in a boundary: a hyphen or a symbol of
/// the alphabet.
pub open spec fn is_boundary_char(c: char) -> bool {
    c == '-' || is_symbol(c)
}

/// Every character of the tag may stand in a boundary.
proof fn lemma_tag_chars()
    ensures
        boundary_tag().len() == 22,
        forall|i: int| 0 <= i < 22 ==> is_boundary_char(#[trigger] boundary_tag()[i]),
{
    reveal_strlit("----WebKitFormBoundary");
    let tag = boundary_tag();
    assert(tag.len() == 22);
    assert(is_boundary_char(tag[0]) && is_boundary_char(tag[1]) && is_boundary_char(tag[2])
        && is_boundary_char(tag[3]) && is_boundary_char(tag[4]) && is_boundary_char(tag[5]));
    assert(is_boundary_char(tag[6]) && is_boundary_char(tag[7]) && is_boundary_char(tag[8])
        && is_boundary_char(tag[9]) && is_boundary_char(tag[10]) && is_boundary_char(tag[11]));
    assert(is_boundary_char(tag[12]) && is_boundary_char(tag[13]) && is_boundary_char(tag[14])
        && is_boundary_char(tag[15]) && is_boundary_char(tag[16]) && is_boundary_char(tag[17]));
    assert(is_boundary_char(tag[18]) && is_boundary_char(tag[19]) && is_boundary_char(tag[20])
        && is_boundary_char(tag[21]));
}

/// A boundary is made of hyphens and symbols of the alphabet.
pub proof fn lemma_boundary_chars(boundary: Seq<char>)
    requires
        is_boundary(boundary),
    ensures
        boundary.len() == 38,
        forall|i: int| 0 <= i < boundary.len() ==> is_boundary_char(#[trigger] boundary[i]),
{
    lemma_tag_chars();
    assert forall|i: int| 0 <= i < boundary.len() implies is_boundary_char(
        #[trigger] boundary[i],
    ) by {
        if i < 22 {
            assert(boundary[i] == boundary.subrange(0, 22)[i]);
            assert(is_boundary_char(boundary_tag()[i]));
        }
    }
}

/// A delimiter has forty bytes, and no line feed among them.
pub proof fn lemma_delimiter_bytes(boundary: Seq<char>)
    requires
        is_boundary(boundary),
    ensures
        delimiter(boundary).len() == 40,
        forall|i: int| 0 <= i < 40 ==> #[trigger] delimiter(boundary)[i] != 10,
{
    lemma_boundary_chars(boundary);
    assert(is_ascii_chars(boundary));
    is_ascii_chars_encode_utf8(boundary);
    let bytes = encode_utf8(boundary);
    assert forall|i: int| 0 <= i < 40 implies #[trigger] delimiter(boundary)[i] != 10 by {
        if i >= 2 {
            assert(delimiter(boundary)[i] == bytes[i - 2]);
            assert(bytes[i - 2] == boundary[i - 2] as u8);
            assert(is_boundary_char(boundary[i - 2]));
        }
    }
}

/// A segment ends in a line feed.
pub proof fn lemma_segment_ends_in_line_feed(part: FormPart)
    ensures
        segment(part).len() >= 2,
        segment(part).last() == 10,
{
    let front = crlf() + disposition(part) + crlf() + type_line(part) + crlf() + part.data;
    assert(segment(part) =~= front + crlf());
    assert(crlf().len() == 2);
    assert((front + crlf())[front.len() as int + 1] == crlf()[1]);
}

/// A piece that ends in a line feed and holds no separator ends where the
/// reader first finds the separator, if the separator holds no line feed.
proof fn lemma_line_feed_guards(piece: Seq<u8>, separator: Seq<u8>)
    requires
        piece.len() >= 1,
        piece.last() == 10,
        forall|i: int| 0 <= i < separator.len() ==> #[trigger] separator[i] != 10,
        !occurs(separator, piece),
    ensures
        ends_at_separator(piece, separator),
{
    let hay = piece + separator;
    assert forall|at: int| 0 <= at < piece.len() implies !occurs_at(separator, hay, at) by {
        if occurs_at(separator, hay, at) {
            let window = hay.subrange(at, at + separator.len());
            if at + separator.len() <= piece.len() {
                assert(piece.subrange(at, at + separator.len()) =~= window);
                assert(occurs_at(separator, piece, at));
            } else {
                let j = piece.len() - 1 - at;
                assert(window[j] == hay[piece.len() - 1]);
                assert(hay[piece.len() - 1] == piece.last());
                assert(separator[j] != 10);
            }
        }
    }
}

/// Splitting a body on its delimiter gives one piece for each part, its
/// segment, between an empty piece in front and the tail `--` with a line
/// end behind. This holds of every form whose parts hold the delimiter
/// nowhere in their segments; the encoder does not look for it there.
pub proof fn lemma_body_splits_at_delimiters(boundary: Seq<char>, parts: Seq<FormPart>)
    requires
        is_boundary(boundary),
        forall|i: int|
            0 <= i < parts.len() ==> !occurs(delimiter(boundary), segment(#[trigger] parts[i])),
    ensures
        splits_into(form_body(boundary, parts), delimiter(boundary), pieces_of(parts)),
        pieces_of(parts).len() == parts.len() + 2,
        pieces_of(parts)[0] == Seq::<u8>::empty(),
        forall|i: int| 0 <= i < parts.len() ==> pieces_of(parts)[i + 1] == segment(parts[i]),
        pieces_of(parts).last() == tail_piece(),
{
    let separator = delimiter(boundary);
    let pieces = pieces_of(parts);
    lemma_body_is_joined(boundary, parts);
    lemma_delimiter_bytes(boundary);
    assert forall|i: int| 0 <= i < pieces.len() - 1 implies ends_at_separator(
        #[trigger] pieces[i],
        separator,
    ) by {
        if i >= 1 {
            let part = parts[i - 1];
            assert(pieces[i] == segment(part));
            lemma_segment_ends_in_line_feed(part);
            lemma_line_feed_guards(segment(part), separator);
        }
    }
    assert(pieces.last() == tail_piece());
    assert(tail_piece().len() == 4);
    assert(!occurs(separator, tail_piece()));
}

/* Records */

/// A document with a text `text` and without `usage` is a record with that
/// text and no usage.
pub proof fn lemma_record_without_usage(document: JsonTree, text: Seq<char>)
    requires
        text_field(document, "text"@) == Field::Present(text),
        object_field(document, "usage"@) is Absent,
    ensures
        transcript_in(document) == Ok::<Transcript, Seq<char>>(Transcript { text, usage: None }),
{
}

/// In a usage record that was read from an object, a field is unset
/// exactly where the object leaves its member out or has `null` for it.
/// A count of zero is a count: it reads as `Some(0)`.
pub proof fn lemma_left_out_stays_unset(object: JsonTree)
    requires
        usage_in(object) is Some,
    ensures
        usage_in(object)->0.usage_type is None <==> text_field(object, "type"@) is Absent,
        usage_in(object)->0.input_tokens is None <==> count_field(object, "input_tokens"@)
            is Absent,
        usage_in(object)->0.input_token_details is None <==> nested_details_in(object) is Absent,
        usage_in(object)->0.output_tokens is None <==> count_field(object, "output_tokens"@)
            is Absent,
        usage_in(object)->0.total_tokens is None <==> count_field(object, "total_tokens"@)
            is Absent,
        count_field(object, "input_tokens"@) == Field::Present(0u32) ==> usage_in(
            object,
        )->0.input_tokens == Some(0u32),
        count_field(object, "output_tokens"@) == Field::Present(0u32) ==> usage_in(
            object,
        )->0.output_tokens == Some(0u32),
        count_field(object, "total_tokens"@) == Field::Present(0u32) ==> usage_in(
            object,
        )->0.total_tokens == Some(0u32),
{
}

/// A usage object that holds `total_tokens` and nothing else is a usage
/// record with that field set and every other unset.
pub proof fn lemma_usage_with_total_only(object: JsonTree, total: u32)
    requires
        text_field(object, "type"@) is Absent,
        count_field(object, "input_tokens"@) is Absent,
        object_field(object, "input_token_details"@) is Absent,
        count_field(object, "output_tokens"@) is Absent,
        count_field(object, "total_tokens"@) == Field::Present(total),
    ensures
        usage_in(object) == Some(
            UsageRecord {
                usage_type: None,
                input_tokens: None,
                input_token_details: None,
                output_tokens: None,
                total_tokens: Some(total),
            },
        ),
{
}

/// The keys of a record and of a usage object are different texts.
proof fn lemma_record_keys_differ()
    ensures
        "text"@.len() == 4 && "text"@[1] == 'e',
        "type"@.len() == 4 && "type"@[1] == 'y',
        "usage"@.len() == 5,
        "input_tokens"@.len() == 12 && "input_tokens"@[0] == 'i',
        "total_tokens"@.len() == 12 && "total_tokens"@[0] == 't',
        "output_tokens"@.len() == 13,
        "input_token_details"@.len() == 19,
{
    reveal_strlit("text");
    reveal_strlit("type");
    reveal_strlit("usage");
    reveal_strlit("input_tokens");
    reveal_strlit("total_tokens");
    reveal_strlit("output_tokens");
    reveal_strlit("input_token_details");
}

/// The document `{"text": ..}` decodes to a record with that text and
/// without usage.
pub proof fn lemma_document_with_text_only(text: Seq<char>)
    ensures
        transcript_in(JsonTree::Object(map!["text"@ => JsonTree::Text(text)])) == Ok::<
            Transcript,
            Seq<char>,
        >(Transcript { text, usage: None }),
{
    lemma_record_keys_differ();
}

/// The document `{"text": .., "usage": {"total_tokens": ..}}` decodes to a
/// record whose usage has that field set and every other field unset.
pub proof fn lemma_document_with_total_only(text: Seq<char>, total: u32)
    ensures
        transcript_in(
            JsonTree::Object(
                map![
                    "text"@ => JsonTree::Text(text),
                    "usage"@ => JsonTree::Object(
                        map!["total_tokens"@ => JsonTree::Number(Some(total as u64))],
                    ),
                ],
            ),
        ) == Ok::<Transcript, Seq<char>>(
            Transcript {
                text,
                usage: Some(
                    UsageRecord {
                        usage_type: None,
                        input_tokens: None,
                        input_token_details: None,
                        output_tokens: None,
                        total_tokens: Some(total),
                    },
                ),
            },
        ),
{
    lemma_record_keys_differ();
    let usage = JsonTree::Object(map!["total_tokens"@ => JsonTree::Number(Some(total as u64))]);
    lemma_usage_with_total_only(usage, total);
}

/* Calls */

/// A call carries two headers, `Authorization` and `Content-Type`, and no
/// header twice.
pub proof fn lemma_headers_are_distinct(config: ClientConfig, boundary: Seq<char>)
    ensures
        transcription_headers(config, boundary).len() == 2,
        transcription_headers(config, boundary)[0].0 == "Authorization"@,
        transcription_headers(config, boundary)[1].0 == "Content-Type"@,
        transcription_headers(config, boundary)[0].0 != transcription_headers(
            config,
            boundary,
        )[1].0,
{
    reveal_strlit("Authorization");
    reveal_strlit("Content-Type");
    assert("Authorization"@.len() == 13);
    assert("Content-Type"@.len() == 12);
}

/* Answers */

/// A success status never gives `ApiError`, and any other status gives
/// nothing else: the status decides between the two branches.
pub proof fn lemma_status_decides(status: u16, body: Seq<u8>)
    ensures
        is_success_status(status) ==> transcription_result(status, body) == transcript_of(body),
        !is_success_status(status) ==> transcription_result(status, body) is Err
            && transcription_result(status, body)->Err_0 is ApiError,
        transcription_result(status, body) is Err && transcription_result(status, body)->Err_0
            is ApiError ==> transcription_result(status, body)->Err_0->status == status,
{
    if is_success_status(status) {
        if transcript_of(body) is Err {
            assert(transcript_of(body)->Err_0 is ParseError);
        }
    }
}

/// A failed call whose body holds no error envelope is reported with the
/// body itself as the message, read permissively as text.
pub proof fn lemma_plain_failure_body(status: u16, body: Seq<u8>)
    requires
        !is_success_status(status),
        envelope_of(body) is None,
    ensures
        transcription_result(status, body) == Err::<Transcript, SttFailure>(
            SttFailure::ApiError { status, message: utf8_lossy(body) },
        ),
{
}

/// A failed call whose body holds an error envelope is reported with the
/// envelope's message.
pub proof fn lemma_envelope_failure_body(status: u16, body: Seq<u8>)
    requires
        !is_success_status(status),
        envelope_of(body) is Some,
    ensures
        transcription_result(status, body) == Err::<Transcript, SttFailure>(
            SttFailure::ApiError { status, message: envelope_of(body)->0.message },
        ),
{
}

} // verus!
