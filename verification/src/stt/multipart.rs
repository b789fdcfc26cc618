//! `multipart/form-data` bodies: boundaries, parts, the wire encoding, and
//! the content type that goes with a file name.

use vstd::prelude::*;
use vstd::string::{StrSliceExecFns, StringExecFns};
use vstd::utf8::encode_utf8;
use crate::text::{chars_of, put, put_text};

verus! {

/* Boundaries */

/// The fixed tag that every boundary starts with.
pub open spec fn boundary_tag() -> Seq<char> {
    "----WebKitFormBoundary"@
}

/// Number of random symbols that follow the tag.
pub const BOUNDARY_SYMBOLS: usize = 16;

/// Size of the alphabet that the symbols are drawn from: `0-9A-Za-z`.
pub const ALPHABET_SIZE: u8 = 62;

/// The symbol with a given index in the alphabet `0-9A-Za-z`.
pub open spec fn symbol(index: u8) -> char
    recommends
        index < ALPHABET_SIZE,
{
    if index < 10 {
        (48u8 + index) as char
    } else if index < 36 {
        (65u8 + (index - 10)) as char
    } else {
        (97u8 + (index - 36)) as char
    }
}

/// Whether a character belongs to the alphabet `0-9A-Za-z`.
pub open spec fn is_symbol(c: char) -> bool {
    ('0' <= c <= '9') || ('A' <= c <= 'Z') || ('a' <= c <= 'z')
}

/// The boundary made of the tag and the symbols with the given indices.
pub open spec fn boundary_of(indices: Seq<u8>) -> Seq<char> {
    boundary_tag() + indices.map_values(|index: u8| symbol(index))
}

/// Whether `boundary` is the tag followed by sixteen symbols of the
/// alphabet.
pub open spec fn is_boundary(boundary: Seq<char>) -> bool {
    &&& boundary.len() == boundary_tag().len() + BOUNDARY_SYMBOLS
    &&& boundary.subrange(0, boundary_tag().len() as int) == boundary_tag()
    &&& forall|i: int| boundary_tag().len() <= i < boundary.len() ==> is_symbol(#[trigger] boundary[i])
}

/// Draws a number below `bound` with `rand::thread_rng().gen_range(0..bound)`.
/// The draw is random, so the contract states only what holds of every
/// outcome: the number lies in the range that was asked for. `gen_range`
/// panics on an empty range, which `requires` leaves out.
#[verifier::external_body]
fn random_below(bound: u8) -> (r: u8)
    requires
        bound > 0,
    ensures
        r < bound,
{
    rand::Rng::gen_range(&mut rand::thread_rng(), 0..bound)
}

/// The symbol with index `index`.
fn symbol_at(index: u8) -> (r: char)
    requires
        index < ALPHABET_SIZE,
    ensures
        r == symbol(index),
        is_symbol(r),
{
    if index < 10 {
        (48u8 + index) as char
    } else if index < 36 {
        (65u8 + (index - 10)) as char
    } else {
        (97u8 + (index - 36)) as char
    }
}

/// The boundary for drawn indices: the tag followed by their symbols. It is
/// a boundary in full where sixteen indices were drawn.
pub fn boundary_from_indices(indices: &Vec<u8>) -> (r: String)
    requires
        forall|i: int| 0 <= i < indices@.len() ==> indices@[i] < ALPHABET_SIZE,
    ensures
        r@ == boundary_of(indices@),
        indices@.len() == BOUNDARY_SYMBOLS ==> is_boundary(r@),
{
    proof {
        reveal_strlit("----WebKitFormBoundary");
    }
    let mut boundary = String::from_str("----WebKitFormBoundary");
    let mut i: usize = 0;
    while i < indices.len()
        invariant
            i <= indices@.len(),
            forall|k: int| 0 <= k < indices@.len() ==> indices@[k] < ALPHABET_SIZE,
            boundary@ == boundary_of(indices@.take(i as int)),
            boundary_tag().len() == 22,
            forall|k: int| 22 <= k < boundary@.len() ==> is_symbol(#[trigger] boundary@[k]),
        decreases indices@.len() - i,
    {
        boundary.push(symbol_at(indices[i]));
        assert(boundary@ =~= boundary_of(indices@.take(i + 1))) by {
            assert(indices@.take(i + 1) =~= indices@.take(i as int).push(indices@[i as int]));
        }
        i += 1;
    }
    assert(indices@.take(i as int) =~= indices@);
    assert(boundary@.subrange(0, 22) =~= boundary_tag());
    boundary
}

/// A fresh boundary: the tag followed by sixteen symbols drawn at random.
pub fn generate_boundary() -> (r: String)
    ensures
        is_boundary(r@),
{
    let mut indices: Vec<u8> = Vec::new();
    let mut i: usize = 0;
    while i < BOUNDARY_SYMBOLS
        invariant
            i <= BOUNDARY_SYMBOLS,
            indices@.len() == i,
            forall|k: int| 0 <= k < indices@.len() ==> indices@[k] < ALPHABET_SIZE,
        decreases BOUNDARY_SYMBOLS - i,
    {
        indices.push(random_below(ALPHABET_SIZE));
        i += 1;
    }
    boundary_from_indices(&indices)
}

/* Parts and their encoding */

/// What makes a part a file part.
pub struct FileInfo {
    pub filename: Seq<char>,
    pub content_type: Seq<char>,
}

/// Model of one part of a form: a named field with raw bytes, and for a
/// file part the file's name and content type.
pub struct FormPart {
    pub name: Seq<char>,
    pub file: Option<FileInfo>,
    pub data: Seq<u8>,
}

/// A text part: its bytes are the value's UTF-8 encoding.
pub open spec fn text_part(name: Seq<char>, value: Seq<char>) -> FormPart {
    FormPart { name, file: None, data: encode_utf8(value) }
}

/// A file part.
pub open spec fn file_part(
    name: Seq<char>,
    filename: Seq<char>,
    content_type: Seq<char>,
    data: Seq<u8>,
) -> FormPart {
    FormPart { name, file: Some(FileInfo { filename, content_type }), data }
}

/// Carriage return, line feed.
pub open spec fn crlf() -> Seq<u8> {
    seq![13u8, 10u8]
}

/// Two hyphens.
pub open spec fn dashes() -> Seq<u8> {
    seq![45u8, 45u8]
}

/// A double quote.
pub open spec fn quote() -> Seq<u8> {
    seq![34u8]
}

/// The delimiter that opens every part: `--{boundary}`.
pub open spec fn delimiter(boundary: Seq<char>) -> Seq<u8> {
    dashes() + encode_utf8(boundary)
}

/// The `Content-Disposition` line of a part, without its line end.
pub open spec fn disposition(part: FormPart) -> Seq<u8> {
    encode_utf8("Content-Disposition: form-data; name=\""@) + encode_utf8(part.name) + quote()
        + match part.file {
        Some(file) => encode_utf8("; filename=\""@) + encode_utf8(file.filename) + quote(),
        None => Seq::empty(),
    }
}

/// The `Content-Type` line of a file part with its line end; nothing for a
/// text part.
pub open spec fn type_line(part: FormPart) -> Seq<u8> {
    match part.file {
        Some(file) => encode_utf8("Content-Type: "@) + encode_utf8(file.content_type) + crlf(),
        None => Seq::empty(),
    }
}

/// What stands between a part's delimiter and the next one: the end of the
/// delimiter's line, the header lines, a blank line, the raw bytes and a
/// line end.
pub open spec fn segment(part: FormPart) -> Seq<u8> {
    crlf() + disposition(part) + crlf() + type_line(part) + crlf() + part.data + crlf()
}

/// One part on the wire: its delimiter and its segment.
pub open spec fn block(boundary: Seq<char>, part: FormPart) -> Seq<u8> {
    delimiter(boundary) + segment(part)
}

/// The parts on the wire, one block after the other.
pub open spec fn blocks(boundary: Seq<char>, parts: Seq<FormPart>) -> Seq<u8>
    decreases parts.len(),
{
    if parts.len() == 0 {
        Seq::empty()
    } else {
        blocks(boundary, parts.drop_last()) + block(boundary, parts.last())
    }
}

/// What ends the body: `--{boundary}--` and a line end.
pub open spec fn closing(boundary: Seq<char>) -> Seq<u8> {
    delimiter(boundary) + dashes() + crlf()
}

/// The whole body of a form.
pub open spec fn form_body(boundary: Seq<char>, parts: Seq<FormPart>) -> Seq<u8> {
    blocks(boundary, parts) + closing(boundary)
}

/// The value of the `Content-Type` header that goes with the body. The
/// boundary is not quoted.
pub open spec fn form_content_type(boundary: Seq<char>) -> Seq<char> {
    "multipart/form-data; boundary="@ + boundary
}

struct Part {
    name: String,
    file: Option<(String, String)>,
    data: Vec<u8>,
}

impl View for Part {
    type V = FormPart;

    closed spec fn view(&self) -> FormPart {
        FormPart {
            name: self.name@,
            file: match self.file {
                Some((filename, content_type)) => Some(
                    FileInfo { filename: filename@, content_type: content_type@ },
                ),
                None => None,
            },
            data: self.data@,
        }
    }
}

/// A form under construction: a boundary drawn when the form was made, and
/// the parts added so far, in order.
pub struct MultipartFormData {
    boundary: String,
    parts: Vec<Part>,
}

/// Appends a line end to `body`.
fn put_crlf(body: &mut Vec<u8>)
    ensures
        final(body)@ == old(body)@ + crlf(),
{
    body.push(13);
    body.push(10);
    assert(body@ =~= old(body)@ + crlf());
}

/// Appends two hyphens to `body`.
fn put_dashes(body: &mut Vec<u8>)
    ensures
        final(body)@ == old(body)@ + dashes(),
{
    body.push(45);
    body.push(45);
    assert(body@ =~= old(body)@ + dashes());
}

/// Appends a double quote to `body`.
fn put_quote(body: &mut Vec<u8>)
    ensures
        final(body)@ == old(body)@ + quote(),
{
    body.push(34);
    assert(body@ =~= old(body)@ + quote());
}

/// Appends a delimiter to `body`.
fn put_delimiter(body: &mut Vec<u8>, boundary: &str)
    ensures
        final(body)@ == old(body)@ + delimiter(boundary@),
{
    put_dashes(body);
    put_text(body, boundary);
    assert(body@ =~= old(body)@ + delimiter(boundary@));
}

/// Appends a part's `Content-Disposition` line, without its line end.
fn put_disposition(body: &mut Vec<u8>, part: &Part)
    ensures
        final(body)@ == old(body)@ + disposition(part@),
{
    put_text(body, "Content-Disposition: form-data; name=\"");
    put_text(body, part.name.as_str());
    put_quote(body);
    let ghost named = body@;
    assert(named =~= old(body)@ + (encode_utf8("Content-Disposition: form-data; name=\""@)
        + encode_utf8(part@.name) + quote()));
    match &part.file {
        Some((filename, _)) => {
            put_text(body, "; filename=\"");
            put_text(body, filename.as_str());
            put_quote(body);
            assert(body@ =~= named + (encode_utf8("; filename=\""@) + encode_utf8(
                part@.file->0.filename,
            ) + quote()));
        },
        None => {
            assert(body@ =~= named + Seq::<u8>::empty());
        },
    }
    assert(body@ =~= old(body)@ + disposition(part@));
}

/// Appends a file part's `Content-Type` line; nothing for a text part.
fn put_type_line(body: &mut Vec<u8>, part: &Part)
    ensures
        final(body)@ == old(body)@ + type_line(part@),
{
    match &part.file {
        Some((_, content_type)) => {
            put_text(body, "Content-Type: ");
            put_text(body, content_type.as_str());
            put_crlf(body);
            assert(body@ =~= old(body)@ + type_line(part@));
        },
        None => {
            assert(body@ =~= old(body)@ + type_line(part@));
        },
    }
}

/// Appends a part's segment to `body`.
fn put_segment(body: &mut Vec<u8>, part: &Part)
    ensures
        final(body)@ == old(body)@ + segment(part@),
{
    put_crlf(body);
    put_disposition(body, part);
    put_crlf(body);
    let ghost head = body@;
    assert(head =~= old(body)@ + (crlf() + disposition(part@) + crlf()));
    put_type_line(body, part);
    put_crlf(body);
    let ghost lines = body@;
    assert(lines =~= old(body)@ + (crlf() + disposition(part@) + crlf() + type_line(part@)
        + crlf()));
    put(body, part.data.as_slice());
    put_crlf(body);
    assert(body@ =~= lines + (part@.data + crlf()));
    assert(body@ =~= old(body)@ + segment(part@));
}

/// Appends one part with its delimiter to `body`.
fn put_block(body: &mut Vec<u8>, boundary: &str, part: &Part)
    ensures
        final(body)@ == old(body)@ + block(boundary@, part@),
{
    put_delimiter(body, boundary);
    put_segment(body, part);
    assert(body@ =~= old(body)@ + block(boundary@, part@));
}

impl MultipartFormData {
    /// The form's boundary.
    pub closed spec fn boundary_text(&self) -> Seq<char> {
        self.boundary@
    }

    /// The form's parts, in the order in which they were added.
    pub closed spec fn parts(&self) -> Seq<FormPart> {
        self.parts@.map_values(|part: Part| part@)
    }

    /// Whether the form's boundary is one: the tag and sixteen symbols.
    /// Every form that this module makes is well formed, and adding parts
    /// keeps it so.
    pub open spec fn well_formed(&self) -> bool {
        is_boundary(self.boundary_text())
    }

    /// An empty form with a fresh boundary.
    pub fn new() -> (r: Self)
        ensures
            r.well_formed(),
            r.parts() == Seq::<FormPart>::empty(),
    {
        let form = MultipartFormData { boundary: generate_boundary(), parts: Vec::new() };
        assert(form.parts() =~= Seq::<FormPart>::empty());
        form
    }

    /// An empty form whose boundary is made of the given indices into the
    /// alphabet `0-9A-Za-z`.
    pub fn with_indices(indices: &Vec<u8>) -> (r: Self)
        requires
            indices@.len() == BOUNDARY_SYMBOLS,
            forall|i: int| 0 <= i < indices@.len() ==> indices@[i] < ALPHABET_SIZE,
        ensures
            r.well_formed(),
            r.boundary_text() == boundary_of(indices@),
            r.parts() == Seq::<FormPart>::empty(),
    {
        let form = MultipartFormData { boundary: boundary_from_indices(indices), parts: Vec::new() };
        assert(form.parts() =~= Seq::<FormPart>::empty());
        form
    }

    /// Adds a text part.
    pub fn add_text(&mut self, name: &str, value: &str)
        ensures
            final(self).boundary_text() == old(self).boundary_text(),
            final(self).parts() == old(self).parts().push(text_part(name@, value@)),
    {
        self.parts.push(
            Part { name: String::from_str(name), file: None, data: value.as_bytes_vec() },
        );
        assert(self.parts() =~= old(self).parts().push(text_part(name@, value@)));
    }

    /// Adds a file part.
    pub fn add_file(&mut self, name: &str, filename: &str, content_type: &str, data: Vec<u8>)
        ensures
            final(self).boundary_text() == old(self).boundary_text(),
            final(self).parts() == old(self).parts().push(
                file_part(name@, filename@, content_type@, data@),
            ),
    {
        self.parts.push(
            Part {
                name: String::from_str(name),
                file: Some((String::from_str(filename), String::from_str(content_type))),
                data,
            },
        );
        assert(self.parts() =~= old(self).parts().push(
            file_part(name@, filename@, content_type@, data@),
        ));
    }

    /// The body of the form and the value of its `Content-Type` header.
    pub fn build(self) -> (r: (Vec<u8>, String))
        ensures
            r.0@ == form_body(self.boundary_text(), self.parts()),
            r.1@ == form_content_type(self.boundary_text()),
    {
        let mut body: Vec<u8> = Vec::new();
        let mut i: usize = 0;
        while i < self.parts.len()
            invariant
                i <= self.parts@.len(),
                body@ == blocks(self.boundary_text(), self.parts().take(i as int)),
            decreases self.parts@.len() - i,
        {
            put_block(&mut body, self.boundary.as_str(), &self.parts[i]);
            proof {
                let done = self.parts().take(i + 1);
                assert(done.drop_last() =~= self.parts().take(i as int));
                assert(done.last() == self.parts@[i as int]@);
            }
            i += 1;
        }
        assert(self.parts().take(i as int) =~= self.parts());
        let ghost all = body@;
        put_delimiter(&mut body, self.boundary.as_str());
        put_dashes(&mut body);
        put_crlf(&mut body);
        assert(body@ =~= all + closing(self.boundary_text()));
        let mut content_type = String::from_str("multipart/form-data; boundary=");
        content_type.append(self.boundary.as_str());
        (body, content_type)
    }

    /// The form's boundary.
    pub fn boundary(&self) -> (r: &str)
        ensures
            r@ == self.boundary_text(),
    {
        self.boundary.as_str()
    }
}

/* Content types */

/// The lower-case form of an ASCII capital; any other character as it is.
pub open spec fn ascii_lower(c: char) -> char {
    if 'A' <= c <= 'Z' {
        ((c as u8) + 32) as char
    } else {
        c
    }
}

/// A text with its ASCII capitals in lower case.
pub open spec fn lowered(text: Seq<char>) -> Seq<char> {
    text.map_values(|c: char| ascii_lower(c))
}

/// The place of the last `.` in a name, if it has one.
pub open spec fn last_dot(name: Seq<char>) -> Option<int>
    decreases name.len(),
{
    if name.len() == 0 {
        None
    } else if name.last() == '.' {
        Some(name.len() - 1)
    } else {
        last_dot(name.drop_last())
    }
}

/// The extension of a file name: what follows its last `.`. A name without
/// a `.` has none.
pub open spec fn extension(name: Seq<char>) -> Option<Seq<char>> {
    match last_dot(name) {
        Some(i) => Some(name.subrange(i + 1, name.len() as int)),
        None => None,
    }
}

/// The content type for everything that the table does not know.
pub open spec fn fallback_content_type() -> Seq<char> {
    "application/octet-stream"@
}

/// The table from extensions in lower case to content types.
pub open spec fn content_type_of(extension: Seq<char>) -> Seq<char> {
    if extension == "flac"@ {
        "audio/flac"@
    } else if extension == "mp3"@ {
        "audio/mpeg"@
    } else if extension == "mp4"@ {
        "audio/mp4"@
    } else if extension == "mpeg"@ || extension == "mpga"@ {
        "audio/mpeg"@
    } else if extension == "m4a"@ {
        "audio/m4a"@
    } else if extension == "ogg"@ {
        "audio/ogg"@
    } else if extension == "wav"@ {
        "audio/wav"@
    } else if extension == "webm"@ {
        "audio/webm"@
    } else {
        fallback_content_type()
    }
}

/// The content type that goes with a file name: the table's entry for the
/// name's extension, whatever the case of its ASCII letters, and the
/// fallback for a name without extension.
pub open spec fn content_type_for(filename: Seq<char>) -> Seq<char> {
    match extension(filename) {
        Some(e) => content_type_of(lowered(e)),
        None => fallback_content_type(),
    }
}

/// `last_dot` finds the last `.`: no `.` stands after the place it gives,
/// and it gives none only for a name without a `.`.
pub proof fn lemma_last_dot(name: Seq<char>)
    ensures
        match last_dot(name) {
            Some(i) => 0 <= i < name.len() && name[i] == '.' && forall|j: int|
                i < j < name.len() ==> name[j] != '.',
            None => forall|j: int| 0 <= j < name.len() ==> name[j] != '.',
        },
    decreases name.len(),
{
    if name.len() != 0 && name.last() != '.' {
        let front = name.drop_last();
        lemma_last_dot(front);
        assert(forall|j: int| 0 <= j < front.len() ==> front[j] == name[j]);
    }
}

/// A `.` with no `.` after it is the last one.
proof fn lemma_last_dot_at(name: Seq<char>, i: int)
    requires
        0 <= i < name.len(),
        name[i] == '.',
        forall|j: int| i < j < name.len() ==> name[j] != '.',
    ensures
        last_dot(name) == Some(i),
    decreases name.len(),
{
    if name.last() != '.' {
        let front = name.drop_last();
        assert(forall|j: int| 0 <= j < front.len() ==> front[j] == name[j]);
        lemma_last_dot_at(front, i);
    }
}

/// A name without a `.` has no last one.
proof fn lemma_no_dot(name: Seq<char>)
    requires
        forall|j: int| 0 <= j < name.len() ==> name[j] != '.',
    ensures
        last_dot(name) is None,
    decreases name.len(),
{
    if name.len() != 0 {
        let front = name.drop_last();
        assert(forall|j: int| 0 <= j < front.len() ==> front[j] == name[j]);
        lemma_no_dot(front);
    }
}

/// The lower-case form of `c`.
fn to_lower(c: char) -> (r: char)
    ensures
        r == ascii_lower(c),
{
    if c >= 'A' && c <= 'Z' {
        ((c as u8) + 32) as char
    } else {
        c
    }
}

/// Whether the characters from `start` on, in lower case, spell `word`.
fn tail_spells(chars: &Vec<char>, start: usize, word: &str) -> (r: bool)
    requires
        start <= chars@.len(),
    ensures
        r == (lowered(chars@.subrange(start as int, chars@.len() as int)) == word@),
{
    let letters = chars_of(word);
    let ghost tail = chars@.subrange(start as int, chars@.len() as int);
    if chars.len() - start != letters.len() {
        assert(lowered(tail).len() != word@.len());
        return false;
    }
    let mut i: usize = 0;
    while i < letters.len()
        invariant
            i <= letters@.len(),
            letters@ == word@,
            start + letters@.len() == chars@.len(),
            chars@.len() <= usize::MAX,
            tail == chars@.subrange(start as int, chars@.len() as int),
            forall|k: int| 0 <= k < i ==> ascii_lower(tail[k]) == letters@[k],
        decreases letters@.len() - i,
    {
        if to_lower(chars[start + i]) != letters[i] {
            assert(lowered(tail)[i as int] == ascii_lower(tail[i as int]));
            assert(tail[i as int] == chars@[start + i]);
            return false;
        }
        assert(tail[i as int] == chars@[start + i]);
        i += 1;
    }
    assert(lowered(tail) =~= letters@);
    true
}

/// The content type for a file name, by its extension.
pub fn get_content_type_for_extension(filename: &str) -> (r: &'static str)
    ensures
        r@ == content_type_for(filename@),
{
    let chars = chars_of(filename);
    let mut start: usize = chars.len();
    while start > 0 && chars[start - 1] != '.'
        invariant
            start <= chars@.len(),
            forall|j: int| start <= j < chars@.len() ==> chars@[j] != '.',
        decreases start,
    {
        start -= 1;
    }
    if start == 0 {
        proof {
            lemma_no_dot(chars@);
        }
        return "application/octet-stream";
    }
    proof {
        lemma_last_dot_at(chars@, start - 1);
    }
    if tail_spells(&chars, start, "flac") {
        "audio/flac"
    } else if tail_spells(&chars, start, "mp3") {
        "audio/mpeg"
    } else if tail_spells(&chars, start, "mp4") {
        "audio/mp4"
    } else if tail_spells(&chars, start, "mpeg") || tail_spells(&chars, start, "mpga") {
        "audio/mpeg"
    } else if tail_spells(&chars, start, "m4a") {
        "audio/m4a"
    } else if tail_spells(&chars, start, "ogg") {
        "audio/ogg"
    } else if tail_spells(&chars, start, "wav") {
        "audio/wav"
    } else if tail_spells(&chars, start, "webm") {
        "audio/webm"
    } else {
        "application/octet-stream"
    }
}

} // verus!
