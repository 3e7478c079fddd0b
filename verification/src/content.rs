//! Normalization of the generation command's output.
//!
//! The command's raw standard output is decoded as text (lossily, so
//! malformed encodings never abort the filesystem), trimmed of leading and
//! trailing whitespace, and terminated with exactly one newline byte. The
//! command itself is spawned by the host transport, which hands the raw
//! bytes — or a failure marker — to the core as a [`FetchOutcome`].

use vstd::prelude::*;
use vstd::string::StrSliceExecFns;

verus! {

/// The newline byte appended to every normalized quote.
pub const NEWLINE: u8 = 10;

/// What one invocation of the external generation command produced:
/// its raw standard output on success, or a failure marker when the
/// command exited unsuccessfully or could not be spawned.
pub enum FetchOutcome {
    Success(Vec<u8>),
    Failure,
}

/// The characters that lossy text decoding yields for the given bytes
/// (invalid sequences become replacement markers).
pub uninterp spec fn lossy_decode_of(bytes: Seq<u8>) -> Seq<char>;

/// The characters that remain after removing leading and trailing
/// whitespace from the given characters.
pub uninterp spec fn trimmed_of(chars: Seq<char>) -> Seq<char>;

/// The Unicode `White_Space` property, the notion of whitespace that
/// trimming removes: the control characters tab through carriage return,
/// space, next line, no-break space, ogham space mark, the en-quad through
/// hair-space range, the two line/paragraph separators, the narrow and
/// medium mathematical spaces, and the ideographic space.
pub open spec fn is_whitespace_char(c: char) -> bool {
    let n = c as u32;
    ||| (0x09 <= n && n <= 0x0D)
    ||| n == 0x20
    ||| n == 0x85
    ||| n == 0xA0
    ||| n == 0x1680
    ||| (0x2000 <= n && n <= 0x200A)
    ||| n == 0x2028
    ||| n == 0x2029
    ||| n == 0x202F
    ||| n == 0x205F
    ||| n == 0x3000
}

/// Whether `t` is the portion of `s` from position `i` up to `j`, with
/// nothing but whitespace before and after it — the shape of a trimmed
/// text within its original.
pub open spec fn trim_split_at(s: Seq<char>, t: Seq<char>, i: int, j: int) -> bool {
    &&& 0 <= i <= j <= s.len()
    &&& t == s.subrange(i, j)
    &&& forall|k: int| 0 <= k < i ==> is_whitespace_char(#[trigger] s[k])
    &&& forall|k: int| j <= k < s.len() ==> is_whitespace_char(#[trigger] s[k])
}

/// The normalized form of the command's raw output: the UTF-8 bytes of the
/// decoded, trimmed text, followed by exactly one newline byte.
pub open spec fn normalized_of(raw: Seq<u8>) -> Seq<u8> {
    vstd::utf8::encode_utf8(trimmed_of(lossy_decode_of(raw))).push(NEWLINE)
}

/// The shape of every normalized content: the UTF-8 bytes of a text `t`
/// that neither starts nor ends with whitespace, followed by exactly one
/// newline byte. Because `t` cannot end in whitespace, it cannot end in a
/// newline either, so the appended newline is the only trailing one.
pub open spec fn normalized_text(content: Seq<u8>, t: Seq<char>) -> bool {
    &&& content == vstd::utf8::encode_utf8(t).push(NEWLINE)
    &&& t.len() > 0 ==> !is_whitespace_char(t[0]) && !is_whitespace_char(t[t.len() - 1])
}

/// The UTF-8 encoding of one scalar is never empty, and its last byte is
/// the newline byte only for the newline scalar itself: a one-byte
/// encoding is the scalar's own value, and every longer encoding ends in
/// a continuation byte, which is at least 0x80.
proof fn lemma_encode_scalar_last(v: u32)
    ensures
        vstd::utf8::encode_scalar(v).len() >= 1,
        vstd::utf8::encode_scalar(v).last() == NEWLINE ==> v == 10,
{
    if vstd::utf8::has_width_1_encoding(v) {
        assert((v <= 0x7F && (v & 0x7F) as u8 == 10) ==> v == 10) by (bit_vector);
    } else {
        assert((0x80u8 | (v & 0x3F) as u8) != 10) by (bit_vector);
    }
}

/// The UTF-8 encoding of a nonempty text is nonempty, and it ends in the
/// newline byte only when the text itself ends in a newline character.
proof fn lemma_encode_utf8_last(chars: Seq<char>)
    requires
        chars.len() > 0,
    ensures
        vstd::utf8::encode_utf8(chars).len() >= 1,
        vstd::utf8::encode_utf8(chars).last() == NEWLINE ==> chars.last() == '\n',
    decreases chars.len(),
{
    let v = chars[0] as u32;
    let head = vstd::utf8::encode_scalar(v);
    let tail = vstd::utf8::encode_utf8(chars.drop_first());
    lemma_encode_scalar_last(v);
    assert(vstd::utf8::encode_utf8(chars) == head + tail);
    if chars.len() == 1 {
        assert(tail =~= Seq::<u8>::empty());
        assert((head + tail).last() == head.last());
        if (head + tail).last() == NEWLINE {
            assert(v == 10);
            vstd::utf8::char_u32_cast(chars[0], v);
            vstd::utf8::char_u32_cast('\n', '\n' as u32);
            assert(chars[0] == '\n');
        }
        assert(chars.last() == chars[0]);
    } else {
        lemma_encode_utf8_last(chars.drop_first());
        assert((head + tail).last() == tail.last());
        assert(chars.drop_first().last() == chars.last());
    }
}

/// A content in normalized shape ends with the newline byte, and that
/// newline is the only trailing one: the byte before it, if there is one,
/// is the last byte of the encoded trimmed text, which cannot be a
/// newline because the trimmed text does not end in whitespace.
pub proof fn lemma_normalized_text_single_newline(content: Seq<u8>, t: Seq<char>)
    requires
        normalized_text(content, t),
    ensures
        content.len() >= 1,
        content.last() == NEWLINE,
        content.len() >= 2 ==> content[content.len() - 2] != NEWLINE,
{
    let body = vstd::utf8::encode_utf8(t);
    if content.len() >= 2 {
        assert(body.len() >= 1);
        assert(t.len() > 0);
        lemma_encode_utf8_last(t);
        assert(content[content.len() - 2] == body.last());
        if body.last() == NEWLINE {
            assert(t.last() == '\n');
            assert(is_whitespace_char('\n'));
        }
    }
}

/// Relies on `String::from_utf8_lossy`: the decoded text is a function of
/// the input bytes alone.
#[verifier::external_body]
fn decode_lossy(bytes: &Vec<u8>) -> (r: String)
    ensures
        r@ == lossy_decode_of(bytes@),
{
    String::from_utf8_lossy(bytes.as_slice()).into_owned()
}

/// Relies on `str::trim`: the trimmed text is a function of the input
/// characters alone, is the input with its leading and trailing
/// `White_Space` characters removed, and therefore neither starts nor ends
/// with whitespace.
#[verifier::external_body]
fn trim_text(s: &str) -> (r: String)
    ensures
        r@ == trimmed_of(s@),
        exists|i: int, j: int| trim_split_at(s@, r@, i, j),
        r@.len() > 0 ==> !is_whitespace_char(r@[0]) && !is_whitespace_char(r@[r@.len() - 1]),
{
    s.trim().to_owned()
}

/// Normalizes the raw output of the generation command into the text blob
/// the quote file serves: decode lossily, trim surrounding whitespace,
/// append one newline. The result carries the normalized shape: trimmed
/// text, then exactly one trailing newline.
pub fn normalize_quote(raw: &Vec<u8>) -> (quote: Vec<u8>)
    ensures
        quote@ == normalized_of(raw@),
        normalized_text(quote@, trimmed_of(lossy_decode_of(raw@))),
{
    let decoded = decode_lossy(raw);
    let trimmed = trim_text(decoded.as_str());
    let mut quote = trimmed.as_str().as_bytes_vec();
    quote.push(NEWLINE);
    quote
}

} // verus!
