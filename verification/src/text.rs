//! Text in the single-byte ISO 8859-1 character set.

use vstd::prelude::*;
use vstd::slice::{slice_subrange, slice_to_vec};

verus! {

/// Text in which every character is one byte: the byte is the character's
/// Unicode code point, so only the code points 0 to 255 can occur.
///
/// The view is the sequence of those bytes. Every byte sequence is a valid
/// text, of any length.
#[allow(non_camel_case_types)]
#[derive(Debug)]
pub struct ISO_8859_1 {
    bytes: Vec<u8>,
}

impl View for ISO_8859_1 {
    type V = Seq<u8>;

    closed spec fn view(&self) -> Seq<u8> {
        self.bytes@
    }
}

/// The characters that a byte sequence stands for, one per byte.
pub open spec fn chars_of(bytes: Seq<u8>) -> Seq<char> {
    Seq::new(bytes.len(), |i: int| bytes[i] as char)
}

/// Whether every character of `text` has a code point below 256, so that a
/// byte can hold it.
pub open spec fn is_latin1(text: Seq<char>) -> bool {
    forall|i: int| 0 <= i < text.len() ==> (#[trigger] text[i]) as u32 <= 0xFF
}

/// `bytes` without the zero bytes at its end.
pub open spec fn trim_nul(bytes: Seq<u8>) -> Seq<u8>
    decreases bytes.len(),
{
    if bytes.len() > 0 && bytes.last() == 0 {
        trim_nul(bytes.drop_last())
    } else {
        bytes
    }
}

/// Two byte sequences that stand for the same characters are the same.
pub proof fn lemma_chars_of_one_to_one(a: Seq<u8>, b: Seq<u8>)
    requires
        chars_of(a) == chars_of(b),
    ensures
        a == b,
{
    assert(a.len() == chars_of(a).len() == chars_of(b).len() == b.len());
    assert forall|i: int| 0 <= i < a.len() implies a[i] == b[i] by {
        assert(chars_of(b)[i] == b[i] as char);
    }
}

/// The characters that bytes stand for are such that a byte can hold each.
pub proof fn lemma_chars_of_is_latin1(bytes: Seq<u8>)
    ensures
        is_latin1(chars_of(bytes)),
{
}

/// Whether `bytes` is empty or ends in a byte other than zero.
pub open spec fn ends_in_no_nul(bytes: Seq<u8>) -> bool {
    bytes.len() == 0 || bytes.last() != 0
}

/// Trimming leaves a text that ends in no zero byte as it is.
pub proof fn lemma_trim_nul_is_own_when_trimmed(bytes: Seq<u8>)
    ensures
        ends_in_no_nul(bytes) <==> trim_nul(bytes) == bytes,
{
    lemma_trim_nul_is_shortest_prefix(bytes);
}

/// What `trim_nul` keeps is the shortest prefix after which only zero bytes
/// follow.
pub proof fn lemma_trim_nul_is_shortest_prefix(bytes: Seq<u8>)
    ensures
        trim_nul(bytes).len() <= bytes.len(),
        trim_nul(bytes) == bytes.take(trim_nul(bytes).len() as int),
        forall|i: int| trim_nul(bytes).len() <= i < bytes.len() ==> bytes[i] == 0,
        trim_nul(bytes).len() > 0 ==> trim_nul(bytes).last() != 0,
    decreases bytes.len(),
{
    if bytes.len() > 0 && bytes.last() == 0 {
        let shorter = bytes.drop_last();
        lemma_trim_nul_is_shortest_prefix(shorter);
        assert forall|i: int| trim_nul(bytes).len() <= i < bytes.len() implies bytes[i] == 0 by {
            if i < shorter.len() {
                assert(shorter[i] == bytes[i]);
            }
        }
    }
}

/// Zero bytes added at the end are trimmed away again.
pub proof fn lemma_trim_nul_ignores_padding(bytes: Seq<u8>, padded: Seq<u8>)
    requires
        bytes.len() <= padded.len(),
        padded.take(bytes.len() as int) == bytes,
        forall|i: int| bytes.len() <= i < padded.len() ==> padded[i] == 0,
    ensures
        trim_nul(padded) == trim_nul(bytes),
    decreases padded.len(),
{
    if bytes.len() == padded.len() {
        assert(padded =~= padded.take(bytes.len() as int));
    } else {
        let shorter = padded.drop_last();
        assert(shorter.take(bytes.len() as int) =~= bytes);
        lemma_trim_nul_ignores_padding(bytes, shorter);
    }
}

/// Trimming twice is trimming once.
pub proof fn lemma_trim_nul_idempotent(bytes: Seq<u8>)
    ensures
        trim_nul(trim_nul(bytes)) == trim_nul(bytes),
    decreases bytes.len(),
{
    if bytes.len() > 0 && bytes.last() == 0 {
        lemma_trim_nul_idempotent(bytes.drop_last());
    }
}

/// `String::push` of std, which adds one character at the end of a string and
/// leaves the characters before it as they are.
#[verifier::external_body]
fn push_char(string: &mut String, c: char)
    ensures
        final(string)@ == old(string)@.push(c),
{
    string.push(c);
}

impl ISO_8859_1 {
    /// The text whose characters are the bytes of `padded` up to the zero
    /// bytes that fill its end.
    pub fn from_padded(padded: &[u8]) -> (text: ISO_8859_1)
        ensures
            text@ == trim_nul(padded@),
    {
        let mut len: usize = padded.len();
        assert(padded@.take(len as int) =~= padded@);
        while len > 0 && padded[len - 1] == 0
            invariant
                len <= padded.len(),
                trim_nul(padded@) == trim_nul(padded@.take(len as int)),
            decreases len,
        {
            assert(padded@.take(len as int).drop_last() =~= padded@.take(len - 1));
            len -= 1;
        }
        ISO_8859_1 { bytes: slice_to_vec(slice_subrange(padded, 0, len)) }
    }

    /// The text with the characters of `text`, where a byte can hold each of
    /// them. A character with a code point above 255 is not mapped to
    /// anything: the whole text is refused.
    pub fn from_text(text: &str) -> (result: Option<ISO_8859_1>)
        ensures
            result is Some <==> is_latin1(text@),
            result matches Some(latin1) ==> chars_of(latin1@) == text@,
    {
        let mut bytes: Vec<u8> = Vec::new();
        for c in it: text.chars()
            invariant
                it.seq() == text@,
                bytes@.len() == it.index(),
                forall|j: int| 0 <= j < it.index() ==> (bytes@[j] as char) == text@[j],
        {
            let code: u32 = c as u32;
            if code > 0xFF {
                return None;
            }
            proof {
                vstd::utf8::char_u32_cast(c, code);
            }
            bytes.push(code as u8);
        }
        Some(ISO_8859_1 { bytes })
    }

    /// The text as a string, each byte turned into the character whose code
    /// point it is.
    pub fn to_string(&self) -> (string: String)
        ensures
            string@ == chars_of(self@),
    {
        let mut string = String::new();
        let mut i: usize = 0;
        while i < self.bytes.len()
            invariant
                i <= self.bytes.len(),
                string@ == chars_of(self@).take(i as int),
            decreases self.bytes.len() - i,
        {
            push_char(&mut string, self.bytes[i] as char);
            i += 1;
        }
        string
    }

    /// The bytes of the text, one for each character.
    pub fn as_bytes(&self) -> (bytes: &[u8])
        ensures
            bytes@ == self@,
    {
        self.bytes.as_slice()
    }
}

impl PartialEq for ISO_8859_1 {
    /// Two texts are equal where they have the same bytes.
    fn eq(&self, other: &ISO_8859_1) -> (equal: bool) {
        let equal = self.bytes == other.bytes;
        assert(equal <==> self.bytes@ =~= other.bytes@);
        equal
    }
}

impl vstd::std_specs::cmp::PartialEqSpecImpl for ISO_8859_1 {
    open spec fn obeys_eq_spec() -> bool {
        true
    }

    open spec fn eq_spec(&self, other: &ISO_8859_1) -> bool {
        self@ == other@
    }
}

impl Eq for ISO_8859_1 {

}

impl Clone for ISO_8859_1 {
    fn clone(&self) -> (text: ISO_8859_1)
        ensures
            text@ == self@,
    {
        ISO_8859_1 { bytes: self.bytes.clone() }
    }
}

impl From<&[u8]> for ISO_8859_1 {
    /// The text whose characters are the bytes of `value`, each taken as a code
    /// point. Nothing is trimmed.
    fn from(value: &[u8]) -> (text: ISO_8859_1)
        ensures
            text@ == value@,
    {
        ISO_8859_1 { bytes: slice_to_vec(value) }
    }
}

impl vstd::std_specs::convert::FromSpecImpl<&[u8]> for ISO_8859_1 {
    /// A text can only be described through its view, so `from` states its
    /// result in its own postcondition.
    open spec fn obeys_from_spec() -> bool {
        false
    }

    open spec fn from_spec(value: &[u8]) -> ISO_8859_1 {
        arbitrary()
    }
}

} // verus!
