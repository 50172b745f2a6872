//! Scanning a text for the end of its first word.

use vstd::prelude::*;
use vstd::string::*;
use vstd::utf8::{encode_scalar, encode_utf8, is_ascii_chars, is_ascii_chars_encode_utf8};
use crate::irun::{lines_view, IRunner};
use crate::text::{decimal, decimal_text};

verus! {

/// Runs the scanning demonstration.
pub struct Runner {}

/// The byte that separates words.
pub const SPACE: u8 = 32u8;

/// `at` is where the first word of `bytes` ends: the place of the first
/// space, or the length where there is none.
pub open spec fn is_first_word_end(bytes: Seq<u8>, at: int) -> bool {
    &&& 0 <= at <= bytes.len()
    &&& forall|j: int| 0 <= j < at ==> bytes[j] != SPACE
    &&& at < bytes.len() ==> bytes[at] == SPACE
}

/// `at` is the place of the first space character of `chars`, or the length
/// where there is none.
pub open spec fn is_first_space(chars: Seq<char>, at: int) -> bool {
    &&& 0 <= at <= chars.len()
    &&& forall|j: int| 0 <= j < at ==> chars[j] != ' '
    &&& at < chars.len() ==> chars[at] == ' '
}

/// The lines of this demonstration.
pub open spec fn demo_output() -> Seq<Seq<char>> {
    seq!["string runner"@, "len:6"@]
}

/// A text has one first-word end only.
pub proof fn lemma_first_word_end_unique(bytes: Seq<u8>, a: int, b: int)
    requires
        is_first_word_end(bytes, a),
        is_first_word_end(bytes, b),
    ensures
        a == b,
{
    if a < b {
        assert(bytes[a] == SPACE);
    } else if b < a {
        assert(bytes[b] == SPACE);
    }
}

/// The bytes that stand for one character in a text.
pub open spec fn char_bytes(c: char) -> Seq<u8> {
    encode_scalar(c as u32)
}

/// The bytes of one character: a space is the single byte `SPACE`, and no
/// byte of any other character is `SPACE`.
pub proof fn lemma_char_bytes(c: char)
    ensures
        char_bytes(c).len() >= 1,
        c == ' ' ==> char_bytes(c) == seq![SPACE],
        c != ' ' ==> forall|i: int|
            0 <= i < char_bytes(c).len() ==> #[trigger] char_bytes(c)[i] != SPACE,
{
    let v = c as u32;
    let e = encode_scalar(v);
    assert(v <= 0x7Fu32 ==> (v == 32u32 <==> (v & 0x7F) as u8 == 32u8)) by (bit_vector);
    assert(0xC0u8 | ((v >> 6) & 0x1F) as u8 != 32u8) by (bit_vector);
    assert(0xE0u8 | ((v >> 12) & 0x0F) as u8 != 32u8) by (bit_vector);
    assert(0xF0u8 | ((v >> 18) & 0x7) as u8 != 32u8) by (bit_vector);
    assert(0x80u8 | (v & 0x3F) as u8 != 32u8) by (bit_vector);
    assert(0x80u8 | ((v >> 6) & 0x3F) as u8 != 32u8) by (bit_vector);
    assert(0x80u8 | ((v >> 12) & 0x3F) as u8 != 32u8) by (bit_vector);
    if c == ' ' {
        assert(v == 32u32);
        assert(e =~= seq![SPACE]);
    }
}

/// Where the first space character of a text stands at place `k` (or the
/// text holds none and `k` is its length), the first word ends after the
/// bytes of the `k` characters before it.
pub proof fn lemma_first_word_of_chars(chars: Seq<char>, k: int)
    requires
        is_first_space(chars, k),
    ensures
        is_first_word_end(encode_utf8(chars), encode_utf8(chars.take(k)).len() as int),
    decreases chars.len(),
{
    let bytes = encode_utf8(chars);
    if chars.len() == 0 {
        assert(chars.take(k) =~= chars);
    } else if k == 0 {
        assert(chars.take(0).len() == 0);
        assert(encode_utf8(chars.take(0)).len() == 0);
        lemma_char_bytes(chars[0]);
        assert(bytes[0] == SPACE);
    } else {
        let rest = chars.drop_first();
        let e0 = char_bytes(chars[0]);
        let rest_bytes = encode_utf8(rest);
        let at1 = encode_utf8(rest.take(k - 1)).len() as int;
        assert(is_first_space(rest, k - 1)) by {
            assert forall|j: int| 0 <= j < k - 1 implies rest[j] != ' ' by {
                assert(rest[j] == chars[j + 1]);
            }
        }
        lemma_first_word_of_chars(rest, k - 1);
        lemma_char_bytes(chars[0]);
        let front = chars.take(k);
        assert(front[0] == chars[0]);
        assert(front.drop_first() =~= rest.take(k - 1));
        assert(encode_utf8(front) == e0 + encode_utf8(rest.take(k - 1)));
        assert(bytes == e0 + rest_bytes);
        let at = encode_utf8(front).len() as int;
        assert(at == e0.len() + at1);
        assert forall|j: int| 0 <= j < at implies bytes[j] != SPACE by {
            if j >= e0.len() {
                assert(bytes[j] == rest_bytes[j - e0.len()]);
            }
        }
        if at < bytes.len() {
            assert(bytes[at] == rest_bytes[at1]);
        }
    }
}

/// A text without a space character is one word: its first word ends at
/// its length in bytes.
pub proof fn lemma_no_space_gives_length(chars: Seq<char>, at: int)
    requires
        forall|j: int| 0 <= j < chars.len() ==> chars[j] != ' ',
        is_first_word_end(encode_utf8(chars), at),
    ensures
        at == encode_utf8(chars).len(),
{
    lemma_first_word_of_chars(chars, chars.len() as int);
    assert(chars.take(chars.len() as int) =~= chars);
    lemma_first_word_end_unique(encode_utf8(chars), at, encode_utf8(chars).len() as int);
}

/// In a text of ASCII characters only, bytes and characters have the same
/// places: the first word ends at the first space character, or at the
/// number of characters where there is none.
pub proof fn lemma_ascii_first_word(chars: Seq<char>, at: int)
    requires
        is_ascii_chars(chars),
    ensures
        is_first_word_end(encode_utf8(chars), at) <==> is_first_space(chars, at),
{
    is_ascii_chars_encode_utf8(chars);
    let bytes = encode_utf8(chars);
    assert forall|j: int| 0 <= j < chars.len() implies (#[trigger] bytes[j] == SPACE
        <==> chars[j] == ' ') by {
        let c = chars[j];
        assert(c as u8 == bytes[j]);
        assert('\0' <= c <= '\u{7f}');
    }
}

impl Runner {
    pub fn new() -> (r: Runner)
        ensures
            r.output() == demo_output(),
    {
        Runner {  }
    }
}

impl IRunner for Runner {
    open spec fn output(&self) -> Seq<Seq<char>> {
        demo_output()
    }

    fn run(&self) -> (lines: Vec<String>) {
        let mut lines: Vec<String> = Vec::new();
        lines.push(String::from_str("string runner"));
        let s = String::from_str("string runner");
        let at = first_word(&s);
        proof {
            reveal_strlit("string runner");
            reveal_strlit("len:");
            reveal_strlit("len:6");
            let bytes = encode_utf8(s@);
            assert(is_ascii_chars(s@));
            is_ascii_chars_encode_utf8(s@);
            assert(bytes.len() == 13);
            assert(bytes[6] == SPACE);
            assert(at <= 6);
            assert(forall|j: int| 0 <= j < 6 ==> bytes[j] != SPACE);
            assert(at == 6);
            assert(decimal_text(6) =~= seq!['6']);
        }
        let mut line = String::from_str("len:");
        line.append(decimal(at).as_str());
        assert(line@ =~= "len:6"@);
        lines.push(line);
        assert(lines_view(lines@) =~= demo_output());
        lines
    }
}

/// Finds where the first word of `s` ends, counted in bytes: at the first
/// space, or at the end of the text where it holds none.
pub fn first_word(s: &String) -> (at: usize)
    ensures
        is_first_word_end(encode_utf8(s@), at as int),
{
    let bytes = s.as_str().as_bytes();
    let mut i: usize = 0;
    while i < bytes.len()
        invariant
            i <= bytes@.len(),
            bytes@ == encode_utf8(s@),
            forall|j: int| 0 <= j < i ==> bytes@[j] != SPACE,
        decreases bytes@.len() - i,
    {
        if bytes[i] == SPACE {
            return i;
        }
        i += 1;
    }
    bytes.len()
}

} // verus!
