//! Which way a text is to be translated, decided by the script it is written in.

use vstd::prelude::*;
use crate::text::chars_within_bytes;

verus! {

/// The language a text is translated into.
#[derive(Clone, Copy, Debug, PartialEq, Eq, Structural)]
pub enum Language {
    Chinese,
    English,
}

/// Whether `c` is one of the 128 ASCII characters.
pub open spec fn is_latin(c: char) -> bool {
    c as u32 <= 0x7F
}

/// Whether `c` lies in one of the blocks of CJK ideographs: the unified
/// ideographs, their extensions A to E, and the two compatibility blocks.
pub open spec fn is_cjk(c: char) -> bool {
    let p = c as u32;
    ||| 0x4E00 <= p <= 0x9FFF
    ||| 0x3400 <= p <= 0x4DBF
    ||| 0x20000 <= p <= 0x2A6DF
    ||| 0x2A700 <= p <= 0x2B73F
    ||| 0x2B740 <= p <= 0x2B81F
    ||| 0x2B820 <= p <= 0x2CEAF
    ||| 0xF900 <= p <= 0xFAFF
    ||| 0x2F800 <= p <= 0x2FA1F
}

/// How many characters of `s` are ASCII.
pub open spec fn latin_count(s: Seq<char>) -> nat
    decreases s.len(),
{
    if s.len() == 0 {
        0
    } else {
        latin_count(s.drop_last()) + if is_latin(s.last()) { 1nat } else { 0nat }
    }
}

/// How many characters of `s` are CJK ideographs.
pub open spec fn cjk_count(s: Seq<char>) -> nat
    decreases s.len(),
{
    if s.len() == 0 {
        0
    } else {
        cjk_count(s.drop_last()) + if is_cjk(s.last()) { 1nat } else { 0nat }
    }
}

/// The target of a text: English where the ideographs outnumber the ASCII
/// characters, Chinese otherwise, so also on a tie.
pub open spec fn target_of(s: Seq<char>) -> Language {
    if cjk_count(s) > latin_count(s) {
        Language::English
    } else {
        Language::Chinese
    }
}

/// Whether `ch` is a CJK ideograph.
pub fn is_chinese(ch: char) -> (r: bool)
    ensures
        r == is_cjk(ch),
{
    let p: u32 = ch as u32;
    (0x4E00 <= p && p <= 0x9FFF) || (0x3400 <= p && p <= 0x4DBF) || (0x20000 <= p && p <= 0x2A6DF)
        || (0x2A700 <= p && p <= 0x2B73F) || (0x2B740 <= p && p <= 0x2B81F) || (0x2B820 <= p && p
        <= 0x2CEAF) || (0xF900 <= p && p <= 0xFAFF) || (0x2F800 <= p && p <= 0x2FA1F)
}

proof fn counts_bounded(s: Seq<char>)
    ensures
        cjk_count(s) + latin_count(s) <= s.len(),
    decreases s.len(),
{
    if s.len() > 0 {
        counts_bounded(s.drop_last());
    }
}

/// Counts the ideographs and the ASCII characters of `text`, in that order.
/// Characters that are neither are passed over.
pub fn count_languages(text: &str) -> (r: (usize, usize))
    ensures
        r.0 == cjk_count(text@),
        r.1 == latin_count(text@),
{
    let mut chinese_count: usize = 0;
    let mut english_count: usize = 0;
    let byte_len: usize = text.as_bytes().len();
    proof {
        chars_within_bytes(text@);
    }
    for ch in it: text.chars()
        invariant
            it.seq() == text@,
            text@.len() <= byte_len,
            chinese_count == cjk_count(text@.take(it.index())),
            english_count == latin_count(text@.take(it.index())),
    {
        proof {
            let next = text@.take(it.index() + 1);
            assert(next.drop_last() =~= text@.take(it.index()));
            assert(next.last() == ch);
            counts_bounded(next);
        }
        if (ch as u32) <= 0x7F {
            english_count += 1;
        } else if is_chinese(ch) {
            chinese_count += 1;
        }
    }
    proof {
        assert(text@.take(text@.len() as int) =~= text@);
    }
    (chinese_count, english_count)
}

impl Language {
    /// The code by which the service knows the language.
    pub open spec fn code_text(self) -> Seq<char> {
        match self {
            Language::Chinese => "zh"@,
            Language::English => "en"@,
        }
    }

    /// The code by which the service knows the language: `zh` or `en`.
    pub fn code(self) -> (r: &'static str)
        ensures
            r@ == self.code_text(),
    {
        match self {
            Language::Chinese => "zh",
            Language::English => "en",
        }
    }
}

/// Picks the language to translate `text` into: English where ideographs
/// outnumber ASCII characters, Chinese otherwise.
pub fn target_language(text: &str) -> (target: Language)
    ensures
        target == target_of(text@),
{
    let (chinese_count, english_count) = count_languages(text);
    if chinese_count > english_count {
        Language::English
    } else {
        Language::Chinese
    }
}

/// Whether `c` is an ASCII letter.
pub open spec fn is_ascii_letter(c: char) -> bool {
    ('a' <= c <= 'z') || ('A' <= c <= 'Z')
}

proof fn ascii_has_no_ideographs(s: Seq<char>)
    requires
        forall|i: int| 0 <= i < s.len() ==> is_latin(#[trigger] s[i]),
    ensures
        cjk_count(s) == 0,
    decreases s.len(),
{
    if s.len() > 0 {
        assert(is_latin(s.last()));
        ascii_has_no_ideographs(s.drop_last());
    }
}

proof fn ideographs_count_in_full(s: Seq<char>)
    requires
        forall|i: int| 0 <= i < s.len() ==> is_cjk(#[trigger] s[i]),
    ensures
        cjk_count(s) == s.len(),
        latin_count(s) == 0,
    decreases s.len(),
{
    if s.len() > 0 {
        assert(is_cjk(s.last()));
        ideographs_count_in_full(s.drop_last());
    }
}

/// A text of ASCII letters alone is translated into Chinese.
pub proof fn letters_go_to_chinese(s: Seq<char>)
    requires
        forall|i: int| 0 <= i < s.len() ==> is_ascii_letter(#[trigger] s[i]),
    ensures
        target_of(s) == Language::Chinese,
{
    assert forall|i: int| 0 <= i < s.len() implies is_latin(#[trigger] s[i]) by {
        assert(is_ascii_letter(s[i]));
    }
    ascii_has_no_ideographs(s);
}

/// A text of ASCII characters alone is translated into Chinese.
pub proof fn ascii_goes_to_chinese(s: Seq<char>)
    requires
        forall|i: int| 0 <= i < s.len() ==> is_latin(#[trigger] s[i]),
    ensures
        target_of(s) == Language::Chinese,
{
    ascii_has_no_ideographs(s);
}

/// A text of ideographs alone, with at least one of them, is translated
/// into English.
pub proof fn ideographs_go_to_english(s: Seq<char>)
    requires
        s.len() > 0,
        forall|i: int| 0 <= i < s.len() ==> is_cjk(#[trigger] s[i]),
    ensures
        target_of(s) == Language::English,
{
    ideographs_count_in_full(s);
}

/// A text with as many ideographs as ASCII characters is translated into
/// Chinese.
pub proof fn tie_goes_to_chinese(s: Seq<char>)
    requires
        cjk_count(s) == latin_count(s),
    ensures
        target_of(s) == Language::Chinese,
{
}

} // verus!
