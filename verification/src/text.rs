//! Text as the editor leaves it: decoding the buffer's bytes and stripping the
//! whitespace around what was written.
use vstd::prelude::*;
use vstd::std_specs::iter::IteratorSpec;
use vstd::string::*;
use vstd::utf8::*;

verus! {

/// The characters with the Unicode property `White_Space`.
pub open spec fn is_whitespace(c: char) -> bool {
    ||| '\u{9}' <= c <= '\u{d}'
    ||| c == ' '
    ||| c == '\u{85}'
    ||| c == '\u{a0}'
    ||| c == '\u{1680}'
    ||| '\u{2000}' <= c <= '\u{200a}'
    ||| c == '\u{2028}'
    ||| c == '\u{2029}'
    ||| c == '\u{202f}'
    ||| c == '\u{205f}'
    ||| c == '\u{3000}'
}

/// `text` without the whitespace it begins with.
pub open spec fn trimmed_start(text: Seq<char>) -> Seq<char>
    decreases text.len(),
{
    if text.len() > 0 && is_whitespace(text[0]) {
        trimmed_start(text.drop_first())
    } else {
        text
    }
}

/// `text` without the whitespace it ends with.
pub open spec fn trimmed_end(text: Seq<char>) -> Seq<char>
    decreases text.len(),
{
    if text.len() > 0 && is_whitespace(text.last()) {
        trimmed_end(text.drop_last())
    } else {
        text
    }
}

/// `text` without the whitespace around it. Whitespace inside stays.
pub open spec fn trimmed(text: Seq<char>) -> Seq<char> {
    trimmed_end(trimmed_start(text))
}

/// The text that `bytes` encode, where they are valid UTF-8.
pub open spec fn decoded(bytes: Seq<u8>) -> Option<Seq<char>> {
    if valid_utf8(bytes) {
        Some(decode_utf8(bytes))
    } else {
        None
    }
}

/// Skipping `start` whitespace characters, and no more than there are, is
/// what `trimmed_start` does.
pub proof fn lemma_trimmed_start_skips(text: Seq<char>, start: int)
    requires
        0 <= start <= text.len(),
        forall|k: int| 0 <= k < start ==> is_whitespace(#[trigger] text[k]),
        start < text.len() ==> !is_whitespace(text[start]),
    ensures
        trimmed_start(text) == text.subrange(start, text.len() as int),
    decreases start,
{
    if start > 0 {
        let rest = text.drop_first();
        lemma_trimmed_start_skips(rest, start - 1);
        assert(rest.subrange(start - 1, rest.len() as int) =~= text.subrange(
            start,
            text.len() as int,
        ));
    }
}

/// Dropping everything from `end` on, where that is whitespace and the
/// character before it is not, is what `trimmed_end` does.
pub proof fn lemma_trimmed_end_stops(text: Seq<char>, end: int)
    requires
        0 <= end <= text.len(),
        forall|k: int| end <= k < text.len() ==> is_whitespace(#[trigger] text[k]),
        0 < end ==> !is_whitespace(text[end - 1]),
    ensures
        trimmed_end(text) == text.subrange(0, end),
    decreases text.len() - end,
{
    if end < text.len() {
        lemma_trimmed_end_stops(text.drop_last(), end);
    }
}

/// Trimmed text is a slice of the text that neither begins nor ends with
/// whitespace, and everything cut off on either side is whitespace.
pub proof fn lemma_trimmed_is_the_core(text: Seq<char>) -> (bounds: (int, int))
    ensures
        0 <= bounds.0 <= bounds.1 <= text.len(),
        trimmed(text) == text.subrange(bounds.0, bounds.1),
        forall|k: int| 0 <= k < bounds.0 ==> is_whitespace(#[trigger] text[k]),
        forall|k: int| bounds.1 <= k < text.len() ==> is_whitespace(#[trigger] text[k]),
        bounds.0 < bounds.1 ==> !is_whitespace(text[bounds.0]) && !is_whitespace(
            text[bounds.1 - 1],
        ),
    decreases text.len(),
{
    if text.len() > 0 && is_whitespace(text[0]) {
        let rest = text.drop_first();
        let inner = lemma_trimmed_is_the_core(rest);
        assert forall|k: int| 0 <= k < inner.0 + 1 implies is_whitespace(#[trigger] text[k]) by {
            if k > 0 {
                assert(text[k] == rest[k - 1]);
            }
        }
        assert forall|k: int| inner.1 + 1 <= k < text.len() implies is_whitespace(
            #[trigger] text[k],
        ) by {
            assert(text[k] == rest[k - 1]);
        }
        (inner.0 + 1, inner.1 + 1)
    } else if text.len() > 0 && is_whitespace(text.last()) {
        let rest = text.drop_last();
        let inner = lemma_trimmed_is_the_core(rest);
        assert forall|k: int| inner.1 <= k < text.len() implies is_whitespace(
            #[trigger] text[k],
        ) by {
            if k < rest.len() {
                assert(text[k] == rest[k]);
            }
        }
        inner
    } else {
        (0, text.len() as int)
    }
}

/// Trimming twice is trimming once.
pub proof fn lemma_trimmed_is_idempotent(text: Seq<char>)
    ensures
        trimmed(trimmed(text)) == trimmed(text),
{
    lemma_trimmed_is_the_core(text);
}

/// Whether `c` is whitespace.
pub fn whitespace(c: char) -> (yes: bool)
    ensures
        yes == is_whitespace(c),
{
    ('\u{9}' <= c && c <= '\u{d}') || c == ' ' || c == '\u{85}' || c == '\u{a0}' || c
        == '\u{1680}' || ('\u{2000}' <= c && c <= '\u{200a}') || c == '\u{2028}' || c
        == '\u{2029}' || c == '\u{202f}' || c == '\u{205f}' || c == '\u{3000}'
}

/// Strips the whitespace around `text`.
pub fn trim(text: &str) -> (core: String)
    ensures
        core@ == trimmed(text@),
{
    let len = text.unicode_len();
    let mut chars = text.chars();
    let mut at: usize = 0;
    let mut start: usize = 0;
    let mut end: usize = 0;
    let mut more = true;
    while more
        invariant
            len == text@.len(),
            at <= len,
            chars.remaining() == text@.subrange(at as int, len as int),
            more || at == len,
            start <= end <= at,
            forall|k: int| 0 <= k < start ==> is_whitespace(#[trigger] text@[k]),
            forall|k: int| end <= k < at ==> is_whitespace(#[trigger] text@[k]),
            start < end ==> !is_whitespace(text@[start as int]) && !is_whitespace(text@[end - 1]),
            start == end ==> end == at,
        decreases len - at + if more { 1nat } else { 0nat },
    {
        match chars.next() {
            Some(c) => {
                assert(text@.subrange(at as int, len as int).drop_first() =~= text@.subrange(
                    at + 1,
                    len as int,
                ));
                if !whitespace(c) {
                    if start == end {
                        start = at;
                    }
                    end = at + 1;
                } else if start == end {
                    start = at + 1;
                    end = at + 1;
                }
                at = at + 1;
            },
            None => {
                more = false;
            },
        }
    }
    proof {
        let tail = text@.subrange(start as int, len as int);
        lemma_trimmed_start_skips(text@, start as int);
        lemma_trimmed_end_stops(tail, end - start);
    }
    String::from_str(text.substring_char(start, end))
}

/// Decodes `bytes` with std's `String::from_utf8`, which alone decides
/// whether they are UTF-8. The contract states its result over vstd's
/// definition of the encoding: text comes back for valid UTF-8 and for
/// nothing else, and it is the character sequence that the bytes encode.
#[verifier::external_body]
pub(crate) fn from_utf8(bytes: Vec<u8>) -> (text: Option<String>)
    ensures
        text is Some <==> valid_utf8(bytes@),
        text matches Some(s) ==> s@ == decode_utf8(bytes@),
{
    String::from_utf8(bytes).ok()
}

} // verus!
