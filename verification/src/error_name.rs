//! The name under which an error is reported: the first word of its message.

use vstd::prelude::*;
use vstd::std_specs::iter::IteratorSpec;
use vstd::string::{StrSliceExecFns, StringExecFns};
use vstd::utf8::*;

verus! {

/// The name of an error whose message holds no word at all.
pub const UNNAMED_ERROR: &'static str = "unknown";

/// Whether `c` is whitespace, as Unicode's White_Space has it.
pub open spec fn is_whitespace(c: char) -> bool {
    let code = c as u32;
    ||| 0x09 <= code <= 0x0D
    ||| code == 0x20
    ||| code == 0x85
    ||| code == 0xA0
    ||| code == 0x1680
    ||| 0x2000 <= code <= 0x200A
    ||| code == 0x2028
    ||| code == 0x2029
    ||| code == 0x202F
    ||| code == 0x205F
    ||| code == 0x3000
}

/// How many characters at the front of `text` are whitespace (`white`), or
/// are not.
pub open spec fn run_len(text: Seq<char>, white: bool) -> nat
    decreases text.len(),
{
    if text.len() > 0 && is_whitespace(text[0]) == white {
        1 + run_len(text.drop_first(), white)
    } else {
        0
    }
}

/// The first run of `text` that is free of whitespace, after any whitespace
/// in front of it. Empty if the text is empty or all whitespace.
pub open spec fn first_word(text: Seq<char>) -> Seq<char> {
    let rest = text.skip(run_len(text, true) as int);
    rest.take(run_len(rest, false) as int)
}

/// The name to report an error under: the first word of its message, or
/// "unknown" where the message has none.
pub open spec fn error_name(message: Seq<char>) -> Seq<char> {
    if first_word(message).len() == 0 {
        UNNAMED_ERROR@
    } else {
        first_word(message)
    }
}

/// A run ends where the text ends or the kind of character changes.
pub proof fn lemma_run_len(text: Seq<char>, white: bool, n: int)
    requires
        0 <= n <= text.len(),
        forall|i: int| 0 <= i < n ==> is_whitespace(#[trigger] text[i]) == white,
        n == text.len() || is_whitespace(text[n]) != white,
    ensures
        run_len(text, white) == n,
    decreases n,
{
    if n > 0 {
        let rest = text.drop_first();
        assert forall|i: int| 0 <= i < n - 1 implies is_whitespace(#[trigger] rest[i]) == white by {
            assert(rest[i] == text[i + 1]);
        }
        lemma_run_len(rest, white, n - 1);
    }
}

/// The word between `start` and `end` is the first word if only whitespace
/// comes before it and the text ends, or whitespace follows, behind it.
pub proof fn lemma_first_word(text: Seq<char>, start: int, end: int)
    requires
        0 <= start <= end <= text.len(),
        forall|i: int| 0 <= i < start ==> is_whitespace(#[trigger] text[i]),
        forall|i: int| start <= i < end ==> !is_whitespace(#[trigger] text[i]),
        start == text.len() || !is_whitespace(text[start]),
        end == text.len() || is_whitespace(text[end]),
    ensures
        first_word(text) == text.subrange(start, end),
{
    lemma_run_len(text, true, start);
    let rest = text.skip(start);
    assert forall|i: int| 0 <= i < end - start implies !is_whitespace(#[trigger] rest[i]) by {
        assert(rest[i] == text[start + i]);
    }
    lemma_run_len(rest, false, end - start);
    assert(rest.take(end - start) =~= text.subrange(start, end));
}

/// A text has no more characters than its UTF-8 form has bytes.
proof fn lemma_chars_fit(text: Seq<char>)
    ensures
        text.len() <= encode_utf8(text).len(),
    decreases text.len(),
{
    if text.len() > 0 {
        lemma_chars_fit(text.drop_first());
    }
}

/// Whether `c` is whitespace, as Unicode's White_Space has it.
pub fn is_whitespace_char(c: char) -> (white: bool)
    ensures
        white == is_whitespace(c),
{
    let code = c as u32;
    (0x09 <= code && code <= 0x0D) || code == 0x20 || code == 0x85 || code == 0xA0 || code
        == 0x1680 || (0x2000 <= code && code <= 0x200A) || code == 0x2028 || code == 0x2029
        || code == 0x202F || code == 0x205F || code == 0x3000
}

/// The name to report an error under, from its message.
pub fn error_name_of(message: &str) -> (name: String)
    ensures
        name@ == error_name(message@),
{
    let bound = message.as_bytes().len();
    proof {
        lemma_chars_fit(message@);
    }
    let mut chars = message.chars();
    let mut start: usize = 0;
    let mut end: usize = 0;
    let mut in_word = false;
    loop
        invariant_except_break
            chars.remaining() == message@.skip(end as int),
        invariant
            chars.obeys_prophetic_iter_laws(),
            message@.len() <= bound,
            start <= end <= message@.len(),
            forall|i: int| 0 <= i < start ==> is_whitespace(#[trigger] message@[i]),
            forall|i: int| start <= i < end ==> !is_whitespace(#[trigger] message@[i]),
            in_word <==> start < end,
        ensures
            start <= end <= message@.len(),
            forall|i: int| 0 <= i < start ==> is_whitespace(#[trigger] message@[i]),
            forall|i: int| start <= i < end ==> !is_whitespace(#[trigger] message@[i]),
            start == message@.len() || !is_whitespace(message@[start as int]),
            end == message@.len() || is_whitespace(message@[end as int]),
        decreases message@.len() - end,
    {
        match chars.next() {
            None => {
                break ;
            },
            Some(c) => {
                assert(c == message@[end as int]);
                assert(message@.skip(end as int).drop_first() =~= message@.skip(end + 1));
                if is_whitespace_char(c) {
                    if in_word {
                        break ;
                    }
                    end = end + 1;
                    start = end;
                } else {
                    in_word = true;
                    end = end + 1;
                }
            },
        }
    }
    proof {
        lemma_first_word(message@, start as int, end as int);
    }
    if start == end {
        String::from_str(UNNAMED_ERROR)
    } else {
        String::from_str(message.substring_char(start, end))
    }
}

} // verus!
