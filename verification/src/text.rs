use vstd::prelude::*;
use vstd::std_specs::iter::IteratorSpec;
use vstd::string::StrSliceExecFns;

verus! {

/// Whether `c` has the Unicode property `White_Space`.
pub open spec fn is_whitespace(c: char) -> bool {
    let code = c as u32;
    ||| 0x09 <= code <= 0x0D
    ||| code == 0x20
    ||| code == 0x85
    ||| code == 0xA0
    ||| code == 0x1680
    ||| 0x2000 <= code <= 0x200A
    ||| code == 0x2028
    ||| code == 0x2029
    ||| code == 0x202F
    ||| code == 0x205F
    ||| code == 0x3000
}

/// Whether every character of `text` is whitespace.
pub open spec fn all_whitespace(text: Seq<char>) -> bool {
    forall|i: int| 0 <= i < text.len() ==> is_whitespace(#[trigger] text[i])
}

/// The number of whitespace characters with which `text` begins.
pub open spec fn leading_whitespace(text: Seq<char>) -> nat
    decreases text.len(),
{
    if text.len() > 0 && is_whitespace(text[0]) {
        1 + leading_whitespace(text.drop_first())
    } else {
        0
    }
}

/// `text` without the whitespace with which it begins. What follows the first character
/// that is not whitespace is kept as it is.
pub open spec fn trim_leading(text: Seq<char>) -> Seq<char> {
    text.skip(leading_whitespace(text) as int)
}

/// The leading whitespace of `text` has `count` characters exactly when the first
/// `count` characters are whitespace and the next one, if there is one, is not.
pub proof fn lemma_leading_whitespace_is(text: Seq<char>, count: int)
    requires
        0 <= count <= text.len(),
        all_whitespace(text.take(count)),
        count < text.len() ==> !is_whitespace(text[count]),
    ensures
        leading_whitespace(text) == count,
    decreases count,
{
    if count > 0 {
        assert(text.take(count)[0] == text[0]);
        let rest = text.drop_first();
        assert forall|i: int| 0 <= i < count - 1 implies is_whitespace(
            #[trigger] rest.take(count - 1)[i],
        ) by {
            assert(rest.take(count - 1)[i] == text.take(count)[i + 1]);
        }
        lemma_leading_whitespace_is(rest, count - 1);
    }
}

/// The leading whitespace is whitespace, lies within the text, and ends before a
/// character that is not whitespace or at the end of the text.
pub proof fn lemma_leading_whitespace_bounds(text: Seq<char>)
    ensures
        leading_whitespace(text) <= text.len(),
        all_whitespace(text.take(leading_whitespace(text) as int)),
        leading_whitespace(text) < text.len() ==> !is_whitespace(
            text[leading_whitespace(text) as int],
        ),
    decreases text.len(),
{
    if text.len() > 0 && is_whitespace(text[0]) {
        let rest = text.drop_first();
        lemma_leading_whitespace_bounds(rest);
        let count = leading_whitespace(text) as int;
        assert forall|i: int| 0 <= i < count implies is_whitespace(
            #[trigger] text.take(count)[i],
        ) by {
            if i > 0 {
                assert(text.take(count)[i] == rest.take(count - 1)[i - 1]);
            }
        }
    }
}

/// Trimming removes whitespace put in front of a text: `prefix + text` and `text` trim
/// to the same characters.
pub proof fn lemma_trim_leading_drops_prefix(prefix: Seq<char>, text: Seq<char>)
    requires
        all_whitespace(prefix),
    ensures
        trim_leading(prefix + text) == trim_leading(text),
{
    let whole = prefix + text;
    let inner = leading_whitespace(text) as int;
    let count = prefix.len() + inner;
    lemma_leading_whitespace_bounds(text);
    assert forall|i: int| 0 <= i < count implies is_whitespace(#[trigger] whole.take(count)[i]) by {
        if i < prefix.len() {
            assert(whole.take(count)[i] == prefix[i]);
        } else {
            assert(whole.take(count)[i] == text.take(inner)[i - prefix.len()]);
        }
    }
    if count < whole.len() {
        assert(whole[count] == text[inner]);
    }
    lemma_leading_whitespace_is(whole, count);
    assert(whole.skip(count) =~= text.skip(inner));
}

/// A trimmed text begins with no whitespace, so that trimming it again changes nothing.
pub proof fn lemma_trim_leading_idempotent(text: Seq<char>)
    ensures
        leading_whitespace(trim_leading(text)) == 0,
        trim_leading(trim_leading(text)) == trim_leading(text),
{
    lemma_leading_whitespace_bounds(text);
    let trimmed = trim_leading(text);
    assert(trimmed.take(0) =~= Seq::<char>::empty());
    lemma_leading_whitespace_is(trimmed, 0);
    assert(trimmed.skip(0) =~= trimmed);
}

/// Whitespace at the end is never removed: where `text` holds a character that is not
/// whitespace, whatever follows `text` follows its trimmed form unchanged.
pub proof fn lemma_trim_leading_keeps_tail(text: Seq<char>, tail: Seq<char>)
    requires
        !all_whitespace(text),
    ensures
        trim_leading(text + tail) == trim_leading(text) + tail,
{
    let whole = text + tail;
    let count = leading_whitespace(text) as int;
    lemma_leading_whitespace_bounds(text);
    if count == text.len() {
        assert(text.take(count) =~= text);
    }
    assert(whole.take(count) =~= text.take(count));
    assert(whole[count] == text[count]);
    lemma_leading_whitespace_is(whole, count);
    assert(whole.skip(count) =~= text.skip(count) + tail);
}

/// Whether `c` has the Unicode property `White_Space`.
pub fn is_whitespace_char(c: char) -> (whitespace: bool)
    ensures
        whitespace == is_whitespace(c),
{
    let code: u32 = c as u32;
    (0x09 <= code && code <= 0x0D) || code == 0x20 || code == 0x85 || code == 0xA0 || code
        == 0x1680 || (0x2000 <= code && code <= 0x200A) || code == 0x2028 || code == 0x2029
        || code == 0x202F || code == 0x205F || code == 0x3000
}

/// The number of whitespace characters with which `text` begins, found in one pass
/// over them.
pub fn leading_whitespace_len(text: &str) -> (count: usize)
    ensures
        count == leading_whitespace(text@),
{
    broadcast use {vstd::string::axiom_spec_iter, vstd::string::next_postcondition};

    let length = text.unicode_len();
    let mut chars = text.chars();
    let mut count: usize = 0;
    while count < length
        invariant
            count <= length,
            length == text@.len(),
            chars.remaining() == text@.skip(count as int),
            all_whitespace(text@.take(count as int)),
        decreases length - count,
    {
        let next = chars.next();
        proof {
            assert(text@.skip(count as int)[0] == text@[count as int]);
            assert(text@.skip(count as int).drop_first() =~= text@.skip(count + 1));
        }
        match next {
            Some(c) if is_whitespace_char(c) => {
                proof {
                    assert forall|i: int| 0 <= i < count + 1 implies is_whitespace(
                        #[trigger] text@.take(count + 1)[i],
                    ) by {
                        if i < count {
                            assert(text@.take(count + 1)[i] == text@.take(count as int)[i]);
                        }
                    }
                }
                count = count + 1;
            },
            _ => {
                proof {
                    lemma_leading_whitespace_is(text@, count as int);
                }
                return count;
            },
        }
    }
    proof {
        lemma_leading_whitespace_is(text@, count as int);
    }
    count
}

/// `text` without the whitespace with which it begins; nothing else is removed.
pub fn trim_start(text: &str) -> (trimmed: &str)
    ensures
        trimmed@ == trim_leading(text@),
{
    let start = leading_whitespace_len(text);
    let length = text.unicode_len();
    proof {
        lemma_leading_whitespace_bounds(text@);
    }
    text.substring_char(start, length)
}

} // verus!
