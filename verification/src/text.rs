//! Names: how the grammar's names become the names of generated items.

use vstd::prelude::*;
use vstd::string::StringExecFns;
use vstd::string::StrSliceExecFns;
use vstd::utf8::{decode_utf8, encode_utf8, is_char_boundary};

verus! {

/// What `str::to_lowercase` makes of a string.
pub uninterp spec fn lowercase_of(text: Seq<char>) -> Seq<char>;

/// The lower-case form of `text`, as `str::to_lowercase` gives it: each
/// character replaced by its lower-case equivalent under Unicode's rules.
/// The contract gives that string a name and says nothing of what it holds.
#[verifier::external_body]
fn lowercase(text: &str) -> (lowered: String)
    ensures
        lowered@ == lowercase_of(text@),
{
    text.to_lowercase()
}

/// Whether the two strings hold the same characters.
pub fn same_text(a: &str, b: &str) -> (same: bool)
    ensures
        same == (a@ == b@),
{
    a.to_owned() == b.to_owned()
}

/// Whether `c` is one of the letters `a` to `z`.
pub open spec fn is_lower(c: char) -> bool {
    'a' <= c <= 'z'
}

/// Whether `c` is one of the letters `A` to `Z`.
pub open spec fn is_upper(c: char) -> bool {
    'A' <= c <= 'Z'
}

/// What the character at `at` contributes to the separated form of `text`:
/// the character itself, with a hyphen turned into an underscore, and before
/// it an underscore where it is an upper-case letter that follows a
/// lower-case one.
pub open spec fn separated_at(text: Seq<char>, at: int) -> Seq<char> {
    let c = if text[at] == '-' {
        '_'
    } else {
        text[at]
    };
    if at > 0 && is_lower(text[at - 1]) && is_upper(text[at]) {
        seq!['_', c]
    } else {
        seq![c]
    }
}

/// The separated form of the first `upto` characters of `text`.
pub open spec fn separated_upto(text: Seq<char>, upto: int) -> Seq<char>
    decreases upto,
{
    if upto <= 0 {
        Seq::empty()
    } else {
        separated_upto(text, upto - 1) + separated_at(text, upto - 1)
    }
}

/// The separated form of `text`: its words set apart by underscores.
pub open spec fn separated(text: Seq<char>) -> Seq<char> {
    separated_upto(text, text.len() as int)
}

/// The snake-case form of a name in camel case: an underscore goes between
/// a lower-case letter and an upper-case letter that follows it, hyphens
/// become underscores, and all is put in lower case.
pub fn snake_casify(symbol: &str) -> (snake: String)
    ensures
        snake@ == lowercase_of(separated(symbol@)),
{
    let len = symbol.unicode_len();
    let mut out = String::new();
    let mut lower_before = false;
    let mut i: usize = 0;
    while i < len
        invariant
            len == symbol@.len(),
            i <= len,
            out@ == separated_upto(symbol@, i as int),
            lower_before == (i > 0 && is_lower(symbol@[i - 1])),
        decreases len - i,
    {
        let c = symbol.get_char(i);
        if lower_before && 'A' <= c && c <= 'Z' {
            proof {
                reveal_strlit("_");
            }
            out.append("_");
        }
        if c == '-' {
            proof {
                reveal_strlit("_");
            }
            out.append("_");
        } else {
            out.append(symbol.substring_char(i, i + 1));
        }
        lower_before = 'a' <= c && c <= 'z';
        i = i + 1;
    }
    lowercase(out.as_str())
}

/// `text` without the characters `c` at its head.
pub open spec fn trimmed_start(text: Seq<char>, c: char) -> Seq<char>
    decreases text.len(),
{
    if text.len() > 0 && text[0] == c {
        trimmed_start(text.drop_first(), c)
    } else {
        text
    }
}

/// `text` without the characters `c` at its end.
pub open spec fn trimmed_end(text: Seq<char>, c: char) -> Seq<char>
    decreases text.len(),
{
    if text.len() > 0 && text.last() == c {
        trimmed_end(text.drop_last(), c)
    } else {
        text
    }
}

/// `text` without the characters `c` at its head and at its end.
pub open spec fn trimmed(text: Seq<char>, c: char) -> Seq<char> {
    trimmed_end(trimmed_start(text, c), c)
}

/// `text` without the characters `c` at its head and at its end.
pub fn trim<'a>(text: &'a str, c: char) -> (inner: &'a str)
    ensures
        inner@ == trimmed(text@, c),
{
    let len = text.unicode_len();
    let mut from: usize = 0;
    proof {
        assert(text@.subrange(0, len as int) == text@);
    }
    while from < len && text.get_char(from) == c
        invariant
            len == text@.len(),
            from <= len,
            trimmed_start(text@, c) == trimmed_start(text@.subrange(from as int, len as int), c),
        decreases len - from,
    {
        proof {
            assert(text@.subrange(from as int, len as int).drop_first() == text@.subrange(
                from + 1,
                len as int,
            ));
        }
        from = from + 1;
    }
    let mut to: usize = len;
    while to > from && text.get_char(to - 1) == c
        invariant
            len == text@.len(),
            from <= to <= len,
            trimmed_end(text@.subrange(from as int, len as int), c) == trimmed_end(
                text@.subrange(from as int, to as int),
                c,
            ),
        decreases to - from,
    {
        proof {
            assert(text@.subrange(from as int, to as int).drop_last() == text@.subrange(
                from as int,
                to - 1,
            ));
        }
        to = to - 1;
    }
    text.substring_char(from, to)
}

/// Whether `text` begins with `prefix`.
pub fn starts_with(text: &str, prefix: &str) -> (starts: bool)
    ensures
        starts == prefix@.is_prefix_of(text@),
{
    let len = prefix.unicode_len();
    if len > text.unicode_len() {
        return false;
    }
    same_text(text.substring_char(0, len), prefix)
}

/// Whether `text` can be cut after `n` bytes of its encoding: `n` bytes are
/// there, and no character lies across the cut.
pub open spec fn has_tail(text: Seq<char>, n: int) -> bool {
    is_char_boundary(encode_utf8(text), n)
}

/// What follows the first `n` bytes of the encoding of `text`.
pub open spec fn tail_of(text: Seq<char>, n: int) -> Seq<char> {
    decode_utf8(encode_utf8(text).subrange(n, encode_utf8(text).len() as int))
}

/// What follows the first `n` bytes of `text`, where it can be cut there.
pub fn tail<'a>(text: &'a str, n: usize) -> (tail: Option<&'a str>)
    ensures
        match tail {
            Some(tail) => has_tail(text@, n as int) && tail@ == tail_of(text@, n as int),
            None => !has_tail(text@, n as int),
        },
{
    if text.is_char_boundary(n) {
        let parts = text.split_at(n);
        let tail = parts.1;
        proof {
            vstd::utf8::encode_utf8_decode_utf8(tail@);
        }
        Some(tail)
    } else {
        None
    }
}

/// Whether `c` is a letter from `a` to `z` or from `A` to `Z`, a digit, or
/// an underscore.
pub open spec fn is_word_char(c: char) -> bool {
    is_lower(c) || is_upper(c) || '0' <= c <= '9' || c == '_'
}

/// What the character `c` contributes to the cleaned form of a text: an
/// underscore for a space, itself where it can stand in a name, and nothing
/// otherwise.
pub open spec fn cleaned_char(c: char) -> Seq<char> {
    if c == ' ' {
        seq!['_']
    } else if is_word_char(c) {
        seq![c]
    } else {
        Seq::empty()
    }
}

/// The cleaned form of the first `upto` characters of `text`.
pub open spec fn cleaned_upto(text: Seq<char>, upto: int) -> Seq<char>
    decreases upto,
{
    if upto <= 0 {
        Seq::empty()
    } else {
        cleaned_upto(text, upto - 1) + cleaned_char(text[upto - 1])
    }
}

/// The cleaned form of `text`: spaces turned into underscores, and what
/// cannot stand in a name left out.
pub open spec fn cleaned(text: Seq<char>) -> Seq<char> {
    cleaned_upto(text, text.len() as int)
}

/// The cleaned form of `text`: spaces turned into underscores, and what
/// cannot stand in a name left out.
pub fn clean(text: &str) -> (clean: String)
    ensures
        clean@ == cleaned(text@),
{
    let len = text.unicode_len();
    let mut out = String::new();
    let mut i: usize = 0;
    while i < len
        invariant
            len == text@.len(),
            i <= len,
            out@ == cleaned_upto(text@, i as int),
        decreases len - i,
    {
        let c = text.get_char(i);
        if c == ' ' {
            proof {
                reveal_strlit("_");
            }
            out.append("_");
        } else if 'a' <= c && c <= 'z' || 'A' <= c && c <= 'Z' || '0' <= c && c <= '9' || c == '_' {
            out.append(text.substring_char(i, i + 1));
        }
        i = i + 1;
    }
    out
}

} // verus!
