//! Text: the searches and the byte lengths that names, paths and labels need.
use vstd::prelude::*;
use vstd::string::*;
use vstd::utf8::*;

verus! {

/// The number of bytes that the UTF-8 encoding of `text` takes.
pub open spec fn byte_len(text: Seq<char>) -> nat {
    encode_utf8(text).len()
}

/// A result whose error is a text, with the text for the string that holds it.
pub open spec fn error_view<T>(result: Result<T, String>) -> Result<T, Seq<char>> {
    match result {
        Ok(value) => Ok(value),
        Err(error) => Err(error@),
    }
}

/// A text or an error, with the texts for the strings that hold them.
pub open spec fn result_view(result: Result<String, String>) -> Result<Seq<char>, Seq<char>> {
    match result {
        Ok(text) => Ok(text@),
        Err(error) => Err(error@),
    }
}

/// `part` occurs in `text` at character `at`.
pub open spec fn occurs_at(text: Seq<char>, part: Seq<char>, at: int) -> bool {
    &&& 0 <= at <= text.len() - part.len()
    &&& text.subrange(at, at + part.len()) == part
}

/// The encoding of two texts one after the other is the one encoding followed by the other.
pub proof fn lemma_encode_concat(a: Seq<char>, b: Seq<char>)
    ensures
        encode_utf8(a + b) == encode_utf8(a) + encode_utf8(b),
        byte_len(a + b) == byte_len(a) + byte_len(b),
    decreases a.len(),
{
    if a.len() == 0 {
        assert(a + b =~= b);
    } else {
        assert((a + b).drop_first() =~= a.drop_first() + b);
        lemma_encode_concat(a.drop_first(), b);
    }
}

/// The characters of `text`.
fn chars_of(text: &str) -> (chars: Vec<char>)
    ensures
        chars@ == text@,
{
    let mut chars: Vec<char> = Vec::new();
    for c in iter: text.chars()
        invariant
            chars@ == iter.seq().take(iter.index()),
            iter.seq() == text@,
    {
        chars.push(c);
    }
    chars
}

/// Tells whether two texts are the same.
pub fn same_text(a: &str, b: &str) -> (same: bool)
    ensures
        same == (a@ == b@),
{
    a.to_owned() == b.to_owned()
}

/// Tells whether `part` occurs in `text` at character `at`.
fn matches_at(text: &Vec<char>, part: &Vec<char>, at: usize) -> (found: bool)
    requires
        at + part@.len() <= text@.len(),
    ensures
        found == occurs_at(text@, part@, at as int),
{
    let len: usize = text.len();
    let mut i: usize = 0;
    while i < part.len()
        invariant
            i <= part@.len(),
            at + part@.len() <= len == text@.len(),
            forall|j: int| 0 <= j < i ==> text@[at + j] == part@[j],
        decreases part@.len() - i,
    {
        if text[at + i] != part[i] {
            assert(text@.subrange(at as int, at + part@.len())[i as int] != part@[i as int]);
            return false;
        }
        i += 1;
    }
    assert(text@.subrange(at as int, at + part@.len()) =~= part@);
    true
}

/// Tells whether `text` begins with `prefix`.
pub fn starts_with(text: &str, prefix: &str) -> (found: bool)
    ensures
        found == occurs_at(text@, prefix@, 0),
{
    let chars = chars_of(text);
    let wanted = chars_of(prefix);
    wanted.len() <= chars.len() && matches_at(&chars, &wanted, 0)
}

/// Tells whether `part` occurs somewhere in `text`.
pub fn contains(text: &str, part: &str) -> (found: bool)
    ensures
        found == exists|at: int| occurs_at(text@, part@, at),
{
    let chars = chars_of(text);
    let wanted = chars_of(part);
    if wanted.len() > chars.len() {
        return false;
    }
    let last: usize = chars.len() - wanted.len();
    let mut at: usize = 0;
    loop
        invariant
            at <= last,
            chars@ == text@,
            wanted@ == part@,
            last == text@.len() - part@.len(),
            forall|i: int| 0 <= i < at ==> !occurs_at(text@, part@, i),
        decreases last - at,
    {
        if matches_at(&chars, &wanted, at) {
            return true;
        }
        if at == last {
            return false;
        }
        at += 1;
    }
}

/// What follows `prefix` in `text`, if `text` begins with it.
pub fn strip_prefix<'a>(text: &'a str, prefix: &str) -> (rest: Option<&'a str>)
    ensures
        match rest {
            Some(rest) => occurs_at(text@, prefix@, 0) && rest@ == text@.skip(
                prefix@.len() as int,
            ),
            None => !occurs_at(text@, prefix@, 0),
        },
{
    if starts_with(text, prefix) {
        Some(text.substring_char(prefix.unicode_len(), text.unicode_len()))
    } else {
        None
    }
}

/// A text occurs in another at some character exactly if the other is made of that many
/// characters, the text, and whatever follows.
pub proof fn law_occurs_at(text: Seq<char>, part: Seq<char>, at: int)
    ensures
        occurs_at(text, part, at) <==> exists|before: Seq<char>, after: Seq<char>|
            before.len() == at && text == #[trigger] before.add(part).add(after),
{
    if occurs_at(text, part, at) {
        let before = text.take(at);
        let after = text.skip(at + part.len());
        assert(text =~= before.add(part).add(after));
    }
    if exists|before: Seq<char>, after: Seq<char>|
        before.len() == at && text == #[trigger] before.add(part).add(after) {
        let (before, after) = choose|before: Seq<char>, after: Seq<char>|
            before.len() == at && text == #[trigger] before.add(part).add(after);
        assert(text.subrange(at, at + part.len()) =~= part);
    }
}

/// A text occurs at the beginning of another exactly if it is a prefix of it.
pub proof fn law_occurs_first(text: Seq<char>, prefix: Seq<char>)
    ensures
        occurs_at(text, prefix, 0) <==> prefix.is_prefix_of(text),
{
}

} // verus!
