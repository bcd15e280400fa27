use vstd::prelude::*;

verus! {

/// The glyph that stands for each character of a sensitive field.
pub const MASK: char = '*';

/// `cursor` brought back into a text of `len` characters.
pub open spec fn clamp(cursor: int, len: int) -> int {
    if cursor < 0 {
        0
    } else if cursor > len {
        len
    } else {
        cursor
    }
}

/// As many mask glyphs as `text` has characters.
pub open spec fn masked(text: Seq<char>) -> Seq<char> {
    Seq::new(text.len(), |i: int| MASK)
}

/// Appends one character to `s`.
///
/// Trusted: this is `String::push` of the standard library, which puts the
/// character at the end of the string and leaves the rest as it was.
#[verifier::external_body]
fn push_char(s: &mut String, c: char)
    ensures
        final(s)@ == old(s)@.push(c),
{
    s.push(c);
}

/// The number of characters of `text`.
pub fn char_count(text: &str) -> (n: usize)
    ensures
        n == text@.len(),
{
    text.unicode_len()
}

/// `text` with `c` put in before the character at `at`, or at the end where
/// `at` lies beyond it.
pub fn insert_char(text: &str, at: usize, c: char) -> (out: String)
    ensures
        out@ == text@.insert(clamp(at as int, text@.len() as int), c),
{
    let len: usize = text.unicode_len();
    let at: usize = if at > len {
        len
    } else {
        at
    };
    let mut out = String::from_str(text.substring_char(0, at));
    push_char(&mut out, c);
    out.append(text.substring_char(at, len));
    out
}

/// `text` with a mask glyph in place of each character.
pub fn mask(text: &str) -> (out: String)
    ensures
        out@ == masked(text@),
{
    let len: usize = text.unicode_len();
    let mut out = String::new();
    let mut i: usize = 0;
    while i < len
        invariant
            i <= len,
            len == text@.len(),
            out@ == Seq::new(i as nat, |k: int| MASK),
        decreases len - i,
    {
        push_char(&mut out, MASK);
        i += 1;
        assert(out@ =~= Seq::new(i as nat, |k: int| MASK));
    }
    out
}

/// `prefix` followed by `detail`.
pub fn message(prefix: &str, detail: &str) -> (out: String)
    ensures
        out@ == prefix@ + detail@,
{
    let mut out = String::from_str(prefix);
    out.append(detail);
    out
}

/// A masked text has the length of the text and holds nothing but the glyph.
pub proof fn lemma_masked(text: Seq<char>)
    ensures
        masked(text).len() == text.len(),
        forall|i: int| 0 <= i < text.len() ==> masked(text)[i] == MASK,
{
}

} // verus!
