//! Small operations on text that the decisions of the tools share.

use vstd::prelude::*;
use vstd::string::*;

verus! {

/// The lower-case form of an ASCII capital letter; any other character is
/// its own lower-case form.
pub open spec fn ascii_lower(c: char) -> char {
    if 'A' <= c && c <= 'Z' {
        ((c as int) + 32) as char
    } else {
        c
    }
}

/// `text` with each of its characters in lower-case form.
pub open spec fn lowered(text: Seq<char>) -> Seq<char> {
    text.map_values(|c: char| ascii_lower(c))
}

/// Calls `str::make_ascii_lowercase` on `text`.
///
/// Trusted: as the standard library documents, the text is changed in
/// place, the letters `A` to `Z` are replaced by `a` to `z`, and every other
/// character, ASCII or not, is kept.
#[verifier::external_body]
pub(crate) fn make_lower(text: &mut String)
    ensures
        final(text)@ == lowered(old(text)@),
{
    text.make_ascii_lowercase()
}

/// Decides whether two texts hold the same characters.
pub fn same_text(first: &str, second: &str) -> (same: bool)
    ensures
        same == (first@ == second@),
{
    first.to_owned() == second.to_owned()
}

/// `parts` written one after the other with `separator` between each two.
pub open spec fn interleaved(parts: Seq<Seq<char>>, separator: Seq<char>) -> Seq<char>
    decreases parts.len(),
{
    if parts.len() == 0 {
        Seq::empty()
    } else if parts.len() == 1 {
        parts[0]
    } else {
        interleaved(parts.drop_last(), separator) + separator + parts.last()
    }
}

/// The characters of each text in `texts`.
pub open spec fn texts_of(texts: Seq<String>) -> Seq<Seq<char>> {
    texts.map_values(|text: String| text@)
}

/// Writes `parts` one after the other with `separator` between each two.
pub fn interleave(parts: &Vec<String>, separator: &str) -> (joined: String)
    ensures
        joined@ == interleaved(texts_of(parts@), separator@),
{
    let mut joined = String::new();
    let mut done: usize = 0;
    while done < parts.len()
        invariant
            done <= parts.len(),
            joined@ == interleaved(texts_of(parts@).take(done as int), separator@),
        decreases parts.len() - done,
    {
        let ghost before = texts_of(parts@).take(done as int);
        let ghost after = texts_of(parts@).take(done + 1);
        assert(after.drop_last() =~= before);
        if done > 0 {
            joined.append(separator);
        }
        joined.append(parts[done].as_str());
        done = done + 1;
    }
    assert(texts_of(parts@).take(done as int) =~= texts_of(parts@));
    joined
}

} // verus!
