use vstd::prelude::*;
use crate::strings::{push_char, push_text};

verus! {

/// A character that may stand in a file name as it is.
pub open spec fn is_safe_char(c: char) -> bool {
    ('A' <= c && c <= 'Z') || ('a' <= c && c <= 'z') || ('0' <= c && c <= '9') || c == '-'
        || c == '_' || c == '.'
}

/// What a character becomes in a file name.
pub open spec fn safe_char(c: char) -> char {
    if is_safe_char(c) {
        c
    } else {
        '_'
    }
}

/// The file-name-safe form of a text: each character mapped on its own.
pub open spec fn safe_name(s: Seq<char>) -> Seq<char> {
    s.map_values(|c: char| safe_char(c))
}

fn char_is_safe(c: char) -> (r: bool)
    ensures
        r == is_safe_char(c),
{
    ('A' <= c && c <= 'Z') || ('a' <= c && c <= 'z') || ('0' <= c && c <= '9') || c == '-'
        || c == '_' || c == '.'
}

/// Replaces every character that is not an ASCII letter, digit, `-`, `_`
/// or `.` by `_`, one for one.
pub fn make_filename_safe(input: &str) -> (r: String)
    ensures
        r@ == safe_name(input@),
        r@.len() == input@.len(),
{
    let n = input.unicode_len();
    let mut result = String::new();
    let mut i: usize = 0;
    while i < n
        invariant
            n == input@.len(),
            i <= n,
            result@ == safe_name(input@.subrange(0, i as int)),
        decreases n - i,
    {
        let c = input.get_char(i);
        if char_is_safe(c) {
            push_char(&mut result, c);
        } else {
            push_char(&mut result, '_');
        }
        proof {
            assert(input@.subrange(0, i + 1) == input@.subrange(0, i as int).push(c));
        }
        i = i + 1;
    }
    proof {
        assert(input@.subrange(0, n as int) == input@);
    }
    result
}

/// A text that the mapping leaves as it is.
pub open spec fn is_safe_name(s: Seq<char>) -> bool {
    forall|i: int| 0 <= i < s.len() ==> is_safe_char(#[trigger] s[i])
}

/// Making a name safe twice gives what making it safe once gave, and a
/// name that is already safe comes back unchanged.
pub proof fn lemma_safe_name_idempotent(s: Seq<char>)
    ensures
        is_safe_name(safe_name(s)),
        safe_name(safe_name(s)) == safe_name(s),
        is_safe_name(s) ==> safe_name(s) == s,
{
    assert(safe_name(safe_name(s)) =~= safe_name(s));
    if is_safe_name(s) {
        assert(safe_name(s) =~= s);
    }
}

} // verus!

verus! {

/// What separates the artist from the title in a file name.
pub const NAME_SEPARATOR: &'static str = " - ";

/// The extension of a saved wallpaper.
pub const NAME_EXTENSION: &'static str = ".png";

/// The file name a wallpaper is saved under: `artist - title.png`, made safe.
pub fn wallpaper_file_name(artist: &str, title: &str) -> (r: String)
    ensures
        r@ == safe_name(artist@ + NAME_SEPARATOR@ + title@ + NAME_EXTENSION@),
{
    let mut name = artist.to_owned();
    push_text(&mut name, NAME_SEPARATOR);
    push_text(&mut name, title);
    push_text(&mut name, NAME_EXTENSION);
    make_filename_safe(name.as_str())
}

} // verus!
