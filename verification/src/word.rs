//! Command words: how the first argument of an invocation is told from a
//! path.
//!
//! The first argument stands where a command is expected. A path to a
//! `.env` file, or to a directory, has a dot or a separator in it; a word
//! made of letters, digits, hyphens and underscores alone is read as the
//! name of a command. Where that name is none of the program's, the
//! invocation selects the unknown command. A directory with such a name is
//! still reached as `./name`, or after `--`.

use vstd::prelude::*;

verus! {

/// Whether a character may stand in a command word: an ASCII letter or
/// digit, a hyphen or an underscore.
pub open spec fn is_word_char(c: char) -> bool {
    ||| 'a' <= c <= 'z'
    ||| 'A' <= c <= 'Z'
    ||| '0' <= c <= '9'
    ||| c == '-'
    ||| c == '_'
}

/// Whether a text is a command word: not empty, made of word characters
/// alone, and not beginning with a hyphen, which begins a flag.
pub open spec fn is_command_word(word: Seq<char>) -> bool {
    &&& word.len() > 0
    &&& word[0] != '-'
    &&& forall|i: int| 0 <= i < word.len() ==> is_word_char(#[trigger] word[i])
}

/// Whether a word selects a command of the program: by its name or by its
/// alias.
pub open spec fn names_command(word: Seq<char>) -> bool {
    ||| word == "list"@
    ||| word == "l"@
    ||| word == "fix"@
    ||| word == "f"@
    ||| word == "compare"@
    ||| word == "c"@
}

/// The unknown command that an argument vector asks for: its first
/// argument after the name of the program, where that is a command word and
/// selects no command of the program.
pub open spec fn unknown_command(argv: Seq<Seq<char>>) -> Option<Seq<char>> {
    if argv.len() >= 2 && is_command_word(argv[1]) && !names_command(argv[1]) {
        Some(argv[1])
    } else {
        None
    }
}

/// Whether two texts are the same.
pub(crate) fn same_text(left: &str, right: &str) -> (same: bool)
    ensures
        same == (left@ == right@),
{
    let left = left.to_owned();
    let right = right.to_owned();
    left == right
}

/// Whether a character may stand in a command word.
fn word_char(c: char) -> (fits: bool)
    ensures
        fits == is_word_char(c),
{
    ('a' <= c && c <= 'z') || ('A' <= c && c <= 'Z') || ('0' <= c && c <= '9') || c == '-' || c
        == '_'
}

/// Whether a text is a command word.
pub fn command_word(word: &str) -> (fits: bool)
    ensures
        fits == is_command_word(word@),
{
    let length = word.unicode_len();
    if length == 0 {
        return false;
    }
    if word.get_char(0) == '-' {
        return false;
    }
    let mut i: usize = 0;
    while i < length
        invariant
            i <= length,
            length == word@.len(),
            forall|k: int| 0 <= k < i ==> is_word_char(#[trigger] word@[k]),
        decreases length - i,
    {
        if !word_char(word.get_char(i)) {
            return false;
        }
        i = i + 1;
    }
    true
}

/// Whether a word selects a command of the program.
pub fn selects_command(word: &str) -> (known: bool)
    ensures
        known == names_command(word@),
{
    same_text(word, "list") || same_text(word, "l") || same_text(word, "fix") || same_text(
        word,
        "f",
    ) || same_text(word, "compare") || same_text(word, "c")
}

/// The unknown command that the argument vector asks for, if it asks for
/// one.
pub fn unknown_command_word(argv: &Vec<String>) -> (word: Option<String>)
    ensures
        match unknown_command(argv.deep_view()) {
            Some(asked) => word matches Some(found) && found@ == asked,
            None => word is None,
        },
{
    if argv.len() < 2 {
        return None;
    }
    let first = &argv[1];
    assert(argv.deep_view()[1] == first@);
    if command_word(first.as_str()) && !selects_command(first.as_str()) {
        Some(first.clone())
    } else {
        None
    }
}

} // verus!
