//! What the desktop shell around the launcher asks of the core: whether the
//! process was started at logon, whether a path names a shortcut, and under
//! which name the icon of a program is kept.

use vstd::prelude::*;
use crate::registrar::AUTO_FLAG;
use crate::text::{chars_of, ends_with_text, has_suffix, joined, push_char, same_text};
use crate::tokens::texts;

verus! {

/// The ending of the name of a shortcut file.
pub const SHORTCUT_SUFFIX: &'static str = ".lnk";

/// The ending of the name under which an icon is kept.
pub const ICON_SUFFIX: &'static str = ".png";

/// The lower-case form of a text: what `str::to_lowercase` of the standard
/// library returns for it.
pub uninterp spec fn lowercase_of(s: Seq<char>) -> Seq<char>;

/// The flag for a start at logon is among the arguments.
pub open spec fn has_auto_flag(arguments: Seq<Seq<char>>) -> bool {
    exists|i: int| 0 <= i < arguments.len() && arguments[i] == AUTO_FLAG@
}

/// The characters that cannot stand in a file name.
pub open spec fn is_reserved(c: char) -> bool {
    c == '\\' || c == '/' || c == ':' || c == '*' || c == '?' || c == '"' || c == '<' || c == '>'
        || c == '|'
}

/// A character as it stands in a file name: an underscore in place of one
/// that cannot stand there.
pub open spec fn file_name_char(c: char) -> char {
    if is_reserved(c) {
        '_'
    } else {
        c
    }
}

/// The name under which the icon of the program at `path` is kept: the path
/// with every character that cannot stand in a file name replaced, and the
/// icon ending after it.
pub open spec fn icon_file_name_text(path: Seq<char>) -> Seq<char> {
    path.map_values(|c: char| file_name_char(c)) + ICON_SUFFIX@
}

/// Returns the lower-case form of `s`.
///
/// Trusted: stands for `str::to_lowercase` of the standard library. What it
/// returns is a matter of the Unicode tables and is only given a name here.
#[verifier::external_body]
fn to_lowercase(s: &str) -> (lowered: String)
    ensures
        lowered@ == lowercase_of(s@),
{
    s.to_lowercase()
}

/// Tells whether the process was started at logon: whether one of its
/// command-line arguments is the flag for that, letter for letter.
pub fn is_auto_mode(arguments: &Vec<String>) -> (auto: bool)
    ensures
        auto == has_auto_flag(texts(arguments@)),
{
    let mut i: usize = 0;
    while i < arguments.len()
        invariant
            i <= arguments.len(),
            forall|k: int| 0 <= k < i ==> texts(arguments@)[k] != AUTO_FLAG@,
        decreases arguments.len() - i,
    {
        if same_text(arguments[i].as_str(), AUTO_FLAG) {
            assert(texts(arguments@)[i as int] == AUTO_FLAG@);
            return true;
        }
        i += 1;
    }
    false
}

/// Tells whether `path` names a shortcut file: whether its lower-case form
/// ends with the shortcut ending.
pub fn is_shortcut_path(path: &str) -> (shortcut: bool)
    ensures
        shortcut == has_suffix(lowercase_of(path@), SHORTCUT_SUFFIX@),
{
    let lowered = to_lowercase(path);
    ends_with_text(lowered.as_str(), SHORTCUT_SUFFIX)
}

/// Returns the name of the file in which the icon of the program at `path`
/// is kept.
pub fn icon_file_name(path: &str) -> (name: String)
    ensures
        name@ == icon_file_name_text(path@),
{
    let chars = chars_of(path);
    let mut stem = String::new();
    let mut i: usize = 0;
    while i < chars.len()
        invariant
            i <= chars.len(),
            stem@ == chars@.take(i as int).map_values(|c: char| file_name_char(c)),
        decreases chars.len() - i,
    {
        let c = chars[i];
        let reserved = c == '\\' || c == '/' || c == ':' || c == '*' || c == '?' || c == '"' || c
            == '<' || c == '>' || c == '|';
        if reserved {
            push_char(&mut stem, '_');
        } else {
            push_char(&mut stem, c);
        }
        i += 1;
        assert(chars@.take(i as int).map_values(|c: char| file_name_char(c)) == chars@.take(
            i - 1,
        ).map_values(|c: char| file_name_char(c)).push(file_name_char(c)));
    }
    assert(chars@.take(chars.len() as int) == chars@);
    joined(stem.as_str(), ICON_SUFFIX)
}

} // verus!
