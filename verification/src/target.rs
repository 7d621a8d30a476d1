//! The target directory: from the text the program was started with to the
//! path that is used on the file system and the text that is shown.

use vstd::prelude::*;
use vstd::string::*;

verus! {

/// The quote character that may surround the directory argument.
pub open spec fn quote() -> char {
    '"'
}

/// The text starts and ends with a quote character, and these are two
/// different characters of it.
pub open spec fn is_quoted(text: Seq<char>) -> bool {
    text.len() >= 2 && text.first() == quote() && text.last() == quote()
}

/// The text without the one pair of quotes around it, if there is such a
/// pair; otherwise the text as it is.
pub open spec fn unquoted(text: Seq<char>) -> Seq<char> {
    if is_quoted(text) {
        text.subrange(1, text.len() - 1)
    } else {
        text
    }
}

/// How a character of a path is shown: a backslash as a slash, every other
/// character as itself.
pub open spec fn shown_char(c: char) -> char {
    if c == '\\' {
        '/'
    } else {
        c
    }
}

/// How a path is shown: character by character, see [`shown_char`].
pub open spec fn shown(path: Seq<char>) -> Seq<char> {
    Seq::new(path.len(), |i: int| shown_char(path[i]))
}

/// The directory in which the new folder is to be made.
///
/// `native` is what goes to the file system, with its separators as they
/// came. `display` is what the dialog shows.
#[derive(Clone, Debug, PartialEq, Eq)]
pub struct Target {
    pub native: String,
    pub display: String,
}

impl Target {
    /// The shown text is the shown form of the native path.
    pub open spec fn wf(&self) -> bool {
        self.display@ == shown(self.native@)
    }
}

/// Why the program could not settle on a target directory.
#[derive(Clone, Copy, Debug, PartialEq, Eq, Structural)]
pub enum StartError {
    /// No directory was given and the home directory is not known.
    NoHomeDirectory,
}

/// Removes the pair of quotes around `raw`, if there is one.
pub fn strip_quotes(raw: &str) -> (text: String)
    ensures
        text@ == unquoted(raw@),
{
    let len = raw.unicode_len();
    if len >= 2 && raw.get_char(0) == '"' && raw.get_char(len - 1) == '"' {
        String::from_str(raw.substring_char(1, len - 1))
    } else {
        String::from_str(raw)
    }
}

/// The form of `path` that is shown to the user.
pub fn display_form(path: &str) -> (text: String)
    ensures
        text@ == shown(path@),
{
    let len = path.unicode_len();
    let mut text = String::new();
    let mut i: usize = 0;
    while i < len
        invariant
            len == path@.len(),
            i <= len,
            text@.len() == i,
            forall|k: int| 0 <= k < i ==> text@[k] == shown_char(path@[k]),
        decreases len - i,
    {
        if path.get_char(i) == '\\' {
            proof {
                reveal_strlit("/");
            }
            text.append("/");
        } else {
            text.append(path.substring_char(i, i + 1));
        }
        i = i + 1;
    }
    assert(text@ =~= shown(path@));
    text
}

/// Prepares the target from the text that names it: the quotes around it
/// are dropped; the separators are changed for the shown text only.
pub fn prepare_target(raw: &str) -> (target: Target)
    ensures
        target.wf(),
        target.native@ == unquoted(raw@),
        target.display@ == shown(unquoted(raw@)),
{
    let native = strip_quotes(raw);
    let display = display_form(native.as_str());
    Target { native, display }
}

/// Settles on the target directory: the argument if there is one, else the
/// home directory, else an error.
pub fn choose_target(argument: Option<String>, home: Option<String>) -> (result: Result<
    Target,
    StartError,
>)
    ensures
        match (argument, home) {
            (Some(given), _) => result is Ok && result->Ok_0.wf() && result->Ok_0.native@
                == unquoted(given@),
            (None, Some(dir)) => result is Ok && result->Ok_0.wf() && result->Ok_0.native@
                == unquoted(dir@),
            (None, None) => result == Err::<Target, StartError>(StartError::NoHomeDirectory),
        },
{
    match argument {
        Some(given) => Ok(prepare_target(given.as_str())),
        None => match home {
            Some(dir) => Ok(prepare_target(dir.as_str())),
            None => Err(StartError::NoHomeDirectory),
        },
    }
}

/// The shown form of a path holds no backslash and is as long as the path.
pub proof fn shown_has_no_backslash(path: Seq<char>)
    ensures
        shown(path).len() == path.len(),
        forall|i: int| 0 <= i < path.len() ==> shown(path)[i] != '\\',
{
}

/// Showing a shown path changes nothing more.
pub proof fn shown_is_idempotent(path: Seq<char>)
    ensures
        shown(shown(path)) == shown(path),
{
    assert(shown(shown(path)) =~= shown(path));
}

/// A path without backslashes is shown as it is.
pub proof fn shown_keeps_plain_paths(path: Seq<char>)
    requires
        forall|i: int| 0 <= i < path.len() ==> path[i] != '\\',
    ensures
        shown(path) == path,
{
    assert(shown(path) =~= path);
}

/// Only one pair of quotes is taken away: a quoted text loses exactly two
/// characters, and any other text none.
pub proof fn unquoted_drops_one_pair(text: Seq<char>)
    ensures
        is_quoted(text) ==> unquoted(text).len() == text.len() - 2,
        !is_quoted(text) ==> unquoted(text) == text,
        forall|i: int|
            0 <= i < unquoted(text).len() && is_quoted(text) ==> unquoted(text)[i] == text[i + 1],
{
}

} // verus!
