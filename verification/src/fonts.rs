//! The choice of the dialog's font among those that are installed.

use vstd::prelude::*;
use vstd::string::*;

verus! {

/// The size at which either preferred family is set.
pub const FONT_SIZE: i32 = 14;

/// A font family and the size to set it at.
#[derive(Clone, Copy, Debug, PartialEq, Eq)]
pub struct FontChoice {
    pub family: &'static str,
    pub size: i32,
}

/// The family that is taken first.
pub open spec fn first_family() -> Seq<char> {
    "Noto Sans KR"@
}

/// The family that is taken if the first is not there.
pub open spec fn second_family() -> Seq<char> {
    "Malgun Gothic"@
}

/// A font of the family `name` is among `installed`.
pub open spec fn has_family(installed: Seq<String>, name: Seq<char>) -> bool {
    exists|i: int| 0 <= i < installed.len() && #[trigger] installed[i]@ == name
}

/// The family to use: the first preferred one that is installed, if any.
pub open spec fn chosen_family(installed: Seq<String>) -> Option<Seq<char>> {
    if has_family(installed, first_family()) {
        Some(first_family())
    } else if has_family(installed, second_family()) {
        Some(second_family())
    } else {
        None
    }
}

/// Whether a font of the family `name` is among `installed`.
pub fn is_installed(installed: &Vec<String>, name: &str) -> (found: bool)
    ensures
        found == has_family(installed@, name@),
{
    let wanted = String::from_str(name);
    let mut i: usize = 0;
    while i < installed.len()
        invariant
            i <= installed.len(),
            wanted@ == name@,
            forall|k: int| 0 <= k < i ==> installed@[k]@ != name@,
        decreases installed.len() - i,
    {
        if installed[i] == wanted {
            return true;
        }
        i = i + 1;
    }
    false
}

/// Chooses the dialog's font among the installed families. With neither
/// preferred family installed, the font is left as it is.
pub fn choose_font(installed: &Vec<String>) -> (choice: Option<FontChoice>)
    ensures
        match chosen_family(installed@) {
            Some(family) => choice is Some && choice->Some_0.family@ == family
                && choice->Some_0.size == FONT_SIZE,
            None => choice is None,
        },
{
    if is_installed(installed, "Noto Sans KR") {
        Some(FontChoice { family: "Noto Sans KR", size: FONT_SIZE })
    } else if is_installed(installed, "Malgun Gothic") {
        Some(FontChoice { family: "Malgun Gothic", size: FONT_SIZE })
    } else {
        None
    }
}

} // verus!
