//! The host platform, as far as the paste shortcut depends on it.

use vstd::prelude::*;
use vstd::string::StrSliceExecFns;
use crate::keys::Key;

verus! {

/// The two platform families that differ in their paste shortcut.
#[derive(Clone, Copy, Debug, PartialEq, Eq, Hash, Structural)]
pub enum Platform {
    /// macOS, where shortcuts are formed with the Command key.
    MacOs,
    /// Every other system, where shortcuts are formed with Control.
    Other,
}

/// The modifier that turns `v` into "paste" on `platform`.
pub open spec fn modifier_for(platform: Platform) -> Key {
    match platform {
        Platform::MacOs => Key::Meta,
        Platform::Other => Key::Control,
    }
}

/// Whether two string slices hold the same characters.
fn same_text(a: &str, b: &str) -> (same: bool)
    ensures
        same == (a@ == b@),
{
    let n: usize = a.unicode_len();
    if b.unicode_len() != n {
        return false;
    }
    let mut i: usize = 0;
    while i < n
        invariant
            i <= n,
            n == a@.len(),
            n == b@.len(),
            forall|j: int| 0 <= j < i ==> a@[j] == b@[j],
        decreases n - i,
    {
        if a.get_char(i) != b.get_char(i) {
            return false;
        }
        i = i + 1;
    }
    assert(a@ =~= b@);
    true
}

impl Platform {
    /// The platform family that a target operating system name stands for.
    /// Only the exact name `macos` selects [`Platform::MacOs`].
    pub open spec fn of_target_os(name: Seq<char>) -> Platform {
        if name == "macos"@ {
            Platform::MacOs
        } else {
            Platform::Other
        }
    }

    /// Classifies a target operating system name as Rust spells it
    /// (`linux`, `macos`, `windows`, ...). The comparison is exact: case
    /// matters and nothing is trimmed.
    pub fn from_target_os(name: &str) -> (platform: Platform)
        ensures
            platform == Platform::of_target_os(name@),
    {
        if same_text(name, "macos") {
            Platform::MacOs
        } else {
            Platform::Other
        }
    }
}

/// The modifier key of the paste shortcut: Command (Meta) on macOS, Control
/// everywhere else.
pub fn paste_modifier(platform: Platform) -> (key: Key)
    ensures
        key == modifier_for(platform),
{
    match platform {
        Platform::MacOs => Key::Meta,
        Platform::Other => Key::Control,
    }
}

} // verus!
