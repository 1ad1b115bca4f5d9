use vstd::prelude::*;

use crate::text::{lower_of, lowercase, same_text};

verus! {

/// A modifier key held while another key is posted. An event carries at most one.
#[derive(Clone, Copy, Debug, PartialEq, Eq, Structural, Hash)]
pub enum Modifier {
    Shift,
    Control,
    Command,
    /// The option key, also called alternate or alt.
    Alternate,
}

/// The modifier that a lowercase name stands for, or `None` if it names none.
pub open spec fn modifier_of_name(name: Seq<char>) -> Option<Modifier> {
    if name == "shift"@ {
        Some(Modifier::Shift)
    } else if name == "control"@ {
        Some(Modifier::Control)
    } else if name == "command"@ {
        Some(Modifier::Command)
    } else if name == "option"@ || name == "alternate"@ || name == "alt"@ {
        Some(Modifier::Alternate)
    } else {
        None
    }
}

/// Returns the modifier that a name already in lowercase stands for, or `None`.
pub fn modifier_from_lowercase(name: &str) -> (r: Option<Modifier>)
    ensures
        r == modifier_of_name(name@),
{
    if same_text(name, "shift") {
        Some(Modifier::Shift)
    } else if same_text(name, "control") {
        Some(Modifier::Control)
    } else if same_text(name, "command") {
        Some(Modifier::Command)
    } else if same_text(name, "option") || same_text(name, "alternate") || same_text(name, "alt") {
        Some(Modifier::Alternate)
    } else {
        None
    }
}

/// No modifier name is empty.
proof fn lemma_empty_name_has_no_modifier()
    ensures
        modifier_of_name(Seq::empty()) is None,
{
    reveal_strlit("shift");
    reveal_strlit("control");
    reveal_strlit("command");
    reveal_strlit("option");
    reveal_strlit("alternate");
    reveal_strlit("alt");
    assert("shift"@.len() > 0);
    assert("control"@.len() > 0);
    assert("command"@.len() > 0);
    assert("option"@.len() > 0);
    assert("alternate"@.len() > 0);
    assert("alt"@.len() > 0);
}

/// Returns the modifier that a name stands for, ignoring case, or `None`.
pub fn modifier_from_str(s: &str) -> (r: Option<Modifier>)
    ensures
        r == modifier_of_name(lower_of(s@)),
        s@.len() == 0 ==> r is None,
{
    let lowered = lowercase(s);
    proof {
        lemma_empty_name_has_no_modifier();
        if s@.len() == 0 {
            assert(lowered@ =~= Seq::<char>::empty());
        }
    }
    modifier_from_lowercase(lowered.as_str())
}

/// Modifier names are matched without regard to case: two names with the same
/// lowercase form stand for the same modifier, or both for none.
pub proof fn modifier_name_case_insensitive(a: Seq<char>, b: Seq<char>)
    requires
        lower_of(a) == lower_of(b),
    ensures
        modifier_of_name(lower_of(a)) == modifier_of_name(lower_of(b)),
{
}

/// "option", "alternate" and "alt" all stand for the alternate modifier.
pub proof fn alternate_synonyms()
    ensures
        modifier_of_name("option"@) == Some(Modifier::Alternate),
        modifier_of_name("alternate"@) == Some(Modifier::Alternate),
        modifier_of_name("alt"@) == Some(Modifier::Alternate),
{
    reveal_strlit("shift");
    reveal_strlit("control");
    reveal_strlit("command");
    reveal_strlit("option");
    reveal_strlit("alternate");
    reveal_strlit("alt");
    assert("option"@[0] != "shift"@[0]);
    assert("option"@.len() != "control"@.len());
    assert("option"@.len() != "command"@.len());
    assert("alternate"@.len() != "shift"@.len());
    assert("alternate"@.len() != "control"@.len());
    assert("alternate"@.len() != "command"@.len());
    assert("alt"@.len() != "shift"@.len());
    assert("alt"@.len() != "control"@.len());
    assert("alt"@.len() != "command"@.len());
}

} // verus!
