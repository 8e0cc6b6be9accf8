//! Editing an ordered list of profiles: which profile the keypad carries,
//! moving and removing entries, and how the list is shown.
//!
//! The first profile of a list is the default one. A selection is a position
//! in the list, or `None` where nothing is selected.
use vstd::prelude::*;
use vstd::string::StringExecFns;
use crate::press::KeyCombo;
use crate::profile::{trimmed, Profile};

verus! {

impl Profile {
    /// The text of the program name, if the profile names one.
    pub open spec fn program_text(&self) -> Option<Seq<char>> {
        match self.auto_launch_program {
            Some(program) => Some(program@),
            None => None,
        }
    }

    /// Whether `self` differs from `other` in what the monitor and the menu
    /// go by: the name or the program.
    pub open spec fn spec_updated(&self, other: &Profile) -> bool {
        self.name@ != other.name@ || self.program_text() != other.program_text()
    }

    /// How the six combos of this profile are shown: one line for each, the
    /// lines separated by a carriage return and a line feed.
    pub open spec fn spec_preview(&self) -> Seq<char> {
        preview_upto(self.combos@, 6)
    }
}

/// The first `n` lines of the preview of `combos`.
pub open spec fn preview_upto(combos: Seq<KeyCombo>, n: int) -> Seq<char>
    decreases n,
{
    if n <= 1 {
        combos[0].spec_label()
    } else {
        preview_upto(combos, n - 1) + "\r\n"@ + combos[n - 1].spec_label()
    }
}

/// How the profile at position `i` of a list is shown: its label, marked as
/// the default one at the head of the list.
pub open spec fn spec_list_label(profiles: Seq<Profile>, i: int) -> Seq<char> {
    if i == 0 {
        profiles[i].spec_label() + " (default)"@
    } else {
        profiles[i].spec_label()
    }
}

/// `list` with the entries at `i` and `j` exchanged.
pub open spec fn swapped(list: Seq<Profile>, i: int, j: int) -> Seq<Profile> {
    list.update(i, list[j]).update(j, list[i])
}

/// Whether a change from `current` to `updated` touches the number of
/// profiles, or the name or program of one of them.
pub open spec fn spec_restart_required(current: Seq<Profile>, updated: Seq<Profile>) -> bool {
    current.len() != updated.len() || exists|i: int|
        0 <= i < updated.len() && (#[trigger] updated[i]).spec_updated(&current[i])
}

/// Whether two assignments of combos to the six buttons are the same.
pub fn same_combos(a: &[KeyCombo; 6], b: &[KeyCombo; 6]) -> (same: bool)
    ensures
        same == (a@ == b@),
{
    let mut i: usize = 0;
    while i < 6
        invariant
            i <= 6,
            forall|k: int| 0 <= k < i ==> a@[k] == b@[k],
        decreases 6 - i,
    {
        if a[i] != b[i] {
            return false;
        }
        i += 1;
    }
    assert(a@ =~= b@);
    true
}

/// The position of the first profile that assigns exactly `combos` to the
/// buttons: the profile that a keypad reporting `combos` carries.
pub fn matching_profile(profiles: &Vec<Profile>, combos: &[KeyCombo; 6]) -> (found: Option<usize>)
    ensures
        found matches Some(i) ==> i < profiles@.len() && profiles@[i as int].combos@ == combos@,
        found matches Some(i) ==> forall|j: int|
            0 <= j < i ==> (#[trigger] profiles@[j]).combos@ != combos@,
        found is None ==> forall|j: int|
            0 <= j < profiles@.len() ==> (#[trigger] profiles@[j]).combos@ != combos@,
{
    let mut i: usize = 0;
    while i < profiles.len()
        invariant
            i <= profiles@.len(),
            forall|j: int| 0 <= j < i ==> (#[trigger] profiles@[j]).combos@ != combos@,
        decreases profiles@.len() - i,
    {
        if same_combos(&profiles[i].combos, combos) {
            return Some(i);
        }
        i += 1;
    }
    None
}

/// Whether `lhs` differs from `rhs` in name or program.
pub fn profile_updated(lhs: &Profile, rhs: &Profile) -> (updated: bool)
    ensures
        updated == lhs.spec_updated(rhs),
{
    let same_program = match (&lhs.auto_launch_program, &rhs.auto_launch_program) {
        (Some(a), Some(b)) => *a == *b,
        (None, None) => true,
        _ => false,
    };
    !(lhs.name == rhs.name) || !same_program
}

/// Whether replacing `current` by `updated` calls for a fresh start of menu
/// and monitor: the number of profiles changed, or the name or program of
/// one of them. A change of combos alone does not.
pub fn restart_required(current: &Vec<Profile>, updated: &Vec<Profile>) -> (restart: bool)
    ensures
        restart == spec_restart_required(current@, updated@),
{
    if current.len() != updated.len() {
        return true;
    }
    let mut i: usize = 0;
    while i < updated.len()
        invariant
            i <= updated@.len(),
            current@.len() == updated@.len(),
            forall|k: int| 0 <= k < i ==> !(#[trigger] updated@[k]).spec_updated(&current@[k]),
        decreases updated@.len() - i,
    {
        if profile_updated(&updated[i], &current[i]) {
            return true;
        }
        i += 1;
    }
    false
}

/// Moves the selected profile one place towards the head of the list and
/// returns the selection that follows it. Nothing happens where nothing is
/// selected or the head is.
pub fn move_up(profiles: &mut Vec<Profile>, selection: Option<usize>) -> (selected: Option<usize>)
    requires
        selection matches Some(i) ==> i < old(profiles)@.len(),
    ensures
        match selection {
            Some(i) if i > 0 => {
                &&& final(profiles)@ == swapped(old(profiles)@, i - 1, i as int)
                &&& selected == Some((i - 1) as usize)
            },
            _ => final(profiles)@ == old(profiles)@ && selected == selection,
        },
{
    match selection {
        Some(idx) => {
            if idx > 0 {
                let item = profiles.remove(idx);
                profiles.insert(idx - 1, item);
                assert(profiles@ =~= swapped(old(profiles)@, idx - 1, idx as int));
                Some(idx - 1)
            } else {
                selection
            }
        },
        None => None,
    }
}

/// Moves the selected profile one place towards the end of the list and
/// returns the selection that follows it. Nothing happens where nothing is
/// selected or the last profile is.
pub fn move_down(profiles: &mut Vec<Profile>, selection: Option<usize>) -> (selected: Option<
    usize,
>)
    requires
        selection matches Some(i) ==> i < old(profiles)@.len(),
    ensures
        match selection {
            Some(i) if i + 1 < old(profiles)@.len() => {
                &&& final(profiles)@ == swapped(old(profiles)@, i as int, i + 1)
                &&& selected == Some((i + 1) as usize)
            },
            _ => final(profiles)@ == old(profiles)@ && selected == selection,
        },
{
    match selection {
        Some(idx) => {
            if profiles.len() > 1 && idx < profiles.len() - 1 {
                let item = profiles.remove(idx);
                profiles.insert(idx + 1, item);
                assert(profiles@ =~= swapped(old(profiles)@, idx as int, idx + 1));
                Some(idx + 1)
            } else {
                selection
            }
        },
        None => None,
    }
}

/// Removes the selected profile and returns the selection that replaces it:
/// the same position, or the last one where the last profile was removed,
/// or none where the list is left empty. Nothing happens where nothing is
/// selected.
pub fn remove(profiles: &mut Vec<Profile>, selection: Option<usize>) -> (selected: Option<usize>)
    requires
        selection matches Some(i) ==> i < old(profiles)@.len(),
    ensures
        match selection {
            Some(i) => {
                &&& final(profiles)@ == old(profiles)@.remove(i as int)
                &&& selected == if old(profiles)@.len() == 1 {
                    None::<usize>
                } else if i + 1 == old(profiles)@.len() {
                    Some((i - 1) as usize)
                } else {
                    Some(i)
                }
            },
            None => final(profiles)@ == old(profiles)@ && selected is None,
        },
{
    match selection {
        Some(idx) => {
            let _ = profiles.remove(idx);
            if profiles.len() > 0 {
                if idx < profiles.len() - 1 {
                    Some(idx)
                } else {
                    Some(profiles.len() - 1)
                }
            } else {
                None
            }
        },
        None => None,
    }
}

/// Takes an edited profile into the list: over the profile at `idx`, or at
/// the end where it is a new one. Returns the position it stands at.
pub fn store_edited(profiles: &mut Vec<Profile>, idx: Option<usize>, profile: Profile) -> (at:
    usize)
    requires
        idx matches Some(i) ==> i < old(profiles)@.len(),
    ensures
        match idx {
            Some(i) => final(profiles)@ == old(profiles)@.update(i as int, profile) && at == i,
            None => final(profiles)@ == old(profiles)@.push(profile) && at == old(
                profiles,
            )@.len(),
        },
{
    match idx {
        Some(i) => {
            let _ = profiles.remove(i);
            profiles.insert(i, profile);
            assert(profiles@ =~= old(profiles)@.update(i as int, profile));
            i
        },
        None => {
            profiles.push(profile);
            profiles.len() - 1
        },
    }
}

/// The labels of a list of profiles, in order, the first one marked as the
/// default profile.
pub fn profile_labels(profiles: &Vec<Profile>) -> (labels: Vec<String>)
    ensures
        labels@.len() == profiles@.len(),
        forall|i: int|
            0 <= i < profiles@.len() ==> (#[trigger] labels@[i])@ == spec_list_label(
                profiles@,
                i,
            ),
{
    let mut labels: Vec<String> = Vec::new();
    let mut i: usize = 0;
    while i < profiles.len()
        invariant
            i <= profiles@.len(),
            labels@.len() == i,
            forall|k: int|
                0 <= k < i ==> (#[trigger] labels@[k])@ == spec_list_label(profiles@, k),
        decreases profiles@.len() - i,
    {
        let mut text = profiles[i].label();
        if i == 0 {
            text.append(" (default)");
        }
        labels.push(text);
        i += 1;
    }
    labels
}

/// The text that shows the six combos of a profile, one line for each.
pub fn get_preview_text(profile: &Profile) -> (text: String)
    ensures
        text@ == profile.spec_preview(),
{
    let mut text = profile.combos[0].label();
    let mut i: usize = 1;
    while i < 6
        invariant
            1 <= i <= 6,
            text@ == preview_upto(profile.combos@, i as int),
        decreases 6 - i,
    {
        text.append("\r\n");
        let line = profile.combos[i].label();
        text.append(line.as_str());
        i += 1;
    }
    text
}

/// Takes what was entered for a profile into the profile: the name, and the
/// program where automatic switching is asked for. A name that is empty or
/// all white space is refused, and `None` returned.
pub fn edited(profile: Profile, name: &str, use_auto: bool, program: &str) -> (r: Option<Profile>)
    ensures
        r is None <==> trimmed(name@).len() == 0,
        r matches Some(p) ==> {
            &&& p.name@ == name@
            &&& p.combos == profile.combos
            &&& p.program_text() == if use_auto {
                Some(program@)
            } else {
                None
            }
        },
{
    if crate::profile::is_blank(name) {
        return None;
    }
    let auto_launch_program = if use_auto {
        Some(String::from_str(program))
    } else {
        None
    };
    Some(Profile { name: String::from_str(name), combos: profile.combos, auto_launch_program })
}

} // verus!
