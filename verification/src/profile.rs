//! Profiles: a named assignment of combos to the six buttons, optionally
//! tied to a program whose presence makes the profile apply by itself.
use vstd::prelude::*;
use vstd::string::StringExecFns;
use crate::press::KeyCombo;

verus! {

/// A named assignment of combos to the six buttons. Position `i` of `combos`
/// belongs to button `i`.
#[derive(Debug, PartialEq, Eq)]
pub struct Profile {
    pub name: String,
    pub combos: [KeyCombo; 6],
    pub auto_launch_program: Option<String>,
}

/// Whether `c` has the Unicode property White_Space.
pub open spec fn is_white_space(c: char) -> bool {
    let n = c as u32;
    ||| 0x09 <= n <= 0x0D
    ||| n == 0x20
    ||| n == 0x85
    ||| n == 0xA0
    ||| n == 0x1680
    ||| 0x2000 <= n <= 0x200A
    ||| n == 0x2028
    ||| n == 0x2029
    ||| n == 0x202F
    ||| n == 0x205F
    ||| n == 0x3000
}

/// `s` without the white space it starts with.
pub open spec fn trim_start(s: Seq<char>) -> Seq<char>
    decreases s.len(),
{
    if s.len() > 0 && is_white_space(s[0]) {
        trim_start(s.drop_first())
    } else {
        s
    }
}

/// `s` without the white space it ends with.
pub open spec fn trim_end(s: Seq<char>) -> Seq<char>
    decreases s.len(),
{
    if s.len() > 0 && is_white_space(s.last()) {
        trim_end(s.drop_last())
    } else {
        s
    }
}

/// `s` without the white space at either end.
pub open spec fn trimmed(s: Seq<char>) -> Seq<char> {
    trim_end(trim_start(s))
}

/// Calls `str::trim`, which returns the slice of `s` that is left when the
/// leading and the trailing white space are removed, white space being the
/// characters with the Unicode property White_Space. Trusted, not proved.
#[verifier::external_body]
fn trim(s: &str) -> (t: &str)
    ensures
        t@ == trimmed(s@),
{
    s.trim()
}

/// Whether `s` is empty or all white space.
pub fn is_blank(s: &str) -> (blank: bool)
    ensures
        blank == (trimmed(s@).len() == 0),
{
    trim(s).is_empty()
}

impl Clone for Profile {
    fn clone(&self) -> (copy: Profile)
        ensures
            copy == *self,
    {
        Profile {
            name: self.name.clone(),
            combos: self.combos,
            auto_launch_program: match &self.auto_launch_program {
                Some(program) => Some(program.clone()),
                None => None,
            },
        }
    }
}

impl Default for Profile {
    fn default() -> (profile: Profile)
        ensures
            profile.name@ == Seq::<char>::empty(),
            profile.auto_launch_program is None,
            profile.combos@ == Seq::new(6, |i: int| KeyCombo::spec_default()),
    {
        let combo = KeyCombo::default();
        let combos = [combo, combo, combo, combo, combo, combo];
        assert(combos@ =~= Seq::new(6, |i: int| KeyCombo::spec_default()));
        Profile { name: String::new(), combos, auto_launch_program: None }
    }
}

impl Profile {
    /// Whether this profile takes part in automatic switching: it names a
    /// program, and the name is more than white space.
    pub open spec fn watched(&self) -> bool {
        match self.auto_launch_program {
            Some(program) => trimmed(program@).len() > 0,
            None => false,
        }
    }

    /// The name of the program this profile watches.
    pub open spec fn program(&self) -> Seq<char>
        recommends
            self.auto_launch_program is Some,
    {
        self.auto_launch_program.unwrap()@
    }

    /// How this profile is shown: its name and, in brackets, the program it
    /// watches where it names one.
    pub open spec fn spec_label(&self) -> Seq<char> {
        match self.auto_launch_program {
            Some(program) => self.name@ + " ("@ + program@ + ")"@,
            None => self.name@,
        }
    }

    /// How this profile is shown, as in `Editing (editor.exe)`.
    pub fn label(&self) -> (text: String)
        ensures
            text@ == self.spec_label(),
    {
        let mut text = self.name.clone();
        if let Some(program) = &self.auto_launch_program {
            text.append(" (");
            text.append(program.as_str());
            text.append(")");
        }
        text
    }

    /// Whether this profile takes part in automatic switching.
    pub fn is_watched(&self) -> (w: bool)
        ensures
            w == self.watched(),
    {
        match &self.auto_launch_program {
            Some(program) => !is_blank(program.as_str()),
            None => false,
        }
    }
}

} // verus!
