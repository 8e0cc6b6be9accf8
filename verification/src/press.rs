//! Key presses and the combos built from them.
use vstd::prelude::*;
use vstd::string::StringExecFns;
use crate::keys::Key;

verus! {

/// One held key together with the modifiers held with it.
#[derive(Clone, Copy, Debug, PartialEq, Eq, Structural)]
pub struct KeyPress {
    pub ctrl: bool,
    pub alt: bool,
    pub shift: bool,
    pub windows: bool,
    pub key: Key,
}

/// What one button of the keypad emits: a press, optionally followed by a
/// second one.
#[derive(Clone, Copy, Debug, PartialEq, Eq, Structural)]
pub struct KeyCombo {
    pub one: KeyPress,
    pub two: Option<KeyPress>,
}

/// Collects modifiers until the key of a press is named.
#[derive(Clone, Copy, Debug)]
pub struct KeyPressBuilder {
    ctrl: bool,
    alt: bool,
    shift: bool,
    windows: bool,
}

impl KeyPress {
    /// The press of `key` with no modifier held.
    pub fn key(key: Key) -> (press: KeyPress)
        ensures
            press == (KeyPress { ctrl: false, alt: false, shift: false, windows: false, key }),
    {
        KeyPress { ctrl: false, alt: false, shift: false, windows: false, key }
    }

    /// Starts a press with Ctrl held.
    pub fn ctrl() -> (builder: KeyPressBuilder)
        ensures
            builder.held() == (true, false, false, false),
    {
        KeyPressBuilder { ctrl: true, alt: false, shift: false, windows: false }
    }

    /// Starts a press with Alt held.
    pub fn alt() -> (builder: KeyPressBuilder)
        ensures
            builder.held() == (false, true, false, false),
    {
        KeyPressBuilder { ctrl: false, alt: true, shift: false, windows: false }
    }

    /// Starts a press with Shift held.
    pub fn shift() -> (builder: KeyPressBuilder)
        ensures
            builder.held() == (false, false, true, false),
    {
        KeyPressBuilder { ctrl: false, alt: false, shift: true, windows: false }
    }

    /// Starts a press with the Windows key held.
    pub fn windows() -> (builder: KeyPressBuilder)
        ensures
            builder.held() == (false, false, false, true),
    {
        KeyPressBuilder { ctrl: false, alt: false, shift: false, windows: true }
    }
}

impl KeyPress {
    /// How this press is shown: the modifiers held, each followed by a plus
    /// sign, then the name of the key.
    pub open spec fn spec_label(self) -> Seq<char> {
        (if self.ctrl {
            "Ctrl + "@
        } else {
            Seq::empty()
        }) + (if self.alt {
            "Alt + "@
        } else {
            Seq::empty()
        }) + (if self.shift {
            "Shift + "@
        } else {
            Seq::empty()
        }) + (if self.windows {
            "Win + "@
        } else {
            Seq::empty()
        }) + self.key.spec_name()
    }

    /// How this press is shown, as in `Ctrl + Shift + A`.
    pub fn label(&self) -> (text: String)
        ensures
            text@ == self.spec_label(),
    {
        let mut text = String::new();
        if self.ctrl {
            text.append("Ctrl + ");
        }
        if self.alt {
            text.append("Alt + ");
        }
        if self.shift {
            text.append("Shift + ");
        }
        if self.windows {
            text.append("Win + ");
        }
        text.append(self.key.name());
        assert(text@ =~= self.spec_label());
        text
    }
}

impl KeyCombo {
    /// How this combo is shown: its first press and, after a comma, its
    /// second press where it has one.
    pub open spec fn spec_label(self) -> Seq<char> {
        match self.two {
            Some(two) => self.one.spec_label() + ", "@ + two.spec_label(),
            None => self.one.spec_label(),
        }
    }

    /// How this combo is shown, as in `Ctrl + R, D`.
    pub fn label(&self) -> (text: String)
        ensures
            text@ == self.spec_label(),
    {
        let mut text = self.one.label();
        if let Some(two) = &self.two {
            text.append(", ");
            let second = two.label();
            text.append(second.as_str());
        }
        text
    }
}

impl KeyPressBuilder {
    /// The modifiers collected so far, as (ctrl, alt, shift, windows).
    pub closed spec fn held(self) -> (bool, bool, bool, bool) {
        (self.ctrl, self.alt, self.shift, self.windows)
    }

    /// Adds Ctrl to the modifiers held.
    pub fn ctrl(self) -> (builder: KeyPressBuilder)
        ensures
            builder.held() == (true, self.held().1, self.held().2, self.held().3),
    {
        KeyPressBuilder { ctrl: true, alt: self.alt, shift: self.shift, windows: self.windows }
    }

    /// Adds Alt to the modifiers held.
    pub fn alt(self) -> (builder: KeyPressBuilder)
        ensures
            builder.held() == (self.held().0, true, self.held().2, self.held().3),
    {
        KeyPressBuilder { ctrl: self.ctrl, alt: true, shift: self.shift, windows: self.windows }
    }

    /// Adds Shift to the modifiers held.
    pub fn shift(self) -> (builder: KeyPressBuilder)
        ensures
            builder.held() == (self.held().0, self.held().1, true, self.held().3),
    {
        KeyPressBuilder { ctrl: self.ctrl, alt: self.alt, shift: true, windows: self.windows }
    }

    /// Adds the Windows key to the modifiers held.
    pub fn windows(self) -> (builder: KeyPressBuilder)
        ensures
            builder.held() == (self.held().0, self.held().1, self.held().2, true),
    {
        KeyPressBuilder { ctrl: self.ctrl, alt: self.alt, shift: self.shift, windows: true }
    }

    /// Finishes the press: `key` with the modifiers collected so far.
    pub fn key(self, key: Key) -> (press: KeyPress)
        ensures
            press.key == key,
            (press.ctrl, press.alt, press.shift, press.windows) == self.held(),
    {
        KeyPress { ctrl: self.ctrl, alt: self.alt, shift: self.shift, windows: self.windows, key }
    }
}

impl Default for KeyPressBuilder {
    fn default() -> (builder: KeyPressBuilder)
        ensures
            builder.held() == (false, false, false, false),
    {
        KeyPressBuilder { ctrl: false, alt: false, shift: false, windows: false }
    }
}

impl Default for KeyCombo {
    fn default() -> (combo: KeyCombo)
        ensures
            combo == KeyCombo::spec_default(),
    {
        KeyCombo { one: KeyPress::key(Key::A), two: None }
    }
}

impl KeyCombo {
    /// The combo a fresh button carries: a plain `A`.
    pub open spec fn spec_default() -> KeyCombo {
        KeyCombo {
            one: KeyPress { ctrl: false, alt: false, shift: false, windows: false, key: Key::A },
            two: None,
        }
    }
}

} // verus!
