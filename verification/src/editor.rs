//! The form in which a combo is edited: a box to tick for each modifier and
//! a list of all keys to pick from, for the first press and, where it is
//! asked for, the second.
use vstd::prelude::*;
use crate::keys::{index_to_key, Key, KEY_COUNT};
use crate::press::{KeyCombo, KeyPress};

verus! {

/// What the form holds for one press. `key` is the position picked in the
/// list of keys, or `None` where no key is picked.
#[derive(Clone, Copy, Debug, PartialEq, Eq, Structural)]
pub struct PressForm {
    pub ctrl: bool,
    pub alt: bool,
    pub shift: bool,
    pub windows: bool,
    pub key: Option<usize>,
}

impl PressForm {
    /// Whether the key picked, if any, is a position of the list of keys.
    pub open spec fn wf(self) -> bool {
        self.key matches Some(i) ==> i < KEY_COUNT
    }

    /// The form that shows `press`.
    pub open spec fn spec_of(press: KeyPress) -> PressForm {
        PressForm {
            ctrl: press.ctrl,
            alt: press.alt,
            shift: press.shift,
            windows: press.windows,
            key: Some(press.key.ordinal() as usize),
        }
    }

    /// The press this form stands for, if a key is picked.
    pub open spec fn spec_press(self) -> Option<KeyPress> {
        match self.key {
            Some(i) => Some(
                KeyPress {
                    ctrl: self.ctrl,
                    alt: self.alt,
                    shift: self.shift,
                    windows: self.windows,
                    key: Key::at(i as int),
                },
            ),
            None => None,
        }
    }

    /// The form that shows `press`.
    pub fn of(press: &KeyPress) -> (form: PressForm)
        ensures
            form == PressForm::spec_of(*press),
            form.wf(),
    {
        PressForm {
            ctrl: press.ctrl,
            alt: press.alt,
            shift: press.shift,
            windows: press.windows,
            key: Some(press.key.index()),
        }
    }

    /// The press this form stands for, or `None` where no key is picked.
    pub fn press(&self) -> (r: Option<KeyPress>)
        requires
            self.wf(),
        ensures
            r == self.spec_press(),
    {
        match self.key {
            Some(idx) => Some(
                KeyPress {
                    ctrl: self.ctrl,
                    alt: self.alt,
                    shift: self.shift,
                    windows: self.windows,
                    key: index_to_key(idx),
                },
            ),
            None => None,
        }
    }
}

/// The forms that show `combo`: one for the first press, and one for the
/// second where the combo has one.
pub open spec fn spec_forms_of(combo: KeyCombo) -> (PressForm, Option<PressForm>) {
    (
        PressForm::spec_of(combo.one),
        match combo.two {
            Some(press) => Some(PressForm::spec_of(press)),
            None => None,
        },
    )
}

/// The combo that two forms stand for. Where a form that is there has no key
/// picked, there is no combo.
pub open spec fn spec_combo_from_forms(one: PressForm, two: Option<PressForm>) -> Option<
    KeyCombo,
> {
    match one.spec_press() {
        None => None,
        Some(first) => match two {
            None => Some(KeyCombo { one: first, two: None }),
            Some(form) => match form.spec_press() {
                None => None,
                Some(second) => Some(KeyCombo { one: first, two: Some(second) }),
            },
        },
    }
}

/// The forms that show `combo`.
pub fn forms_of(combo: &KeyCombo) -> (forms: (PressForm, Option<PressForm>))
    ensures
        forms == spec_forms_of(*combo),
        forms.0.wf(),
        forms.1 matches Some(f) ==> f.wf(),
{
    let two = match &combo.two {
        Some(press) => Some(PressForm::of(press)),
        None => None,
    };
    (PressForm::of(&combo.one), two)
}

/// The combo that the forms stand for. `two` is the form of the second
/// press where one is asked for.
pub fn combo_from_forms(one: &PressForm, two: &Option<PressForm>) -> (r: Option<KeyCombo>)
    requires
        one.wf(),
        two matches Some(f) ==> f.wf(),
    ensures
        r == spec_combo_from_forms(*one, *two),
        r is None <==> (one.key is None || (two matches Some(f) && f.key is None)),
{
    let first = match one.press() {
        Some(press) => press,
        None => {
            return None;
        },
    };
    match two {
        Some(form) => match form.press() {
            Some(second) => Some(KeyCombo { one: first, two: Some(second) }),
            None => None,
        },
        None => Some(KeyCombo { one: first, two: None }),
    }
}

/// Reading back the form that shows a press gives the press.
pub proof fn lemma_press_form_round_trip(press: KeyPress)
    ensures
        PressForm::spec_of(press).wf(),
        PressForm::spec_of(press).spec_press() == Some(press),
{
    Key::lemma_at_ordinal(press.key);
}

/// Reading back the forms that show a combo gives the combo.
pub proof fn lemma_forms_round_trip(combo: KeyCombo)
    ensures
        spec_combo_from_forms(spec_forms_of(combo).0, spec_forms_of(combo).1) == Some(combo),
{
    lemma_press_form_round_trip(combo.one);
    if let Some(press) = combo.two {
        lemma_press_form_round_trip(press);
    }
}

} // verus!
