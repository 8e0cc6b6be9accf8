use keypad::editor::{combo_from_forms, forms_of, PressForm};
use keypad::panel::{
    edited, get_preview_text, matching_profile, move_down, move_up, profile_labels,
    profile_updated, remove, restart_required, same_combos, store_edited,
};
use keypad::{Key, KeyCombo, KeyPress, Profile};

fn named(name: &str, key: Key, program: Option<&str>) -> Profile {
    let combo = KeyCombo { one: KeyPress::key(key), two: None };
    Profile {
        name: name.to_string(),
        combos: [combo; 6],
        auto_launch_program: program.map(|p| p.to_string()),
    }
}

fn names(profiles: &Vec<Profile>) -> Vec<String> {
    profiles.iter().map(|p| p.name.clone()).collect()
}

fn abc() -> Vec<Profile> {
    vec![named("a", Key::A, None), named("b", Key::B, Some("b.exe")), named("c", Key::C, None)]
}

#[test]
fn the_first_profile_with_the_reported_combos_matches() {
    let mut profiles = abc();
    profiles.push(named("again", Key::B, None));
    assert_eq!(matching_profile(&profiles, &profiles[0].combos.clone()), Some(0));
    assert_eq!(matching_profile(&profiles, &profiles[1].combos.clone()), Some(1));
    assert_eq!(matching_profile(&profiles, &profiles[3].combos.clone()), Some(1));
    assert_eq!(matching_profile(&profiles, &named("x", Key::X, None).combos), None);
    assert_eq!(matching_profile(&Vec::new(), &profiles[0].combos), None);
}

#[test]
fn combos_are_the_same_only_button_by_button() {
    let a = named("a", Key::A, None).combos;
    let mut b = a;
    assert!(same_combos(&a, &b));
    b[5].two = Some(KeyPress::key(Key::A));
    assert!(!same_combos(&a, &b));
    b = a;
    b[0].one.shift = true;
    assert!(!same_combos(&a, &b));
}

#[test]
fn a_profile_is_updated_by_name_or_program_only() {
    let p = named("p", Key::A, Some("p.exe"));
    assert!(!profile_updated(&p, &p.clone()));
    assert!(!profile_updated(&p, &named("p", Key::Z, Some("p.exe"))));
    assert!(profile_updated(&p, &named("q", Key::A, Some("p.exe"))));
    assert!(profile_updated(&p, &named("p", Key::A, Some("q.exe"))));
    assert!(profile_updated(&p, &named("p", Key::A, None)));
    assert!(profile_updated(&named("p", Key::A, None), &p));
    assert!(!profile_updated(&named("p", Key::A, None), &named("p", Key::B, None)));
}

#[test]
fn a_restart_is_called_for_by_count_name_or_program() {
    let current = abc();
    assert!(!restart_required(&current, &abc()));
    let mut combos_only = abc();
    combos_only[2].combos[0] = KeyCombo { one: KeyPress::ctrl().key(Key::Q), two: None };
    assert!(!restart_required(&current, &combos_only));
    let mut renamed = abc();
    renamed[2].name = "z".to_string();
    assert!(restart_required(&current, &renamed));
    let mut rewatched = abc();
    rewatched[0].auto_launch_program = Some("a.exe".to_string());
    assert!(restart_required(&current, &rewatched));
    let mut shorter = abc();
    shorter.pop();
    assert!(restart_required(&current, &shorter));
    assert!(restart_required(&shorter, &current));
    assert!(!restart_required(&Vec::new(), &Vec::new()));
}

#[test]
fn moving_up_exchanges_with_the_profile_before() {
    let mut profiles = abc();
    assert_eq!(move_up(&mut profiles, Some(2)), Some(1));
    assert_eq!(names(&profiles), ["a", "c", "b"]);
    assert_eq!(move_up(&mut profiles, Some(1)), Some(0));
    assert_eq!(names(&profiles), ["c", "a", "b"]);
    assert_eq!(move_up(&mut profiles, Some(0)), Some(0));
    assert_eq!(names(&profiles), ["c", "a", "b"]);
    assert_eq!(move_up(&mut profiles, None), None);
    assert_eq!(names(&profiles), ["c", "a", "b"]);
}

#[test]
fn moving_down_exchanges_with_the_profile_after() {
    let mut profiles = abc();
    assert_eq!(move_down(&mut profiles, Some(0)), Some(1));
    assert_eq!(names(&profiles), ["b", "a", "c"]);
    assert_eq!(move_down(&mut profiles, Some(1)), Some(2));
    assert_eq!(names(&profiles), ["b", "c", "a"]);
    assert_eq!(move_down(&mut profiles, Some(2)), Some(2));
    assert_eq!(names(&profiles), ["b", "c", "a"]);
    assert_eq!(move_down(&mut profiles, None), None);
    let mut single = vec![named("only", Key::A, None)];
    assert_eq!(move_down(&mut single, Some(0)), Some(0));
    assert_eq!(names(&single), ["only"]);
}

#[test]
fn removing_keeps_the_selection_in_the_list() {
    let mut profiles = abc();
    assert_eq!(remove(&mut profiles, None), None);
    assert_eq!(names(&profiles), ["a", "b", "c"]);
    assert_eq!(remove(&mut profiles, Some(0)), Some(0));
    assert_eq!(names(&profiles), ["b", "c"]);
    assert_eq!(remove(&mut profiles, Some(1)), Some(0));
    assert_eq!(names(&profiles), ["b"]);
    assert_eq!(remove(&mut profiles, Some(0)), None);
    assert!(profiles.is_empty());
    let mut middle = abc();
    assert_eq!(remove(&mut middle, Some(1)), Some(1));
    assert_eq!(names(&middle), ["a", "c"]);
}

#[test]
fn an_edited_profile_replaces_or_joins() {
    let mut profiles = abc();
    assert_eq!(store_edited(&mut profiles, Some(1), named("B", Key::Q, None)), 1);
    assert_eq!(names(&profiles), ["a", "B", "c"]);
    assert_eq!(profiles[1].combos[0].one.key, Key::Q);
    assert_eq!(store_edited(&mut profiles, None, named("d", Key::D, None)), 3);
    assert_eq!(names(&profiles), ["a", "B", "c", "d"]);
    let mut empty = Vec::new();
    assert_eq!(store_edited(&mut empty, None, named("first", Key::A, None)), 0);
    assert_eq!(names(&empty), ["first"]);
}

#[test]
fn the_head_of_the_list_is_marked_as_default() {
    assert_eq!(profile_labels(&abc()), ["a (default)", "b (b.exe)", "c"]);
    assert_eq!(
        profile_labels(&vec![named("w", Key::A, Some("w.exe"))]),
        ["w (w.exe) (default)"]
    );
    assert!(profile_labels(&Vec::new()).is_empty());
}

#[test]
fn the_preview_has_one_line_for_each_button() {
    let mut p = named("p", Key::A, None);
    p.combos[1] = KeyCombo { one: KeyPress::ctrl().key(Key::R), two: Some(KeyPress::key(Key::D)) };
    p.combos[5] = KeyCombo { one: KeyPress::windows().key(Key::L), two: None };
    assert_eq!(get_preview_text(&p), "A\r\nCtrl + R, D\r\nA\r\nA\r\nA\r\nWin + L");
}

#[test]
fn a_profile_needs_a_name() {
    let p = named("old", Key::F5, Some("old.exe"));
    assert_eq!(edited(p.clone(), "", true, "x.exe"), None);
    assert_eq!(edited(p.clone(), "  \t ", false, ""), None);
    let q = edited(p.clone(), " new ", true, "new.exe").unwrap();
    assert_eq!(q.name, " new ");
    assert_eq!(q.combos, p.combos);
    assert_eq!(q.auto_launch_program, Some("new.exe".to_string()));
    let r = edited(p.clone(), "new", false, "ignored.exe").unwrap();
    assert_eq!(r.auto_launch_program, None);
    let s = edited(p, "new", true, "").unwrap();
    assert_eq!(s.auto_launch_program, Some(String::new()));
}

#[test]
fn forms_show_a_combo_and_read_back_as_it() {
    for key in Key::all() {
        let alone = KeyCombo { one: KeyPress::alt().key(key), two: None };
        let (one, two) = forms_of(&alone);
        assert_eq!(one.key, Some(key.index()));
        assert_eq!(two, None);
        assert_eq!(combo_from_forms(&one, &two), Some(alone));
        let pair = KeyCombo { one: KeyPress::key(Key::A), two: Some(KeyPress::ctrl().key(key)) };
        let (one, two) = forms_of(&pair);
        assert_eq!(combo_from_forms(&one, &two), Some(pair));
    }
}

#[test]
fn a_form_without_a_key_gives_no_combo() {
    let blank = PressForm { ctrl: true, alt: false, shift: false, windows: false, key: None };
    let picked = PressForm { ctrl: false, alt: true, shift: false, windows: true, key: Some(3) };
    assert_eq!(blank.press(), None);
    assert_eq!(picked.press(), Some(KeyPress::alt().windows().key(Key::D)));
    assert_eq!(PressForm::of(&KeyPress::alt().windows().key(Key::D)), picked);
    assert_eq!(combo_from_forms(&blank, &None), None);
    assert_eq!(combo_from_forms(&blank, &Some(picked)), None);
    assert_eq!(combo_from_forms(&picked, &Some(blank)), None);
    assert_eq!(
        combo_from_forms(&picked, &None),
        Some(KeyCombo { one: KeyPress::alt().windows().key(Key::D), two: None })
    );
    assert_eq!(
        combo_from_forms(&picked, &Some(picked)),
        Some(KeyCombo {
            one: KeyPress::alt().windows().key(Key::D),
            two: Some(KeyPress::alt().windows().key(Key::D)),
        })
    );
}
