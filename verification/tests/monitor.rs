use keypad::{program_is_running, AutoSwitcher, Key, KeyCombo, KeyPress, Profile, State, WatchDog};
use std::sync::mpsc::channel;
use sysinfo::{ProcessExt, System, SystemExt};

fn profile(name: &str, key: Key, program: Option<&str>) -> Profile {
    let combo = KeyCombo { one: KeyPress::key(key), two: None };
    Profile {
        name: name.to_string(),
        combos: [combo; 6],
        auto_launch_program: program.map(|p| p.to_string()),
    }
}

fn three_profiles() -> Vec<Profile> {
    vec![
        profile("Default", Key::A, None),
        profile("A", Key::B, Some("foo.exe")),
        profile("B", Key::C, Some("bar.exe")),
    ]
}

#[test]
fn switcher_follows_programs_as_they_come_and_go() {
    let profiles = three_profiles();
    let mut switcher = AutoSwitcher::new(three_profiles()).unwrap();
    assert_eq!(switcher.state(), State::Default);

    // Neither program runs: nothing is applied, tick after tick.
    assert_eq!(switcher.step(&vec![false, false]), None);
    assert_eq!(switcher.step(&vec![false, false]), None);
    assert_eq!(switcher.state(), State::Default);

    // foo.exe appears: A is applied once.
    assert_eq!(switcher.step(&vec![true, false]), Some(profiles[1].clone()));
    assert_eq!(switcher.state(), State::InProgram(0));

    // foo.exe persists: nothing more is applied, whatever else runs.
    assert_eq!(switcher.step(&vec![true, false]), None);
    assert_eq!(switcher.step(&vec![true, true]), None);
    assert_eq!(switcher.state(), State::InProgram(0));

    // foo.exe is gone and bar.exe runs: straight to B.
    assert_eq!(switcher.step(&vec![false, true]), Some(profiles[2].clone()));
    assert_eq!(switcher.state(), State::InProgram(1));

    // Both are gone: back to the default profile.
    assert_eq!(switcher.step(&vec![false, false]), Some(profiles[0].clone()));
    assert_eq!(switcher.state(), State::Default);
    assert_eq!(switcher.step(&vec![false, false]), None);
}

#[test]
fn first_match_in_list_order_wins() {
    let profiles = three_profiles();
    let mut switcher = AutoSwitcher::new(three_profiles()).unwrap();
    assert_eq!(switcher.step(&vec![true, true]), Some(profiles[1].clone()));
    assert_eq!(switcher.state(), State::InProgram(0));

    let mut other = AutoSwitcher::new(three_profiles()).unwrap();
    assert_eq!(other.step(&vec![false, true]), Some(profiles[2].clone()));
    assert_eq!(other.state(), State::InProgram(1));
    // B's program persists: A starting does not take over.
    assert_eq!(other.step(&vec![true, true]), None);
    assert_eq!(other.state(), State::InProgram(1));
    // B's program stops while A's runs: straight to A.
    assert_eq!(other.step(&vec![true, false]), Some(profiles[1].clone()));
    assert_eq!(other.state(), State::InProgram(0));
}

#[test]
fn missing_flags_count_as_not_running() {
    let profiles = three_profiles();
    let mut switcher = AutoSwitcher::new(three_profiles()).unwrap();
    assert_eq!(switcher.step(&vec![]), None);
    assert_eq!(switcher.step(&vec![false]), None);
    assert_eq!(switcher.step(&vec![false, true, true]), Some(profiles[2].clone()));
    assert_eq!(switcher.step(&vec![false]), Some(profiles[0].clone()));
    assert_eq!(switcher.state(), State::Default);
}

#[test]
fn no_profiles_give_no_switcher() {
    assert!(AutoSwitcher::new(Vec::new()).is_none());
    assert!(AutoSwitcher::new(vec![profile("Only", Key::A, None)]).is_some());
}

#[test]
fn profiles_without_a_program_are_not_watched() {
    let profiles = vec![
        profile("Default", Key::A, Some("default.exe")),
        profile("Unnamed", Key::B, None),
        profile("Empty", Key::C, Some("")),
        profile("Blank", Key::D, Some(" \t\r\n\u{a0}\u{3000} ")),
        profile("Padded", Key::E, Some("  foo.exe ")),
        profile("Plain", Key::F, Some("bar.exe")),
    ];
    let padded = profiles[4].clone();
    let plain = profiles[5].clone();
    let fallback = profiles[0].clone();
    let mut switcher = AutoSwitcher::new(profiles).unwrap();
    // Two profiles are watched; the default one is not among them.
    assert_eq!(switcher.step(&vec![false, true, true, true, true]), Some(plain));
    assert_eq!(switcher.state(), State::InProgram(1));
    assert_eq!(switcher.step(&vec![true, false]), Some(padded));
    assert_eq!(switcher.state(), State::InProgram(0));
    assert_eq!(switcher.step(&vec![false, false]), Some(fallback));
}

#[test]
fn watched_means_a_name_that_is_more_than_white_space() {
    assert!(!profile("p", Key::A, None).is_watched());
    assert!(!profile("p", Key::A, Some("")).is_watched());
    assert!(!profile("p", Key::A, Some("   ")).is_watched());
    assert!(!profile("p", Key::A, Some("\u{2003}\u{85}\u{1680}")).is_watched());
    assert!(profile("p", Key::A, Some("x")).is_watched());
    assert!(profile("p", Key::A, Some(" x ")).is_watched());
    assert!(profile("p", Key::A, Some("\u{200b}")).is_watched());
}

#[test]
fn an_empty_snapshot_runs_nothing() {
    let system = System::new();
    assert!(!program_is_running("foo.exe", &system));
    assert!(!program_is_running("", &system));
    let mut switcher = AutoSwitcher::new(three_profiles()).unwrap();
    assert_eq!(switcher.next_profile(&system), None);
    assert_eq!(switcher.state(), State::Default);
}

#[test]
fn a_snapshot_runs_what_it_holds() {
    let mut system = System::new();
    system.refresh_processes();
    let any = !system.get_processes().is_empty();
    // The empty name is contained in every process name.
    assert_eq!(program_is_running("", &system), any);
    assert!(!program_is_running("no such program \u{1F980} anywhere", &system));
    let names: Vec<String> =
        system.get_processes().values().map(|p| p.name().to_string()).collect();
    for name in names.iter().take(20) {
        assert!(program_is_running(name, &system));
    }
}

#[test]
fn switcher_reads_the_snapshot_by_program_name() {
    let mut system = System::new();
    system.refresh_processes();
    let running = system
        .get_processes()
        .values()
        .map(|p| p.name().to_string())
        .find(|name| name.trim().len() > 0);
    let absent = "no such program \u{1F980} anywhere";
    let mut profiles = vec![
        profile("Default", Key::A, None),
        profile("Absent", Key::B, Some(absent)),
    ];
    if let Some(name) = &running {
        profiles.push(profile("Present", Key::C, Some(name.as_str())));
    }
    let expected = profiles.last().unwrap().clone();
    let mut switcher = AutoSwitcher::new(profiles).unwrap();
    match running {
        Some(_) => {
            assert_eq!(switcher.next_profile(&system), Some(expected));
            assert_eq!(switcher.state(), State::InProgram(1));
            assert_eq!(switcher.next_profile(&system), None);
            // Against an empty snapshot the program is gone.
            let fallback = switcher.next_profile(&System::new());
            assert_eq!(fallback.map(|p| p.name), Some("Default".to_string()));
            assert_eq!(switcher.state(), State::Default);
        }
        None => {
            assert_eq!(switcher.next_profile(&system), None);
            assert_eq!(switcher.state(), State::Default);
        }
    }
}

#[test]
fn default_profile_has_six_plain_a_combos() {
    let p = Profile::default();
    assert_eq!(p.name, "");
    assert_eq!(p.auto_launch_program, None);
    assert_eq!(p.combos, [KeyCombo { one: KeyPress::key(Key::A), two: None }; 6]);
}

#[test]
fn profile_label_names_the_program_in_brackets() {
    assert_eq!(profile("Editing", Key::A, Some("editor.exe")).label(), "Editing (editor.exe)");
    assert_eq!(profile("Plain", Key::A, None).label(), "Plain");
    assert_eq!(profile("", Key::A, Some("")).label(), " ()");
}

#[test]
fn profile_clone_keeps_every_field() {
    let p = Profile {
        name: "Mixed".to_string(),
        combos: [
            KeyCombo { one: KeyPress::ctrl().key(Key::A), two: None },
            KeyCombo { one: KeyPress::key(Key::B), two: Some(KeyPress::alt().key(Key::C)) },
            KeyCombo::default(),
            KeyCombo { one: KeyPress::key(Key::F1), two: None },
            KeyCombo { one: KeyPress::key(Key::F2), two: None },
            KeyCombo { one: KeyPress::key(Key::F3), two: None },
        ],
        auto_launch_program: Some("mixed.exe".to_string()),
    };
    let q = p.clone();
    assert_eq!(q.name, "Mixed");
    assert_eq!(q.combos, p.combos);
    assert_eq!(q.auto_launch_program, Some("mixed.exe".to_string()));
    assert_eq!(q, p);
}

#[test]
fn stopping_the_watchdog_signals_the_worker() {
    let (tx, rx) = channel::<()>();
    let watchdog = WatchDog::new(tx);
    assert!(rx.try_recv().is_err());
    watchdog.stop();
    assert_eq!(rx.try_recv(), Ok(()));
}

#[test]
fn stopping_a_watchdog_whose_worker_is_gone_is_harmless() {
    let (tx, rx) = channel::<()>();
    drop(rx);
    WatchDog::new(tx).stop();
}
