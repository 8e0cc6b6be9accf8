//! The automatic profile monitor.
//!
//! An [`AutoSwitcher`] holds a default profile and the profiles that watch a
//! program. Each tick it is shown which watched programs run, and answers
//! with the profile to load on the keypad, if the loaded one is to change.
use std::sync::mpsc::Sender;
use sysinfo::{System, SystemExt};
use vstd::multiset::Multiset;
use vstd::prelude::*;
use crate::profile::Profile;

verus! {

/// Seconds between two looks at the process table.
pub const WATCH_INTERVAL_SECONDS: u64 = 1;

/// `sysinfo::System`, a snapshot of the machine's state, taken as it is:
/// nothing of what it holds is visible here but through [`process_names`].
#[verifier::external_type_specification]
#[verifier::external_body]
pub struct ExSystem(sysinfo::System);

/// `std::sync::mpsc::Sender`, the sending end of a channel, taken as it is.
#[verifier::external_type_specification]
#[verifier::external_body]
#[verifier::reject_recursive_types(T)]
pub struct ExSender<T>(std::sync::mpsc::Sender<T>);

/// The names of the processes that a snapshot of the process table holds,
/// one for each process. Stands for what `SystemExt::get_processes` and
/// `ProcessExt::name` give; nothing is proved of it.
pub uninterp spec fn process_names(system: System) -> Multiset<Seq<char>>;

/// Whether `needle` occurs in `hay` as a run of consecutive characters.
pub open spec fn is_infix(needle: Seq<char>, hay: Seq<char>) -> bool {
    exists|i: int, j: int| 0 <= i <= j <= hay.len() && #[trigger] hay.subrange(i, j) == needle
}

/// The names in the snapshot that match `name`: those that contain it.
pub open spec fn matching_processes(system: System, name: Seq<char>) -> Multiset<Seq<char>> {
    process_names(system).filter(|process: Seq<char>| is_infix(name, process))
}

/// Whether the snapshot holds at least one process that matches `name`.
pub open spec fn is_running(system: System, name: Seq<char>) -> bool {
    matching_processes(system, name).len() > 0
}

/// Calls `SystemExt::get_process_by_name` of sysinfo, which walks the
/// processes of the snapshot and returns those whose name contains `name`.
/// Trusted, not proved: the length of that list is the number of process
/// names in the snapshot that `name` is an infix of.
#[verifier::external_body]
fn count_processes_by_name(system: &System, name: &str) -> (count: usize)
    ensures
        count == process_names(*system).filter(
            |process: Seq<char>| is_infix(name@, process),
        ).len(),
{
    system.get_process_by_name(name).len()
}

/// Calls `std::sync::mpsc::Sender::send` with the unit value and drops the
/// answer. Whether a receiver is left to take it is not known, so nothing is
/// claimed.
#[verifier::external_body]
fn send_unit(sender: &Sender<()>) {
    let _ = sender.send(());
}

/// Whether a program of the given name runs: at least one process of the
/// snapshot matches it.
pub fn program_is_running(name: &str, system: &System) -> (running: bool)
    ensures
        running == is_running(*system, name@),
{
    count_processes_by_name(system, name) > 0
}

/// Which profile the monitor takes to be loaded on the keypad.
#[derive(Clone, Copy, Debug, PartialEq, Eq, Structural)]
pub enum State {
    /// The default profile.
    Default,
    /// A profile whose program was seen running, by its position among the
    /// watched profiles.
    InProgram(usize),
}

/// Whether flag `i` of `running` is there and set.
pub open spec fn runs(running: Seq<bool>, i: int) -> bool {
    0 <= i < running.len() && running[i]
}

/// Whether `i` is the first of the first `n` positions whose program runs.
pub open spec fn is_first_running(running: Seq<bool>, n: int, i: int) -> bool {
    &&& 0 <= i < n
    &&& runs(running, i)
    &&& forall|j: int| 0 <= j < i ==> !#[trigger] runs(running, j)
}

/// The first of the first `n` positions whose program runs, if any does.
pub open spec fn first_running(running: Seq<bool>, n: int) -> Option<int> {
    if exists|i: int| is_first_running(running, n, i) {
        Some(choose|i: int| is_first_running(running, n, i))
    } else {
        None
    }
}

/// Decides, tick by tick, which profile belongs on the keypad.
pub struct AutoSwitcher {
    default: Profile,
    auto_profiles: Vec<Profile>,
    state: State,
}

impl AutoSwitcher {
    /// The profile to fall back to when no watched program runs.
    pub closed spec fn default_profile(&self) -> Profile {
        self.default
    }

    /// The profiles that watch a program, in the order in which they are
    /// tried.
    pub closed spec fn watched_profiles(&self) -> Seq<Profile> {
        self.auto_profiles@
    }

    /// The state the monitor is in.
    pub closed spec fn spec_state(&self) -> State {
        self.state
    }

    /// Every watched profile names a program, and the state points at one of
    /// them.
    pub open spec fn wf(&self) -> bool {
        &&& forall|i: int|
            0 <= i < self.watched_profiles().len() ==> (#[trigger] self.watched_profiles()[i]).watched()
        &&& self.spec_state() matches State::InProgram(c) ==> c < self.watched_profiles().len()
    }

    /// What a snapshot shows of the watched programs: flag `i` tells whether
    /// the program of watched profile `i` runs.
    pub open spec fn observed(&self, system: System) -> Seq<bool> {
        Seq::new(
            self.watched_profiles().len(),
            |i: int| is_running(system, self.watched_profiles()[i].program()),
        )
    }

    /// Whether the monitor stays as it is: the program it is in still runs.
    pub open spec fn stays(&self, running: Seq<bool>) -> bool {
        self.spec_state() matches State::InProgram(c) && runs(running, c as int)
    }

    /// The state after a tick that was shown `running`. While the program
    /// the monitor is in still runs, nothing changes. Otherwise the first
    /// watched profile whose program runs is entered, and the default state
    /// where there is none.
    pub open spec fn next_state(&self, running: Seq<bool>) -> State {
        if self.stays(running) {
            self.spec_state()
        } else {
            match first_running(running, self.watched_profiles().len() as int) {
                Some(i) => State::InProgram(i as usize),
                None => State::Default,
            }
        }
    }

    /// The profile to load after a tick that was shown `running`, if the
    /// loaded one is to change: the profile that is entered, or the default
    /// profile when a program was left and no other runs.
    pub open spec fn emitted(&self, running: Seq<bool>) -> Option<Profile> {
        if self.stays(running) {
            None
        } else {
            match first_running(running, self.watched_profiles().len() as int) {
                Some(i) => Some(self.watched_profiles()[i]),
                None => if self.spec_state() is Default {
                    None
                } else {
                    Some(self.default_profile())
                },
            }
        }
    }

    /// Builds a monitor from an ordered list of profiles. The first profile
    /// is the default; of the others, those that watch a program are kept,
    /// in order. An empty list gives no monitor.
    pub fn new(profiles: Vec<Profile>) -> (r: Option<AutoSwitcher>)
        ensures
            r is None <==> profiles@.len() == 0,
            r matches Some(s) ==> {
                &&& s.wf()
                &&& s.default_profile() == profiles@[0]
                &&& s.watched_profiles() == profiles@.skip(1).filter(|p: Profile| p.watched())
                &&& s.spec_state() == State::Default
            },
    {
        if profiles.len() == 0 {
            return None;
        }
        let default = profiles[0].clone();
        let mut auto_profiles: Vec<Profile> = Vec::new();
        let ghost pred = |p: Profile| p.watched();
        let mut i: usize = 1;
        while i < profiles.len()
            invariant
                1 <= i <= profiles@.len(),
                pred == |p: Profile| p.watched(),
                auto_profiles@ == profiles@.subrange(1, i as int).filter(pred),
                forall|k: int| 0 <= k < auto_profiles@.len() ==> (#[trigger] auto_profiles@[k]).watched(),
            decreases profiles@.len() - i,
        {
            proof {
                reveal_with_fuel(Seq::filter, 2);
                assert(profiles@.subrange(1, i + 1).drop_last() =~= profiles@.subrange(1, i as int));
            }
            if profiles[i].is_watched() {
                auto_profiles.push(profiles[i].clone());
            }
            i += 1;
        }
        assert(profiles@.subrange(1, i as int) =~= profiles@.skip(1));
        Some(AutoSwitcher { default, auto_profiles, state: State::Default })
    }

    /// The state the monitor is in.
    pub fn state(&self) -> (state: State)
        ensures
            state == self.spec_state(),
    {
        self.state
    }

    /// The watched profile the monitor is in, if it is in one.
    pub fn in_program(&self) -> (profile: Option<Profile>)
        requires
            self.wf(),
        ensures
            profile == match self.spec_state() {
                State::Default => None::<Profile>,
                State::InProgram(c) => Some(self.watched_profiles()[c as int]),
            },
    {
        match self.state {
            State::Default => None,
            State::InProgram(current) => Some(self.auto_profiles[current].clone()),
        }
    }

    /// The first watched profile whose flag in `running` is set.
    fn find_running(&self, running: &Vec<bool>) -> (found: Option<usize>)
        ensures
            found matches Some(i) ==> first_running(running@, self.watched_profiles().len() as int)
                == Some(i as int),
            found is None ==> first_running(running@, self.watched_profiles().len() as int)
                is None,
    {
        let n = self.auto_profiles.len();
        let mut i: usize = 0;
        while i < n
            invariant
                i <= n,
                n == self.auto_profiles@.len(),
                forall|j: int| 0 <= j < i ==> !#[trigger] runs(running@, j),
            decreases n - i,
        {
            if i < running.len() && running[i] {
                assert(is_first_running(running@, n as int, i as int));
                return Some(i);
            }
            i += 1;
        }
        None
    }

    /// One tick of the monitor, given for each watched profile whether its
    /// program runs; a flag that is missing counts as not running.
    ///
    /// Returns the profile to load on the keypad, or `None` where the loaded
    /// profile is to stay.
    pub fn step(&mut self, running: &Vec<bool>) -> (emit: Option<Profile>)
        requires
            old(self).wf(),
        ensures
            final(self).wf(),
            final(self).default_profile() == old(self).default_profile(),
            final(self).watched_profiles() == old(self).watched_profiles(),
            final(self).spec_state() == old(self).next_state(running@),
            emit == old(self).emitted(running@),
    {
        let was_default = match self.state {
            State::Default => true,
            State::InProgram(current) => {
                if current < running.len() && running[current] {
                    return None;
                }
                false
            },
        };
        match self.find_running(running) {
            Some(i) => {
                self.state = State::InProgram(i);
                Some(self.auto_profiles[i].clone())
            },
            None => {
                self.state = State::Default;
                if was_default {
                    None
                } else {
                    Some(self.default.clone())
                }
            },
        }
    }

    /// One tick of the monitor against a snapshot of the process table.
    ///
    /// Returns the profile to load on the keypad, or `None` where the loaded
    /// profile is to stay.
    pub fn next_profile(&mut self, system: &System) -> (emit: Option<Profile>)
        requires
            old(self).wf(),
        ensures
            final(self).wf(),
            final(self).default_profile() == old(self).default_profile(),
            final(self).watched_profiles() == old(self).watched_profiles(),
            final(self).spec_state() == old(self).next_state(old(self).observed(*system)),
            emit == old(self).emitted(old(self).observed(*system)),
    {
        let mut running: Vec<bool> = Vec::new();
        let mut i: usize = 0;
        while i < self.auto_profiles.len()
            invariant
                i <= self.auto_profiles@.len(),
                self.wf(),
                running@.len() == i,
                forall|k: int|
                    0 <= k < i ==> running@[k] == is_running(
                        *system,
                        (#[trigger] self.auto_profiles@[k]).program(),
                    ),
            decreases self.auto_profiles@.len() - i,
        {
            assert(self.watched_profiles()[i as int].watched());
            let seen = match &self.auto_profiles[i].auto_launch_program {
                Some(program) => program_is_running(program.as_str(), system),
                None => false,
            };
            running.push(seen);
            i += 1;
        }
        assert(running@ =~= self.observed(*system));
        self.step(&running)
    }
}

/// The first running position is the only one of its kind.
pub proof fn lemma_first_running_unique(running: Seq<bool>, n: int, i: int)
    requires
        is_first_running(running, n, i),
    ensures
        first_running(running, n) == Some(i),
{
    let j = choose|j: int| is_first_running(running, n, j);
    if j < i {
        assert(!runs(running, j));
    }
    if i < j {
        assert(!runs(running, i));
    }
}

/// Where none of the first `n` programs runs, there is no first one.
pub proof fn lemma_first_running_none(running: Seq<bool>, n: int)
    requires
        forall|j: int| 0 <= j < n ==> !#[trigger] runs(running, j),
    ensures
        first_running(running, n) is None,
{
}

/// While the program the monitor is in keeps running, a tick changes
/// nothing and loads nothing, whatever else runs.
pub proof fn lemma_idle_while_program_runs(switcher: AutoSwitcher, running: Seq<bool>, c: usize)
    requires
        switcher.spec_state() == State::InProgram(c),
        runs(running, c as int),
    ensures
        switcher.next_state(running) == switcher.spec_state(),
        switcher.emitted(running) is None,
{
}

/// With no watched program running, the default state loads nothing and
/// stays.
pub proof fn lemma_idle_in_default(switcher: AutoSwitcher, running: Seq<bool>)
    requires
        switcher.spec_state() == State::Default,
        forall|j: int|
            0 <= j < switcher.watched_profiles().len() ==> !#[trigger] runs(running, j),
    ensures
        switcher.next_state(running) == State::Default,
        switcher.emitted(running) is None,
{
    lemma_first_running_none(running, switcher.watched_profiles().len() as int);
}

/// When the program the monitor was in is gone, or it was in none, the
/// first watched profile whose program runs is entered and loaded within
/// the same tick; the default profile is not loaded in between.
pub proof fn lemma_enters_first_running(switcher: AutoSwitcher, running: Seq<bool>, i: int)
    requires
        switcher.wf(),
        !switcher.stays(running),
        is_first_running(running, switcher.watched_profiles().len() as int, i),
    ensures
        switcher.next_state(running) == State::InProgram(i as usize),
        switcher.emitted(running) == Some(switcher.watched_profiles()[i]),
{
    lemma_first_running_unique(running, switcher.watched_profiles().len() as int, i);
}

/// When the program the monitor was in is gone and no other runs, the
/// default profile is loaded and the default state entered.
pub proof fn lemma_falls_back_to_default(switcher: AutoSwitcher, running: Seq<bool>, c: usize)
    requires
        switcher.spec_state() == State::InProgram(c),
        forall|j: int|
            0 <= j < switcher.watched_profiles().len() ==> !#[trigger] runs(running, j),
        c < switcher.watched_profiles().len(),
    ensures
        switcher.next_state(running) == State::Default,
        switcher.emitted(running) == Some(switcher.default_profile()),
{
    lemma_first_running_none(running, switcher.watched_profiles().len() as int);
    assert(!runs(running, c as int));
}

/// The owner's handle on a running monitor.
pub struct WatchDog {
    shutdown: Sender<()>,
}

impl WatchDog {
    /// The sending end of the channel on which the worker listens.
    pub closed spec fn channel(&self) -> Sender<()> {
        self.shutdown
    }

    /// Wraps the sending end of the channel on which the monitor's worker
    /// listens for its stop signal.
    pub fn new(shutdown: Sender<()>) -> (watchdog: WatchDog)
        ensures
            watchdog.channel() == shutdown,
    {
        WatchDog { shutdown }
    }

    /// Tells the worker to stop. The worker looks for the signal once per
    /// tick; a worker that is gone already is left alone.
    pub fn stop(self) {
        send_unit(&self.shutdown);
    }
}

} // verus!
