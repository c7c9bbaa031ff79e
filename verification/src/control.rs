//! The control surface: which weapon and sensitivity are selected, and the
//! start and stop operations that its buttons and hotkeys invoke.

use crate::profile::builtin_profiles;
use crate::profile::ProfileStore;
use crate::profile::Step;
use crate::runner::lemma_ticks;
use crate::runner::plan_of;
use crate::runner::MouseMove;
use crate::runner::Run;
use crate::runner::RunState;
use crate::runner::Runner;
use crate::scale::clamp_sensitivity;
use crate::scale::Sensitivity;
use crate::scale::UNIT_SENSITIVITY;
use vstd::prelude::*;

verus! {

/// An operation of the control surface.
#[derive(Clone, Copy, Debug, PartialEq, Eq)]
pub enum Command {
    Start,
    Stop,
}

/// A key that a hotkey is bound to.
#[derive(Clone, Copy, Debug, PartialEq, Eq)]
pub enum HotkeyKey {
    F1,
    F2,
}

/// A global key combination.
#[derive(Clone, Copy, Debug, PartialEq, Eq)]
pub struct Hotkey {
    pub shift: bool,
    pub key: HotkeyKey,
}

impl Command {
    /// The key combination reserved for the command.
    pub open spec fn hotkey_of(self) -> Hotkey {
        match self {
            Command::Start => Hotkey { shift: true, key: HotkeyKey::F1 },
            Command::Stop => Hotkey { shift: true, key: HotkeyKey::F2 },
        }
    }

    /// The key combination reserved for the command: Shift+F1 starts a run,
    /// Shift+F2 stops it.
    pub fn hotkey(&self) -> (hotkey: Hotkey)
        ensures
            hotkey == self.hotkey_of(),
    {
        match self {
            Command::Start => Hotkey { shift: true, key: HotkeyKey::F1 },
            Command::Stop => Hotkey { shift: true, key: HotkeyKey::F2 },
        }
    }
}

/// The command that the hotkey event `event_id` asks for, where the two
/// hotkeys are registered under `start_id` and `stop_id`.
pub open spec fn command_of(event_id: u32, start_id: u32, stop_id: u32) -> Option<Command> {
    if event_id == start_id {
        Some(Command::Start)
    } else if event_id == stop_id {
        Some(Command::Stop)
    } else {
        None
    }
}

/// The command that the hotkey event `event_id` asks for, where the two
/// hotkeys are registered under `start_id` and `stop_id`: none for an event
/// of another hotkey.
pub fn command_for(event_id: u32, start_id: u32, stop_id: u32) -> (command: Option<Command>)
    ensures
        command == command_of(event_id, start_id, stop_id),
{
    if event_id == start_id {
        Some(Command::Start)
    } else if event_id == stop_id {
        Some(Command::Stop)
    } else {
        None
    }
}

/// What the user has selected: a weapon by name and a sensitivity, over the
/// store of profiles.
pub struct ControlSurface {
    store: ProfileStore,
    weapon: String,
    sensitivity: Sensitivity,
}

impl ControlSurface {
    /// The store of profiles.
    pub closed spec fn store(&self) -> ProfileStore {
        self.store
    }

    /// The name of the selected weapon.
    pub closed spec fn weapon(&self) -> Seq<char> {
        self.weapon@
    }

    /// The selected sensitivity.
    pub closed spec fn sensitivity(&self) -> Sensitivity {
        self.sensitivity
    }

    /// The steps of the selected weapon: none where the store does not hold
    /// the selected name.
    pub open spec fn selected_steps(&self) -> Seq<Step> {
        self.store().steps_of(self.weapon())
    }

    /// The movements of a run started now.
    pub open spec fn selected_plan(&self) -> Seq<MouseMove> {
        plan_of(self.selected_steps(), self.sensitivity())
    }

    /// The surface at startup: the built-in profiles, the weapon "AK47" and
    /// the sensitivity `1.0`.
    pub fn new() -> (surface: ControlSurface)
        ensures
            surface.store().wf(),
            surface.store()@ == builtin_profiles(),
            surface.weapon() == "AK47"@,
            surface.sensitivity().wf(),
            surface.sensitivity().value() == UNIT_SENSITIVITY,
    {
        let store = ProfileStore::default();
        proof {
            use_type_invariant(&store);
        }
        ControlSurface { store, weapon: "AK47".to_owned(), sensitivity: Sensitivity::unit() }
    }

    /// Selects the weapon called `name`, whether or not the store holds it.
    pub fn select_weapon(&mut self, name: &str)
        ensures
            final(self).weapon() == name@,
            final(self).store() == old(self).store(),
            final(self).sensitivity() == old(self).sensitivity(),
    {
        self.weapon = name.to_owned();
    }

    /// Sets the sensitivity to `raw` thousandths, brought into the valid
    /// range.
    pub fn set_sensitivity(&mut self, raw: i64)
        ensures
            final(self).sensitivity().wf(),
            final(self).sensitivity().value() == clamp_sensitivity(raw as int),
            final(self).store() == old(self).store(),
            final(self).weapon() == old(self).weapon(),
    {
        self.sensitivity = Sensitivity::clamped(raw);
    }

    /// The name of the selected weapon.
    pub fn current_weapon(&self) -> (name: &str)
        ensures
            name@ == self.weapon(),
    {
        self.weapon.as_str()
    }

    /// The selected sensitivity.
    pub fn current_sensitivity(&self) -> (sensitivity: Sensitivity)
        ensures
            sensitivity == self.sensitivity(),
            sensitivity.wf(),
    {
        proof {
            use_type_invariant(&self.sensitivity);
        }
        self.sensitivity
    }

    /// The names that the weapon selector offers: those of the store, each
    /// once.
    pub fn weapon_names(&self) -> (names: Vec<String>)
        ensures
            names.len() == self.store().name_order().len(),
            forall|i: int| 0 <= i < names.len() ==> names[i]@ == self.store().name_order()[i],
            self.store().name_order().no_duplicates(),
            self.store().name_order().to_set() == self.store()@.dom(),
    {
        self.store.names()
    }

    /// Starts a run of the selected weapon at the selected sensitivity,
    /// unless one is active.
    ///
    /// On an idle `state` this marks it active and returns the runner of
    /// the new run. On an active `state` it changes nothing and returns no
    /// runner.
    pub fn start_recoil(&self, state: &mut RunState) -> (runner: Option<Runner>)
        ensures
            final(state).active(),
            old(state).active() <==> runner is None,
            old(state).active() ==> *final(state) == *old(state),
            runner matches Some(r) ==> r.run(*final(state)) == Run::started(self.selected_plan()),
    {
        let steps = self.store.get(self.weapon.as_str());
        state.start(&steps, self.sensitivity)
    }

    /// Stops the run, if one is active: `state` is idle afterwards.
    pub fn stop_recoil(&self, state: &mut RunState)
        ensures
            !final(state).active(),
    {
        state.stop();
    }

    /// Carries out `command`: a start as `start_recoil` does, a stop as
    /// `stop_recoil` does.
    pub fn apply(&self, command: Command, state: &mut RunState) -> (runner: Option<Runner>)
        ensures
            command == Command::Start ==> {
                &&& final(state).active()
                &&& old(state).active() <==> runner is None
                &&& old(state).active() ==> *final(state) == *old(state)
                &&& runner matches Some(r) ==> r.run(*final(state)) == Run::started(
                    self.selected_plan(),
                )
            },
            command == Command::Stop ==> runner is None && !final(state).active(),
    {
        match command {
            Command::Start => self.start_recoil(state),
            Command::Stop => {
                self.stop_recoil(state);
                None
            },
        }
    }
}

impl Default for ControlSurface {
    fn default() -> (surface: ControlSurface)
        ensures
            surface.store().wf(),
            surface.store()@ == builtin_profiles(),
            surface.weapon() == "AK47"@,
            surface.sensitivity().wf(),
            surface.sensitivity().value() == UNIT_SENSITIVITY,
    {
        ControlSurface::new()
    }
}

/// A run of a weapon that the store does not hold emits nothing, and ends
/// at its first tick.
pub proof fn lemma_unknown_weapon_emits_nothing(
    store: ProfileStore,
    name: Seq<char>,
    sensitivity: Sensitivity,
    n: nat,
)
    requires
        !store@.dom().contains(name),
    ensures
        plan_of(store.steps_of(name), sensitivity).len() == 0,
        Run::started(plan_of(store.steps_of(name), sensitivity)).ticks(n).emitted().len() == 0,
        n > 0 ==> !Run::started(plan_of(store.steps_of(name), sensitivity)).ticks(n).active,
{
    lemma_ticks(Run::started(plan_of(store.steps_of(name), sensitivity)), n);
}

} // verus!
