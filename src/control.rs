use vstd::prelude::*;

use crate::display::{display_name, display_text, NO_DEVICE_LABEL};
use crate::switch::{DeviceSwitch, SwitchOutcome};
use crate::volume::{clamp_level, clamp_volume, percent_of, volume_percent, DEFAULT_VOLUME, FULL_VOLUME};

verus! {

/// What the master session reported when it was read.
#[derive(Clone, Copy, Debug, PartialEq, Eq, Structural)]
pub struct SessionState {
    /// The volume level, in `0..=FULL_VOLUME`.
    pub volume: u32,
    pub muted: bool,
}

/// The failures that the control surface reports to its caller.
#[derive(Clone, Copy, Debug, PartialEq, Eq, Structural)]
pub enum ControlError {
    /// The master session could not be resolved.
    SessionUnavailable,
    /// Every strategy for switching the default device failed.
    SwitchExhausted,
}

/// The state of the control surface, as Verus sees it.
pub ghost struct AudioModel {
    /// The output devices' names, in enumeration order.
    pub devices: Seq<Seq<char>>,
    /// The index of the selected device.
    pub selected: Option<nat>,
    /// The last known volume level.
    pub volume: nat,
    /// The last known mute flag.
    pub muted: bool,
    /// Whether the master session resolved at the last contact.
    pub session_available: bool,
}

impl AudioModel {
    /// The selection points into the list and the volume is a valid level.
    pub open spec fn well_formed(self) -> bool {
        &&& self.selected matches Some(i) ==> i < self.devices.len()
        &&& self.volume <= FULL_VOLUME
    }
}

/// The names that an enumeration yielded, in order, without the devices
/// whose name could not be read.
pub open spec fn resolved_names(found: Seq<Option<String>>) -> Seq<Seq<char>>
    decreases found.len(),
{
    if found.len() == 0 {
        Seq::empty()
    } else {
        let rest = resolved_names(found.drop_last());
        match found.last() {
            Some(n) => rest.push(n@),
            None => rest,
        }
    }
}

/// The device list that an enumeration gives: empty when it failed.
pub open spec fn enumerated_names(enumerated: Option<Vec<Option<String>>>) -> Seq<Seq<char>> {
    match enumerated {
        Some(found) => resolved_names(found@),
        None => Seq::empty(),
    }
}

/// The names held by a list of strings.
pub open spec fn names_view(names: Seq<String>) -> Seq<Seq<char>> {
    names.map_values(|s: String| s@)
}

/// `i` is the first position of `name` in `names`.
pub open spec fn is_first_index(names: Seq<Seq<char>>, name: Seq<char>, i: nat) -> bool {
    &&& i < names.len()
    &&& names[i as int] == name
    &&& forall|j: int| 0 <= j < i ==> names[j] != name
}

/// The first position of `name` in `names`, if it occurs.
pub open spec fn first_index_of(names: Seq<Seq<char>>, name: Seq<char>) -> Option<nat> {
    if exists|i: nat| is_first_index(names, name, i) {
        Some(choose|i: nat| is_first_index(names, name, i))
    } else {
        None
    }
}

/// The state after the device list was replaced by `devices`. The selection
/// stays only when its index is still inside the new list and the same device
/// name stands there; otherwise it is cleared, so a list that shrank to or
/// below the selected index always clears it.
pub open spec fn devices_refreshed(m: AudioModel, devices: Seq<Seq<char>>) -> AudioModel {
    AudioModel {
        devices,
        selected: match m.selected {
            Some(i) => if i < devices.len() && i < m.devices.len() && devices[i as int]
                == m.devices[i as int] {
                Some(i)
            } else {
                None
            },
            None => None,
        },
        ..m
    }
}

/// The state after the session was read: a live reading replaces the cached
/// values, a missing session keeps them.
pub open spec fn session_refreshed(m: AudioModel, live: Option<SessionState>) -> AudioModel {
    match live {
        Some(s) => AudioModel {
            volume: s.volume as nat,
            muted: s.muted,
            session_available: true,
            ..m
        },
        None => AudioModel { session_available: false, ..m },
    }
}

/// The state after a request for volume `requested`, where `resolvable` says
/// whether the session could be found to apply it.
pub open spec fn volume_set(m: AudioModel, requested: int, resolvable: bool) -> AudioModel {
    if resolvable {
        AudioModel { volume: clamp_level(requested) as nat, session_available: true, ..m }
    } else {
        AudioModel { session_available: false, ..m }
    }
}

/// The state after a mute toggle, where `fresh` is the mute flag just read
/// from the session, if it could be found.
pub open spec fn mute_toggled(m: AudioModel, fresh: Option<bool>) -> AudioModel {
    match fresh {
        Some(f) => AudioModel { muted: !f, session_available: true, ..m },
        None => AudioModel { session_available: false, ..m },
    }
}

/// The volume that a read of the session gives, if it resolves.
pub open spec fn volume_reading(m: AudioModel) -> Option<nat> {
    if m.session_available {
        Some(m.volume)
    } else {
        None
    }
}

/// The mute flag that a read of the session gives, if it resolves.
pub open spec fn mute_reading(m: AudioModel) -> Option<bool> {
    if m.session_available {
        Some(m.muted)
    } else {
        None
    }
}

/// The names that an enumeration yielded: devices whose name could not be
/// read are dropped, and a failed enumeration gives an empty list.
pub fn collect_device_names(enumerated: Option<Vec<Option<String>>>) -> (r: Vec<String>)
    ensures
        names_view(r@) == enumerated_names(enumerated),
{
    let mut names: Vec<String> = Vec::new();
    match &enumerated {
        Some(found) => {
            let mut i: usize = 0;
            while i < found.len()
                invariant
                    i <= found@.len(),
                    names_view(names@) == resolved_names(found@.subrange(0, i as int)),
                decreases found@.len() - i,
            {
                let ghost before = names@;
                match &found[i] {
                    Some(n) => {
                        names.push(n.clone());
                        assert(names_view(names@) =~= names_view(before).push(n@));
                    },
                    None => {},
                }
                assert(found@.subrange(0, i + 1).drop_last() =~= found@.subrange(0, i as int));
                i += 1;
            }
            assert(found@.subrange(0, found@.len() as int) =~= found@);
        },
        None => {
            assert(names_view(names@) =~= Seq::<Seq<char>>::empty());
        },
    }
    names
}

/// The index of the first name in `names` equal to `name`.
fn position_of(names: &Vec<String>, name: &String) -> (r: Option<usize>)
    ensures
        match r {
            Some(i) => first_index_of(names_view(names@), name@) == Some(i as nat),
            None => first_index_of(names_view(names@), name@) is None,
        },
{
    let ghost v = names_view(names@);
    let mut i: usize = 0;
    while i < names.len()
        invariant
            i <= names@.len(),
            v == names_view(names@),
            forall|j: int| 0 <= j < i ==> v[j] != name@,
        decreases names@.len() - i,
    {
        if names[i] == *name {
            proof {
                assert(is_first_index(v, name@, i as nat));
                let k = choose|k: nat| is_first_index(v, name@, k);
                assert(k == i) by {
                    if k < i {
                        assert(v[k as int] != name@);
                    } else if k > i {
                        assert(v[i as int] == name@);
                    }
                }
            }
            return Some(i);
        }
        i += 1;
    }
    proof {
        assert forall|k: nat| !is_first_index(v, name@, k) by {
            if k < v.len() {
                assert(v[k as int] != name@);
            }
        }
    }
    None
}

/// The control surface: the output devices with the selected one, and the
/// volume and mute state of the master session.
///
/// The caller talks to the operating system and hands each result in; the
/// methods decide what changes and what is to be applied.
pub struct AudioApp {
    device_names: Vec<String>,
    selected_device_idx: Option<usize>,
    volume: u32,
    is_muted: bool,
    session_available: bool,
}

impl View for AudioApp {
    type V = AudioModel;

    closed spec fn view(&self) -> AudioModel {
        AudioModel {
            devices: names_view(self.device_names@),
            selected: match self.selected_device_idx {
                Some(i) => Some(i as nat),
                None => None,
            },
            volume: self.volume as nat,
            muted: self.is_muted,
            session_available: self.session_available,
        }
    }
}

impl AudioApp {
    /// Builds the control surface from a device enumeration, the name of the
    /// system's default device and a reading of the master session. The
    /// default device is selected by name; without a live session the volume
    /// is one half and the output is not muted.
    pub fn new(
        enumerated: Option<Vec<Option<String>>>,
        default_name: Option<String>,
        live: Option<SessionState>,
    ) -> (r: Self)
        requires
            live matches Some(s) ==> s.volume <= FULL_VOLUME,
        ensures
            r@.well_formed(),
            r@.devices == enumerated_names(enumerated),
            r@.selected == match default_name {
                Some(d) => first_index_of(r@.devices, d@),
                None => None,
            },
            match live {
                Some(s) => r@.volume == s.volume && r@.muted == s.muted && r@.session_available,
                None => r@.volume == DEFAULT_VOLUME && !r@.muted && !r@.session_available,
            },
    {
        let device_names = collect_device_names(enumerated);
        let selected_device_idx = match &default_name {
            Some(d) => position_of(&device_names, d),
            None => None,
        };
        let app = match live {
            Some(s) => AudioApp {
                device_names,
                selected_device_idx,
                volume: s.volume,
                is_muted: s.muted,
                session_available: true,
            },
            None => AudioApp {
                device_names,
                selected_device_idx,
                volume: DEFAULT_VOLUME,
                is_muted: false,
                session_available: false,
            },
        };
        assert(app@.devices.len() == device_names@.len());
        app
    }

    /// The names of the output devices, in enumeration order.
    pub fn device_names(&self) -> (r: &Vec<String>)
        ensures
            names_view(r@) == self@.devices,
    {
        &self.device_names
    }

    /// The index of the selected device, if any.
    pub fn selected_device_idx(&self) -> (r: Option<usize>)
        ensures
            match r {
                Some(i) => self@.selected == Some(i as nat),
                None => self@.selected is None,
            },
    {
        self.selected_device_idx
    }

    /// The label of the selected device, shortened for display, or a prompt
    /// to choose one when none is selected.
    pub fn selected_label(&self) -> (r: String)
        requires
            self@.well_formed(),
        ensures
            r@ == match self@.selected {
                Some(i) => display_text(self@.devices[i as int]),
                None => NO_DEVICE_LABEL@,
            },
    {
        match self.selected_device_idx {
            Some(idx) => display_name(self.device_names[idx].as_str()),
            None => String::from_str(NO_DEVICE_LABEL),
        }
    }

    /// The last known volume level.
    pub fn volume(&self) -> (r: u32)
        ensures
            r as nat == self@.volume,
    {
        self.volume
    }

    /// The last known mute flag.
    pub fn is_muted(&self) -> (r: bool)
        ensures
            r == self@.muted,
    {
        self.is_muted
    }

    /// The last known volume as a whole percentage, for display.
    pub fn volume_percent(&self) -> (r: u32)
        requires
            self@.well_formed(),
        ensures
            r as int == percent_of(self@.volume as int),
    {
        volume_percent(self.volume)
    }

    /// Replaces the device list by a new enumeration. The selection is kept
    /// only when the same device name stands at the same index in the new
    /// list, and is cleared otherwise: in particular whenever the list shrank
    /// to or below the selected index.
    pub fn refresh_devices(&mut self, enumerated: Option<Vec<Option<String>>>)
        requires
            old(self)@.well_formed(),
        ensures
            final(self)@ == devices_refreshed(old(self)@, enumerated_names(enumerated)),
            final(self)@.well_formed(),
    {
        let devices = collect_device_names(enumerated);
        match self.selected_device_idx {
            Some(idx) => {
                if !(idx < devices.len() && devices[idx] == self.device_names[idx]) {
                    self.selected_device_idx = None;
                }
            },
            None => {},
        }
        self.device_names = devices;
        proof {
            lemma_refresh_keeps_selection_in_bounds(old(self)@, enumerated_names(enumerated));
        }
    }

    /// Takes in a fresh reading of the master session. A missing session
    /// keeps the cached values, so that the display does not jump.
    pub fn update_volume(&mut self, live: Option<SessionState>)
        requires
            old(self)@.well_formed(),
            live matches Some(s) ==> s.volume <= FULL_VOLUME,
        ensures
            final(self)@ == session_refreshed(old(self)@, live),
            final(self)@.well_formed(),
    {
        match live {
            Some(s) => {
                self.volume = s.volume;
                self.is_muted = s.muted;
                self.session_available = true;
            },
            None => {
                self.session_available = false;
            },
        }
    }

    /// The session's volume level, or `SessionUnavailable` when the session
    /// could not be resolved at the last contact.
    pub fn get_volume(&self) -> (r: Result<u32, ControlError>)
        ensures
            match r {
                Ok(v) => volume_reading(self@) == Some(v as nat),
                Err(e) => volume_reading(self@) is None && e == ControlError::SessionUnavailable,
            },
    {
        if self.session_available {
            Ok(self.volume)
        } else {
            Err(ControlError::SessionUnavailable)
        }
    }

    /// The session's mute flag, or `SessionUnavailable` when the session
    /// could not be resolved at the last contact.
    pub fn get_mute(&self) -> (r: Result<bool, ControlError>)
        ensures
            match r {
                Ok(m) => mute_reading(self@) == Some(m),
                Err(e) => mute_reading(self@) is None && e == ControlError::SessionUnavailable,
            },
    {
        if self.session_available {
            Ok(self.is_muted)
        } else {
            Err(ControlError::SessionUnavailable)
        }
    }

    /// Takes in a volume change. The level written is always
    /// `clamp_volume(requested)`, so the caller writes that level to the
    /// session first and then reports in `resolvable` whether the session was
    /// found and took the write. Only a confirmed write changes the cached
    /// volume; the applied level is returned.
    pub fn set_volume(&mut self, requested: i64, resolvable: bool) -> (r: Result<u32, ControlError>)
        requires
            old(self)@.well_formed(),
        ensures
            final(self)@ == volume_set(old(self)@, requested as int, resolvable),
            final(self)@.well_formed(),
            match r {
                Ok(v) => resolvable && v as int == clamp_level(requested as int),
                Err(e) => !resolvable && e == ControlError::SessionUnavailable,
            },
    {
        if resolvable {
            let level = clamp_volume(requested);
            self.volume = level;
            self.session_available = true;
            Ok(level)
        } else {
            self.session_available = false;
            Err(ControlError::SessionUnavailable)
        }
    }

    /// Takes in a mute toggle. `fresh` is the flag just read from the
    /// session, never the cache, and the new state is its negation; `None`
    /// means the session could not be read or did not take the write. Returns
    /// the new flag, or `SessionUnavailable`.
    pub fn toggle_mute(&mut self, fresh: Option<bool>) -> (r: Result<bool, ControlError>)
        requires
            old(self)@.well_formed(),
        ensures
            final(self)@ == mute_toggled(old(self)@, fresh),
            final(self)@.well_formed(),
            match r {
                Ok(m) => fresh == Some(!m),
                Err(e) => fresh is None && e == ControlError::SessionUnavailable,
            },
    {
        match fresh {
            Some(f) => {
                let new_mute_state = !f;
                self.is_muted = new_mute_state;
                self.session_available = true;
                Ok(new_mute_state)
            },
            None => {
                self.session_available = false;
                Err(ControlError::SessionUnavailable)
            },
        }
    }

    /// Starts making the device at `device_idx` the default output. An index
    /// outside the list starts nothing.
    pub fn select_device(&self, device_idx: usize) -> (r: Option<DeviceSwitch>)
        ensures
            match r {
                Some(sw) => {
                    &&& device_idx < self@.devices.len()
                    &&& sw@.device_idx == device_idx
                    &&& sw@.device_name == self@.devices[device_idx as int]
                    &&& sw@.attempted == 0
                    &&& sw@.outcome is None
                    &&& sw@.well_formed()
                },
                None => device_idx >= self@.devices.len(),
            },
    {
        if device_idx >= self.device_names.len() {
            return None;
        }
        let device_name = self.device_names[device_idx].clone();
        Some(DeviceSwitch::new(device_idx, device_name))
    }

    /// Takes in how a switch ended. A success selects the device, provided
    /// the list still holds it at the same place; an exhausted chain leaves
    /// the selection alone and reports `SwitchExhausted`.
    pub fn complete_selection(&mut self, switch: &DeviceSwitch) -> (r: Result<(), ControlError>)
        requires
            old(self)@.well_formed(),
            switch@.outcome is Some,
        ensures
            final(self)@.well_formed(),
            switch@.outcome == Some(SwitchOutcome::Exhausted) ==> r == Err::<(), ControlError>(
                ControlError::SwitchExhausted,
            ) && final(self)@ == old(self)@,
            switch@.outcome != Some(SwitchOutcome::Exhausted) ==> r is Ok && final(self)@ == (
            if switch@.device_idx < old(self)@.devices.len() && old(self)@.devices[switch@.device_idx as int]
                == switch@.device_name {
                AudioModel { selected: Some(switch@.device_idx), ..old(self)@ }
            } else {
                old(self)@
            }),
    {
        match switch.outcome() {
            Some(SwitchOutcome::Exhausted) => Err(ControlError::SwitchExhausted),
            _ => {
                let idx = switch.device_idx();
                if idx < self.device_names.len() && self.device_names[idx] == *switch.device_name() {
                    self.selected_device_idx = Some(idx);
                }
                Ok(())
            },
        }
    }
}

/// Whatever the earlier selection and however the list shrank, a refresh
/// leaves the selection either empty or pointing into the new list; a list
/// that shrank to or below the selected index clears it.
pub proof fn lemma_refresh_keeps_selection_in_bounds(m: AudioModel, devices: Seq<Seq<char>>)
    ensures
        devices_refreshed(m, devices).selected matches Some(i) ==> i < devices.len(),
        m.selected matches Some(i) && devices.len() <= i ==> devices_refreshed(
            m,
            devices,
        ).selected is None,
        m.well_formed() ==> devices_refreshed(m, devices).well_formed(),
{
}

/// On a session that resolves, setting a volume and reading it back gives the
/// requested volume clamped into the valid range.
pub proof fn lemma_set_volume_then_get(m: AudioModel, requested: int)
    ensures
        volume_reading(volume_set(m, requested, true)) == Some(clamp_level(requested) as nat),
{
}

/// Toggling the mute state twice in a row, each time from the flag that the
/// session then holds, gives back the flag it started from.
pub proof fn lemma_toggle_mute_twice(m: AudioModel, fresh: bool)
    ensures
        ({
            let once = mute_toggled(m, Some(fresh));
            let twice = mute_toggled(once, mute_reading(once));
            twice.muted == fresh && mute_reading(twice) == Some(fresh)
        }),
{
}

} // verus!
