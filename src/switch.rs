use vstd::prelude::*;
use vstd::string::*;

use crate::shell::{
    double_quote_escaped, escape_double_quotes, escape_single_quotes, single_quote_escaped,
};

verus! {

/// One way of making a device the system's default output.
#[derive(Clone, Copy, Debug, PartialEq, Eq, Structural)]
pub enum Strategy {
    /// The operating system's own endpoint-management call.
    Native,
    /// The optional AudioDeviceCmdlets PowerShell module.
    AudioDeviceCmdlets,
    /// The optional SoundVolumeView utility.
    SoundVolumeView,
    /// A WMI sound-device query, matching the name as a substring.
    WmiSoundDevice,
}

/// What one attempt of a strategy reported.
#[derive(Clone, Copy, Debug, PartialEq, Eq, Structural)]
pub enum AttemptResult {
    /// The switch was made, or its command was launched.
    Success,
    /// The mechanism is not present on this system.
    Unavailable,
    /// The mechanism is present but did not work.
    Failed,
}

/// How a switch attempt ended.
#[derive(Clone, Copy, Debug, PartialEq, Eq, Structural)]
pub enum SwitchOutcome {
    /// The named strategy succeeded.
    Switched(Strategy),
    /// Every strategy was tried and none succeeded.
    Exhausted,
}

/// The number of strategies in the chain.
pub const STRATEGY_COUNT: usize = 4;

/// The strategy tried at position `i` of the chain.
pub open spec fn strategy_at(i: int) -> Strategy {
    if i <= 0 {
        Strategy::Native
    } else if i == 1 {
        Strategy::AudioDeviceCmdlets
    } else if i == 2 {
        Strategy::SoundVolumeView
    } else {
        Strategy::WmiSoundDevice
    }
}

/// The strategy at position `i` of the chain, in order of preference.
pub fn strategy_order(i: usize) -> (r: Option<Strategy>)
    ensures
        r == (if i < STRATEGY_COUNT {
            Some(strategy_at(i as int))
        } else {
            None
        }),
{
    if i == 0 {
        Some(Strategy::Native)
    } else if i == 1 {
        Some(Strategy::AudioDeviceCmdlets)
    } else if i == 2 {
        Some(Strategy::SoundVolumeView)
    } else if i == 3 {
        Some(Strategy::WmiSoundDevice)
    } else {
        None
    }
}

pub const CMDLETS_PREFIX: &'static str = "if (Get-Command Get-AudioDevice -ErrorAction SilentlyContinue) { Get-AudioDevice -List | Where-Object { $_.Name -eq '";

pub const CMDLETS_SUFFIX: &'static str = "' } | Set-AudioDevice }";

pub const SOUND_VOLUME_VIEW_PREFIX: &'static str = "if (Test-Path 'C:\\Windows\\SoundVolumeView.exe') { C:\\Windows\\SoundVolumeView.exe /SetDefault \"";

pub const SOUND_VOLUME_VIEW_SUFFIX: &'static str = "\" all }";

pub const WMI_PREFIX: &'static str = "$devices = Get-WmiObject -Class Win32_SoundDevice; foreach ($device in $devices) { if ($device.Name -like '*";

pub const WMI_SUFFIX: &'static str = "*') { $device.SetDefault() } }";

/// The PowerShell command that a strategy runs for the device `name`, with the
/// name escaped for the quotes it stands in; the native strategy runs none.
pub open spec fn shell_command_text(strategy: Strategy, name: Seq<char>) -> Option<Seq<char>> {
    match strategy {
        Strategy::Native => None,
        Strategy::AudioDeviceCmdlets => Some(
            CMDLETS_PREFIX@ + single_quote_escaped(name) + CMDLETS_SUFFIX@,
        ),
        Strategy::SoundVolumeView => Some(
            SOUND_VOLUME_VIEW_PREFIX@ + double_quote_escaped(name) + SOUND_VOLUME_VIEW_SUFFIX@,
        ),
        Strategy::WmiSoundDevice => Some(
            WMI_PREFIX@ + single_quote_escaped(name) + WMI_SUFFIX@,
        ),
    }
}

fn enclose(prefix: &str, body: &str, suffix: &str) -> (r: String)
    ensures
        r@ == prefix@ + body@ + suffix@,
{
    let mut r = String::from_str(prefix);
    r.append(body);
    r.append(suffix);
    r
}

/// The PowerShell command that `strategy` runs to make `device_name` the
/// default device, or `None` for the native strategy, which runs no command.
pub fn shell_command(strategy: Strategy, device_name: &str) -> (r: Option<String>)
    ensures
        match r {
            Some(c) => shell_command_text(strategy, device_name@) == Some(c@),
            None => shell_command_text(strategy, device_name@) is None,
        },
{
    match strategy {
        Strategy::Native => None,
        Strategy::AudioDeviceCmdlets => {
            let name = escape_single_quotes(device_name);
            Some(enclose(CMDLETS_PREFIX, name.as_str(), CMDLETS_SUFFIX))
        },
        Strategy::SoundVolumeView => {
            let name = escape_double_quotes(device_name);
            Some(enclose(SOUND_VOLUME_VIEW_PREFIX, name.as_str(), SOUND_VOLUME_VIEW_SUFFIX))
        },
        Strategy::WmiSoundDevice => {
            let name = escape_single_quotes(device_name);
            Some(enclose(WMI_PREFIX, name.as_str(), WMI_SUFFIX))
        },
    }
}

/// What a switch in progress is, as Verus sees it.
pub ghost struct SwitchView {
    pub device_idx: nat,
    pub device_name: Seq<char>,
    pub attempted: nat,
    pub outcome: Option<SwitchOutcome>,
}

impl SwitchView {
    /// The counts and the outcome agree: an open switch has strategies left,
    /// an exhausted one has tried them all, a successful one names the last
    /// strategy tried.
    pub open spec fn well_formed(self) -> bool {
        &&& self.attempted <= STRATEGY_COUNT
        &&& self.outcome is None ==> self.attempted < STRATEGY_COUNT
        &&& self.outcome == Some(SwitchOutcome::Exhausted) ==> self.attempted
            == STRATEGY_COUNT
        &&& forall|s: Strategy|
            self.outcome == Some(SwitchOutcome::Switched(s)) ==> self.attempted >= 1 && s
                == strategy_at(self.attempted - 1)
    }
}

/// A switch before any strategy is tried.
pub open spec fn switch_started(device_idx: nat, device_name: Seq<char>) -> SwitchView {
    SwitchView { device_idx, device_name, attempted: 0, outcome: None }
}

/// The switch after the current strategy reported `result`: a success ends it,
/// a failure moves on to the next strategy, or ends it as exhausted after the
/// last one. A finished switch does not change.
pub open spec fn switch_step(v: SwitchView, result: AttemptResult) -> SwitchView {
    if v.outcome is Some {
        v
    } else {
        let n = v.attempted + 1;
        SwitchView {
            attempted: n,
            outcome: if result == AttemptResult::Success {
                Some(SwitchOutcome::Switched(strategy_at(v.attempted as int)))
            } else if n >= STRATEGY_COUNT {
                Some(SwitchOutcome::Exhausted)
            } else {
                None
            },
            ..v
        }
    }
}

/// The switch after the strategies reported `results`, in order.
pub open spec fn switch_run(v: SwitchView, results: Seq<AttemptResult>) -> SwitchView
    decreases results.len(),
{
    if results.len() == 0 {
        v
    } else {
        switch_step(switch_run(v, results.drop_last()), results.last())
    }
}

/// One attempt to make a device the default output: the fallback chain of
/// strategies, tried in order until one succeeds or all have failed.
pub struct DeviceSwitch {
    device_idx: usize,
    device_name: String,
    attempted: usize,
    outcome: Option<SwitchOutcome>,
}

impl View for DeviceSwitch {
    type V = SwitchView;

    closed spec fn view(&self) -> SwitchView {
        SwitchView {
            device_idx: self.device_idx as nat,
            device_name: self.device_name@,
            attempted: self.attempted as nat,
            outcome: self.outcome,
        }
    }
}

impl DeviceSwitch {
    /// Starts a switch to the device at `device_idx`, named `device_name`.
    pub fn new(device_idx: usize, device_name: String) -> (r: Self)
        ensures
            r@ == switch_started(device_idx as nat, device_name@),
            r@.well_formed(),
    {
        DeviceSwitch { device_idx, device_name, attempted: 0, outcome: None }
    }

    /// The index of the device in the list it was chosen from.
    pub fn device_idx(&self) -> (r: usize)
        ensures
            r as nat == self@.device_idx,
    {
        self.device_idx
    }

    /// The name of the device to make the default.
    pub fn device_name(&self) -> (r: &String)
        ensures
            r@ == self@.device_name,
    {
        &self.device_name
    }

    /// How many strategies have been tried.
    pub fn attempts(&self) -> (r: usize)
        ensures
            r as nat == self@.attempted,
    {
        self.attempted
    }

    /// How the switch ended, or `None` while strategies remain to be tried.
    pub fn outcome(&self) -> (r: Option<SwitchOutcome>)
        ensures
            r == self@.outcome,
    {
        self.outcome
    }

    /// The strategy to try next, or `None` once the switch has ended.
    pub fn next_strategy(&self) -> (r: Option<Strategy>)
        requires
            self@.well_formed(),
        ensures
            r == (if self@.outcome is None {
                Some(strategy_at(self@.attempted as int))
            } else {
                None
            }),
    {
        if self.outcome.is_none() {
            strategy_order(self.attempted)
        } else {
            None
        }
    }

    /// The command to launch for the next strategy, when it is a shell one.
    pub fn next_command(&self) -> (r: Option<String>)
        requires
            self@.well_formed(),
        ensures
            match r {
                Some(c) => self@.outcome is None && shell_command_text(
                    strategy_at(self@.attempted as int),
                    self@.device_name,
                ) == Some(c@),
                None => self@.outcome is Some || shell_command_text(
                    strategy_at(self@.attempted as int),
                    self@.device_name,
                ) is None,
            },
    {
        match self.next_strategy() {
            Some(s) => shell_command(s, self.device_name.as_str()),
            None => None,
        }
    }

    /// Records what the current strategy reported.
    pub fn record(&mut self, result: AttemptResult)
        requires
            old(self)@.well_formed(),
            old(self)@.outcome is None,
        ensures
            final(self)@ == switch_step(old(self)@, result),
            final(self)@.well_formed(),
    {
        let strategy = strategy_order(self.attempted);
        self.attempted = self.attempted + 1;
        if result == AttemptResult::Success {
            match strategy {
                Some(s) => {
                    self.outcome = Some(SwitchOutcome::Switched(s));
                },
                None => {},
            }
        } else if self.attempted >= STRATEGY_COUNT {
            self.outcome = Some(SwitchOutcome::Exhausted);
        }
    }
}

/// A switch is reported exhausted only once every strategy of the chain has
/// been tried, each without success; while it is still open, every strategy
/// tried so far has failed or was unavailable.
pub proof fn lemma_exhausted_only_after_every_strategy(
    device_idx: nat,
    device_name: Seq<char>,
    results: Seq<AttemptResult>,
)
    ensures
        ({
            let v = switch_run(switch_started(device_idx, device_name), results);
            &&& v.well_formed()
            &&& v.attempted <= results.len()
            &&& v.outcome is None ==> v.attempted == results.len() && forall|i: int|
                0 <= i < results.len() ==> results[i] != AttemptResult::Success
            &&& v.outcome == Some(SwitchOutcome::Exhausted) ==> {
                &&& v.attempted == STRATEGY_COUNT
                &&& results.len() >= STRATEGY_COUNT
                &&& forall|i: int|
                    0 <= i < STRATEGY_COUNT ==> results[i] != AttemptResult::Success
            }
        }),
    decreases results.len(),
{
    if results.len() > 0 {
        let prev = results.drop_last();
        lemma_exhausted_only_after_every_strategy(device_idx, device_name, prev);
        let p = switch_run(switch_started(device_idx, device_name), prev);
        assert forall|i: int| 0 <= i < prev.len() implies #[trigger] prev[i] == results[i] by {}
        if p.outcome is Some {
            if p.outcome == Some(SwitchOutcome::Exhausted) {
                assert forall|i: int|
                    0 <= i < STRATEGY_COUNT implies results[i] != AttemptResult::Success by {
                    assert(prev[i] == results[i]);
                }
            }
        } else if results.last() != AttemptResult::Success {
            assert forall|i: int|
                0 <= i < results.len() implies results[i] != AttemptResult::Success by {
                if i < prev.len() {
                    assert(prev[i] == results[i]);
                }
            }
        }
    }
}

} // verus!
