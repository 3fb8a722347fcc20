//! Control of the system's audio output: the device list and its selection,
//! the volume and mute state of the master session, and the ordered chain of
//! strategies that makes a device the default one.
//!
//! Everything here is state and decision logic. The caller performs the
//! operating-system work (enumerating devices, reading and writing the session,
//! launching shell commands) and hands the results in as plain values.

mod control;
mod display;
mod shell;
mod switch;
mod volume;

pub use control::{
    collect_device_names, lemma_refresh_keeps_selection_in_bounds, lemma_set_volume_then_get,
    lemma_toggle_mute_twice, AudioApp, ControlError, SessionState,
};
pub use display::{display_name, DISPLAY_NAME_KEPT, DISPLAY_NAME_MAX, NO_DEVICE_LABEL};
pub use shell::{
    escape_double_quotes, escape_single_quotes, lemma_single_quote_escape_reads_back,
};
pub use switch::{
    lemma_exhausted_only_after_every_strategy, shell_command, strategy_order, AttemptResult,
    DeviceSwitch, Strategy, SwitchOutcome, STRATEGY_COUNT,
};
pub use volume::{clamp_volume, volume_percent, DEFAULT_VOLUME, FULL_VOLUME};
