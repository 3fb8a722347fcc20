use audio_control::{
    clamp_volume, display_name, escape_double_quotes, escape_single_quotes, shell_command, strategy_order,
    volume_percent, AttemptResult, DeviceSwitch, Strategy, SwitchOutcome, FULL_VOLUME,
    STRATEGY_COUNT,
};

#[test]
fn single_quotes_are_doubled() {
    assert_eq!(escape_single_quotes("O'Reilly USB Audio"), "O''Reilly USB Audio");
    assert_eq!(escape_single_quotes("''"), "''''");
    assert_eq!(escape_single_quotes(""), "");
    assert_eq!(escape_single_quotes("plain"), "plain");
}

#[test]
fn double_quotes_are_backslash_escaped() {
    assert_eq!(escape_double_quotes("Say \"hi\""), "Say \\\"hi\\\"");
    assert_eq!(escape_double_quotes("O'Reilly"), "O'Reilly");
}

#[test]
fn quoted_name_in_cmdlets_command_is_escaped() {
    let cmd = shell_command(Strategy::AudioDeviceCmdlets, "O'Reilly USB Audio").unwrap();
    assert_eq!(
        cmd,
        "if (Get-Command Get-AudioDevice -ErrorAction SilentlyContinue) { Get-AudioDevice -List | Where-Object { $_.Name -eq 'O''Reilly USB Audio' } | Set-AudioDevice }"
    );
    assert!(!cmd.contains("'O'R"));
}

#[test]
fn quoted_name_in_wmi_command_is_escaped() {
    let cmd = shell_command(Strategy::WmiSoundDevice, "O'Reilly USB Audio").unwrap();
    assert_eq!(
        cmd,
        "$devices = Get-WmiObject -Class Win32_SoundDevice; foreach ($device in $devices) { if ($device.Name -like '*O''Reilly USB Audio*') { $device.SetDefault() } }"
    );
}

#[test]
fn quoted_name_in_sound_volume_view_command_is_escaped() {
    let cmd = shell_command(Strategy::SoundVolumeView, "Big \"Box\"").unwrap();
    assert_eq!(
        cmd,
        "if (Test-Path 'C:\\Windows\\SoundVolumeView.exe') { C:\\Windows\\SoundVolumeView.exe /SetDefault \"Big \\\"Box\\\"\" all }"
    );
}

#[test]
fn native_strategy_has_no_command() {
    assert_eq!(shell_command(Strategy::Native, "Speakers"), None);
}

#[test]
fn strategies_come_in_order() {
    assert_eq!(STRATEGY_COUNT, 4);
    assert_eq!(strategy_order(0), Some(Strategy::Native));
    assert_eq!(strategy_order(1), Some(Strategy::AudioDeviceCmdlets));
    assert_eq!(strategy_order(2), Some(Strategy::SoundVolumeView));
    assert_eq!(strategy_order(3), Some(Strategy::WmiSoundDevice));
    assert_eq!(strategy_order(4), None);
}

#[test]
fn exhausted_only_after_fourth_strategy() {
    let mut sw = DeviceSwitch::new(0, "Speakers".to_string());
    assert_eq!(sw.next_strategy(), Some(Strategy::Native));
    assert_eq!(sw.next_command(), None);
    // The native path fails and no optional tool is present.
    sw.record(AttemptResult::Failed);
    assert_eq!(sw.next_strategy(), Some(Strategy::AudioDeviceCmdlets));
    sw.record(AttemptResult::Unavailable);
    assert_eq!(sw.next_strategy(), Some(Strategy::SoundVolumeView));
    sw.record(AttemptResult::Unavailable);
    assert_eq!(sw.outcome(), None);
    assert_eq!(sw.attempts(), 3);
    assert_eq!(sw.next_strategy(), Some(Strategy::WmiSoundDevice));
    let cmd = sw.next_command().unwrap();
    assert!(cmd.contains("-like '*Speakers*'"));
    sw.record(AttemptResult::Failed);
    assert_eq!(sw.outcome(), Some(SwitchOutcome::Exhausted));
    assert_eq!(sw.attempts(), 4);
    assert_eq!(sw.next_strategy(), None);
    assert_eq!(sw.next_command(), None);
}

#[test]
fn first_success_ends_chain() {
    let mut sw = DeviceSwitch::new(3, "O'Reilly USB Audio".to_string());
    sw.record(AttemptResult::Failed);
    let cmd = sw.next_command().unwrap();
    assert!(cmd.contains("'O''Reilly USB Audio'"));
    sw.record(AttemptResult::Success);
    assert_eq!(
        sw.outcome(),
        Some(SwitchOutcome::Switched(Strategy::AudioDeviceCmdlets))
    );
    assert_eq!(sw.attempts(), 2);
    assert_eq!(sw.next_strategy(), None);
}

#[test]
fn native_success_switches_at_once() {
    let mut sw = DeviceSwitch::new(0, "Speakers".to_string());
    sw.record(AttemptResult::Success);
    assert_eq!(sw.outcome(), Some(SwitchOutcome::Switched(Strategy::Native)));
    assert_eq!(sw.attempts(), 1);
}

#[test]
fn clamp_volume_values() {
    assert_eq!(clamp_volume(-1), 0);
    assert_eq!(clamp_volume(0), 0);
    assert_eq!(clamp_volume(1234), 1234);
    assert_eq!(clamp_volume(FULL_VOLUME as i64), FULL_VOLUME);
    assert_eq!(clamp_volume(15000), FULL_VOLUME);
    assert_eq!(clamp_volume(i64::MAX), FULL_VOLUME);
    assert_eq!(clamp_volume(i64::MIN), 0);
}

#[test]
fn volume_percent_rounds_down() {
    assert_eq!(volume_percent(0), 0);
    assert_eq!(volume_percent(5000), 50);
    assert_eq!(volume_percent(9999), 99);
    assert_eq!(volume_percent(FULL_VOLUME), 100);
}

#[test]
fn display_name_cuts_long_names() {
    assert_eq!(display_name("Speakers"), "Speakers");
    // Exactly the longest name shown whole.
    assert_eq!(display_name("abcdefghijklmnopqrstuvwxy"), "abcdefghijklmnopqrstuvwxy");
    assert_eq!(display_name("abcdefghijklmnopqrstuvwxyz"), "abcdefghijklmnopqrstuv...");
    assert_eq!(display_name(""), "");
}

#[test]
fn display_name_counts_bytes_and_cuts_between_characters() {
    // Ten three-byte characters: 30 bytes, and byte 22 falls inside one.
    let euros = "€€€€€€€€€€";
    assert_eq!(euros.len(), 30);
    assert_eq!(display_name(euros), "€€€€€€€...");
    // Eight of them are 24 bytes: short enough to show whole.
    assert_eq!(display_name("€€€€€€€€"), "€€€€€€€€");
    // Nine characters but 27 bytes: shortened although it has few characters.
    assert_eq!(display_name("€€€€€€€€€"), "€€€€€€€...");
    // Byte 22 falls right after a whole character.
    assert_eq!(display_name("ab€€€€€€€€"), "ab€€€€€€...");
    // Two-byte characters: 22 is a boundary.
    let accents = "éééééééééééééé";
    assert_eq!(accents.len(), 28);
    assert_eq!(display_name(accents), "ééééééééééé...");
}
