use n1_encoder::action::{
    brightness_command, command_outcome, custom_command, media_seek_command,
    media_track_command, rotation_command, scroll_command, volume_command, ActionMode,
    ActionSettings, SHELL, SHELL_COMMAND_FLAG,
};

fn settings(mode: ActionMode, cw: &str, ccw: &str) -> ActionSettings {
    ActionSettings { mode, cw_command: cw.to_string(), ccw_command: ccw.to_string() }
}

#[test]
fn commands_run_through_the_shell() {
    assert_eq!(SHELL, "sh");
    assert_eq!(SHELL_COMMAND_FLAG, "-c");
}

#[test]
fn default_mode_is_volume() {
    assert_eq!(ActionMode::default(), ActionMode::Volume);
}

#[test]
fn default_settings_are_volume_without_custom_commands() {
    let s = ActionSettings::default();
    assert_eq!(s.mode, ActionMode::Volume);
    assert_eq!(s.cw_command, "");
    assert_eq!(s.ccw_command, "");
}

#[test]
fn volume_goes_up_clockwise_and_down_otherwise() {
    assert_eq!(volume_command(1), "amixer sset Master 5%+");
    assert_eq!(volume_command(-1), "amixer sset Master 5%-");
}

#[test]
fn track_goes_forward_clockwise_and_back_otherwise() {
    assert_eq!(media_track_command(1), "playerctl next");
    assert_eq!(media_track_command(-1), "playerctl previous");
}

#[test]
fn seek_goes_forward_clockwise_and_back_otherwise() {
    assert_eq!(media_seek_command(1), "playerctl position 5+");
    assert_eq!(media_seek_command(-1), "playerctl position 5-");
}

#[test]
fn scroll_goes_down_clockwise_and_up_otherwise() {
    assert_eq!(scroll_command(1), "xdotool click --repeat 3 5");
    assert_eq!(scroll_command(-1), "xdotool click --repeat 3 4");
}

#[test]
fn brightness_goes_up_clockwise_and_down_otherwise() {
    assert_eq!(brightness_command(1), "brightnessctl set 10%+");
    assert_eq!(brightness_command(-1), "brightnessctl set 10%-");
}

#[test]
fn direction_zero_counts_as_counter_clockwise() {
    assert_eq!(volume_command(0), "amixer sset Master 5%-");
    assert_eq!(media_track_command(0), "playerctl previous");
    assert_eq!(media_seek_command(0), "playerctl position 5-");
    assert_eq!(scroll_command(0), "xdotool click --repeat 3 4");
    assert_eq!(brightness_command(0), "brightnessctl set 10%-");
    let s = settings(ActionMode::Custom, "cw", "ccw");
    assert_eq!(custom_command(0, &s), Some("ccw".to_string()));
}

#[test]
fn only_the_sign_of_the_direction_counts() {
    for direction in [1i8, 2, 64, i8::MAX] {
        assert_eq!(volume_command(direction), volume_command(1));
        assert_eq!(scroll_command(direction), scroll_command(1));
    }
    for direction in [i8::MIN, -64, -2, -1] {
        assert_eq!(volume_command(direction), volume_command(-1));
        assert_eq!(scroll_command(direction), scroll_command(-1));
    }
}

#[test]
fn custom_command_follows_the_direction() {
    let s = settings(ActionMode::Custom, "notify-send cw", "notify-send ccw");
    assert_eq!(custom_command(1, &s), Some("notify-send cw".to_string()));
    assert_eq!(custom_command(-1, &s), Some("notify-send ccw".to_string()));
}

#[test]
fn empty_custom_command_runs_nothing() {
    let s = settings(ActionMode::Custom, "", "echo back");
    assert_eq!(custom_command(1, &s), None);
    assert_eq!(custom_command(-1, &s), Some("echo back".to_string()));
    let s = settings(ActionMode::Custom, "echo on", "");
    assert_eq!(custom_command(1, &s), Some("echo on".to_string()));
    assert_eq!(custom_command(-1, &s), None);
}

#[test]
fn custom_command_does_not_depend_on_the_mode() {
    let s = settings(ActionMode::Volume, "a", "b");
    assert_eq!(custom_command(1, &s), Some("a".to_string()));
}

#[test]
fn rotation_with_default_settings_changes_the_volume() {
    let s = ActionSettings::default();
    let up = rotation_command(1, &s).unwrap();
    assert_eq!(up.line, "amixer sset Master 5%+");
    assert!(up.strict);
    let down = rotation_command(-1, &s).unwrap();
    assert_eq!(down.line, "amixer sset Master 5%-");
    assert!(down.strict);
}

#[test]
fn rotation_dispatches_on_the_mode() {
    let table = [
        (ActionMode::Volume, "amixer sset Master 5%+", "amixer sset Master 5%-", true),
        (ActionMode::MediaTrack, "playerctl next", "playerctl previous", false),
        (ActionMode::MediaSeek, "playerctl position 5+", "playerctl position 5-", false),
        (ActionMode::Scroll, "xdotool click --repeat 3 5", "xdotool click --repeat 3 4", true),
        (ActionMode::Brightness, "brightnessctl set 10%+", "brightnessctl set 10%-", true),
        (ActionMode::Custom, "my cw", "my ccw", true),
    ];
    for (mode, cw, ccw, strict) in table {
        let s = settings(mode, "my cw", "my ccw");
        let up = rotation_command(1, &s).unwrap();
        assert_eq!(up.line, cw);
        assert_eq!(up.strict, strict);
        let down = rotation_command(-1, &s).unwrap();
        assert_eq!(down.line, ccw);
        assert_eq!(down.strict, strict);
    }
}

#[test]
fn rotation_in_custom_mode_without_command_runs_nothing() {
    let s = settings(ActionMode::Custom, "", "");
    assert!(rotation_command(1, &s).is_none());
    assert!(rotation_command(-1, &s).is_none());
}

#[test]
fn built_in_modes_ignore_the_custom_commands() {
    let s = settings(ActionMode::Scroll, "", "");
    assert_eq!(rotation_command(1, &s).unwrap().line, "xdotool click --repeat 3 5");
}

#[test]
fn successful_run_is_ok() {
    assert_eq!(command_outcome(true, true, b"warning"), Ok(()));
    assert_eq!(command_outcome(false, true, b"warning"), Ok(()));
}

#[test]
fn failed_strict_run_is_an_error_with_the_error_stream() {
    assert_eq!(
        command_outcome(true, false, b"amixer: Unable to find simple control\n"),
        Err("amixer: Unable to find simple control\n".to_string())
    );
}

#[test]
fn failed_strict_run_with_silent_error_stream_has_an_empty_message() {
    assert_eq!(command_outcome(true, false, b""), Err(String::new()));
}

#[test]
fn failed_lenient_run_is_ok() {
    assert_eq!(command_outcome(false, false, b"No players found"), Ok(()));
}

#[test]
fn error_stream_that_is_not_utf8_is_read_with_replacements() {
    assert_eq!(command_outcome(true, false, &[b'a', 0xff, b'b']), Err("a\u{fffd}b".to_string()));
    assert_eq!(
        command_outcome(true, false, &[0xe2, 0x82, 0xac, 0xc3]),
        Err("\u{20ac}\u{fffd}".to_string())
    );
}
