use mp3_player::timefmt::{
    format_elapsed, help_message, paused_message, playing_message, resumed_message, u64_to_string,
};

#[test]
fn totals_render_as_minutes_and_padded_seconds() {
    assert_eq!(format_elapsed(0), "0:00");
    assert_eq!(format_elapsed(59), "0:59");
    assert_eq!(format_elapsed(60), "1:00");
    assert_eq!(format_elapsed(61), "1:01");
    assert_eq!(format_elapsed(3599), "59:59");
    assert_eq!(format_elapsed(3600), "60:00");
}

#[test]
fn no_hour_rollover_beyond_an_hour() {
    assert_eq!(format_elapsed(3661), "61:01");
    assert_eq!(format_elapsed(7325), "122:05");
}

#[test]
fn decimal_rendering_is_exact() {
    assert_eq!(u64_to_string(0), "0");
    assert_eq!(u64_to_string(7), "7");
    assert_eq!(u64_to_string(42), "42");
    assert_eq!(u64_to_string(12345), "12345");
    assert_eq!(u64_to_string(u64::MAX), "18446744073709551615");
}

#[test]
fn status_lines_carry_the_elapsed_total() {
    assert_eq!(paused_message(61), "Paused at 1:01");
    assert_eq!(paused_message(0), "Paused at 0:00");
    assert_eq!(resumed_message(), "Resumed");
}

#[test]
fn banner_names_the_file() {
    assert_eq!(playing_message("songs/a.mp3"), "Playing: songs/a.mp3");
    assert_eq!(help_message(), "Press SPACE to pause/resume, 'q' to quit");
}
