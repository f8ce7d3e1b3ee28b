use qonos::bridge::state::{bridge_id, extract_track_id};
use qonos::connect::{map_sonos_state, position_ms, PlayingState};
use qonos::num::{bits_u32, low_i32};
use qonos::sonos::PlayState;
use qonos::text::{i32_to_string, parse_i32, parse_unsigned, strip_prefix, to_chars, u64_to_string};

#[test]
fn numbers_are_written_in_decimal() {
    assert_eq!(u64_to_string(0), "0");
    assert_eq!(u64_to_string(10), "10");
    assert_eq!(u64_to_string(18446744073709551615), "18446744073709551615");
    assert_eq!(i32_to_string(-2147483648), "-2147483648");
    assert_eq!(i32_to_string(2147483647), "2147483647");
}

#[test]
fn numbers_are_read_back() {
    for n in [0u64, 9, 10, 4294967295, 18446744073709551615] {
        assert_eq!(parse_unsigned(&u64_to_string(n), u64::MAX), Some(n));
    }
    for n in [0i32, -1, 7, i32::MIN, i32::MAX] {
        assert_eq!(parse_i32(&i32_to_string(n)), Some(n));
    }
}

#[test]
fn numbers_are_read_as_the_standard_library_reads_them() {
    let texts = [
        "", "+", "-", "+5", "-5", "--5", "++5", "+-5", " 5", "5 ", "05", "1e3", "\u{665}",
        "65535", "65536", "2147483647", "2147483648", "-2147483648", "-2147483649", "-0",
        "18446744073709551615", "18446744073709551616", "000000000000000000000000001",
    ];
    for s in texts {
        assert_eq!(parse_unsigned(s, u64::MAX), s.parse::<u64>().ok(), "{s}");
        assert_eq!(parse_unsigned(s, 65535), s.parse::<u16>().ok().map(u64::from), "{s}");
        assert_eq!(parse_i32(s), s.parse::<i32>().ok(), "{s}");
    }
}

#[test]
fn a_prefix_is_stripped() {
    assert_eq!(strip_prefix("track:1", "track:"), Some("1"));
    assert_eq!(strip_prefix("track:", "track:"), Some(""));
    assert_eq!(strip_prefix("tracks", "track:"), None);
    assert_eq!(strip_prefix("tr", "track:"), None);
    assert_eq!(strip_prefix("\u{e9}t\u{e9}", "\u{e9}"), Some("t\u{e9}"));
    assert_eq!(to_chars("\u{e9}t"), vec!['\u{e9}', 't']);
}

#[test]
fn track_ids_are_taken_from_object_ids() {
    assert_eq!(extract_track_id("track:363336060"), Some(363336060));
    assert_eq!(extract_track_id("track:18446744073709551615"), Some(u64::MAX));
    assert_eq!(extract_track_id("track:18446744073709551616"), None);
    assert_eq!(extract_track_id("track:"), None);
    assert_eq!(extract_track_id("album:5"), None);
    assert_eq!(extract_track_id("5"), None);
    assert_eq!(extract_track_id("track:x5"), None);
}

#[test]
fn bridge_ids_are_the_first_four_bytes() {
    let mut uuid = [0u8; 16];
    uuid[0] = 0xde;
    uuid[1] = 0xad;
    uuid[2] = 0x00;
    uuid[3] = 0x0f;
    assert_eq!(bridge_id(&uuid), "dead000f");
    uuid[4] = 1;
    assert_eq!(bridge_id(&uuid), "dead000f");
    uuid[3] = 0xf0;
    assert_eq!(bridge_id(&uuid), "dead00f0");
}

#[test]
fn casts_keep_the_low_bits() {
    assert_eq!(low_i32(4294967296), 0);
    assert_eq!(low_i32(4294967295), -1);
    assert_eq!(low_i32(2147483648), i32::MIN);
    assert_eq!(low_i32(18446744073709551615), -1);
    assert_eq!(bits_u32(-1), 4294967295);
    assert_eq!(bits_u32(5), 5);
    assert_eq!(position_ms(None), 0);
    assert_eq!(position_ms(Some(-2)), 4294967294);
}

#[test]
fn player_states_are_mapped() {
    assert_eq!(map_sonos_state(PlayState::Playing), PlayingState::Playing);
    assert_eq!(map_sonos_state(PlayState::Paused), PlayingState::Paused);
    assert_eq!(map_sonos_state(PlayState::Idle), PlayingState::Stopped);
    assert_eq!(map_sonos_state(PlayState::Buffering), PlayingState::Stopped);
}
