use wgpu_native::logging::{
    logger_setup, map_log_level, parse_u32_bytes, parse_version, split_bytes, to_native_log_level,
    Level, LevelFilter,
};
use wgpu_native::native;

#[test]
fn version_with_a_leading_v_fills_the_high_bytes() {
    assert_eq!(parse_version("v4.1"), 0x04010000);
}

#[test]
fn version_keeps_only_four_parts() {
    assert_eq!(parse_version("5.4.3.2.1"), 0x05040302);
}

#[test]
fn version_of_an_empty_text_is_zero() {
    assert_eq!(parse_version(""), 0);
}

#[test]
fn version_parts_that_are_no_numbers_count_as_zero() {
    assert_eq!(parse_version("1.x.3"), 0x01000300);
    assert_eq!(parse_version("vv2.0.0.7"), 0x02000007);
    assert_eq!(parse_version("22.1.0"), 0x16010000);
}

#[test]
fn version_parts_wrap_into_the_number() {
    // 300 does not fit a byte: it is shifted into place and added, as the release build does.
    assert_eq!(parse_version("300"), 300u32 << 24);
    assert_eq!(parse_version("0.300"), 300u32 << 16);
}

#[test]
fn numbers_are_read_like_u32_from_str() {
    assert_eq!(parse_u32_bytes(b"42"), Some(42));
    assert_eq!(parse_u32_bytes(b"+7"), Some(7));
    assert_eq!(parse_u32_bytes(b"4294967295"), Some(u32::MAX));
    assert_eq!(parse_u32_bytes(b"4294967296"), None);
    assert_eq!(parse_u32_bytes(b""), None);
    assert_eq!(parse_u32_bytes(b"+"), None);
    assert_eq!(parse_u32_bytes(b"-1"), None);
    assert_eq!(parse_u32_bytes(b"1a"), None);
    for text in ["0", "17", "+3", "0099", "65536"] {
        assert_eq!(parse_u32_bytes(text.as_bytes()), text.parse::<u32>().ok());
    }
}

#[test]
fn splitting_matches_str_split() {
    for text in ["", ".", "a.b", "1..2", "v.1.", "abc"] {
        let ours: Vec<Vec<u8>> = split_bytes(text.as_bytes(), b'.');
        let std: Vec<Vec<u8>> = text.split('.').map(|p| p.as_bytes().to_vec()).collect();
        assert_eq!(ours, std);
    }
}

#[test]
fn log_levels_convert_both_ways() {
    assert_eq!(map_log_level(native::WGPULogLevel_Off), Ok(LevelFilter::Off));
    assert_eq!(map_log_level(native::WGPULogLevel_Warn), Ok(LevelFilter::Warn));
    assert_eq!(map_log_level(native::WGPULogLevel_Trace), Ok(LevelFilter::Trace));
    assert_eq!(map_log_level(99), Err(99));
    assert_eq!(to_native_log_level(Level::Error), native::WGPULogLevel_Error);
    assert_eq!(to_native_log_level(Level::Debug), native::WGPULogLevel_Debug);
}

#[test]
fn a_message_level_reads_back_as_its_filter() {
    for (level, filter) in [
        (Level::Error, LevelFilter::Error),
        (Level::Warn, LevelFilter::Warn),
        (Level::Info, LevelFilter::Info),
        (Level::Debug, LevelFilter::Debug),
        (Level::Trace, LevelFilter::Trace),
    ] {
        assert_eq!(map_log_level(to_native_log_level(level)), Ok(filter));
    }
}

#[test]
fn the_first_logger_registration_installs_and_raises_an_off_log() {
    let first = logger_setup(false, LevelFilter::Off);
    assert!(first.install_logger);
    assert_eq!(first.max_level, Some(LevelFilter::Warn));
    let first_with_level = logger_setup(false, LevelFilter::Info);
    assert!(first_with_level.install_logger);
    assert_eq!(first_with_level.max_level, None);
    let later = logger_setup(true, LevelFilter::Off);
    assert!(!later.install_logger);
    assert_eq!(later.max_level, None);
}

#[test]
fn version_pieces_below_256_are_its_bytes() {
    assert_eq!(parse_version("1.2.3.4"), 0x01020304);
    let version = parse_version("9.250.7");
    assert_eq!(version >> 24, 9);
    assert_eq!((version >> 16) & 0xFF, 250);
    assert_eq!((version >> 8) & 0xFF, 7);
    assert_eq!(version & 0xFF, 0);
}

#[test]
fn white_space_around_a_version_is_dropped() {
    assert_eq!(parse_version("  v4.1\n"), 0x04010000);
    assert_eq!(parse_version("\t5.4.3.2.1\r\n"), 0x05040302);
    assert_eq!(parse_version("\u{3000}v1.2\u{a0}"), 0x01020000);
    assert_eq!(parse_version("\u{2009}3\u{85}"), 0x03000000);
    // White space inside the text is kept, so that piece is no number.
    assert_eq!(parse_version("1. 2"), 0x01000000);
    for text in [" \u{1680}7.8\u{205f}\u{2028}", "\u{200a}\u{202f}9", "   "] {
        assert_eq!(parse_version(text), parse_version(text.trim()));
    }
}
