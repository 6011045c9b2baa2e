use oxidite_core::instance::{parse_log_line, GameStatus};
use oxidite_core::text::{decimal_i64, decimal_u64};

fn ip_of(line: &str) -> String {
    match parse_log_line(line) {
        Some(GameStatus::Multiplayer { ip }) => ip,
        other => panic!("unexpected {:?}", other),
    }
}

#[test]
fn singleplayer_lines() {
    assert!(matches!(parse_log_line("[Server thread/INFO]: Stopping @ 12:00"), Some(GameStatus::Singleplayer)));
    assert!(matches!(
        parse_log_line("[Server thread/INFO]: Saving chunks for level 'ServerLevel[New World]'/minecraft:overworld"),
        Some(GameStatus::Singleplayer)
    ));
    assert!(matches!(parse_log_line("Stopping @ Connecting to x"), Some(GameStatus::Singleplayer)));
}

#[test]
fn multiplayer_lines() {
    assert_eq!(ip_of("[Client thread/INFO]: Connecting to localhost, 25565"), "localhost");
    assert_eq!(ip_of("Connecting to  mc.example.org  , 25565"), "mc.example.org");
    assert_eq!(ip_of("Connecting to 10.0.0.1"), "10.0.0.1");
    assert_eq!(ip_of("Connecting to"), "Unknown");
    assert_eq!(ip_of("Connecting to a Connecting to b, 1"), "a");
    assert_eq!(ip_of("Connecting to \u{3000}x\u{a0},"), "x");
}

#[test]
fn menu_and_other_lines() {
    assert!(matches!(parse_log_line("Returning to meta-menu"), Some(GameStatus::Menu)));
    assert!(parse_log_line("[Render thread/INFO]: Loaded 7 advancements").is_none());
    assert!(parse_log_line("").is_none());
}

#[test]
fn decimals() {
    assert_eq!(decimal_u64(0), "0");
    assert_eq!(decimal_u64(1234567890), "1234567890");
    assert_eq!(decimal_u64(u64::MAX), u64::MAX.to_string());
    assert_eq!(decimal_i64(-45), "-45");
    assert_eq!(decimal_i64(i64::MIN), i64::MIN.to_string());
}
