use rustbook::guessing::{parse_u32, Game, Turn, BEYOND_HIGHEST, LOWEST};

#[test]
fn parses_decimal_numbers() {
    assert_eq!(parse_u32("42"), Some(42));
    assert_eq!(parse_u32("+7"), Some(7));
    assert_eq!(parse_u32("007"), Some(7));
    assert_eq!(parse_u32("0"), Some(0));
    assert_eq!(parse_u32("4294967295"), Some(u32::MAX));
}

#[test]
fn rejects_what_is_not_a_u32() {
    for s in ["", "+", "-1", "4294967296", "99999999999", "12a", " 5", "5 ", "++1", "1.0"] {
        assert_eq!(parse_u32(s), None, "{}", s);
        assert_eq!(s.parse::<u32>().ok(), None, "{}", s);
    }
}

#[test]
fn parse_agrees_with_std() {
    for s in ["1", "10", "+100", "65535", "4294967295", "00"] {
        assert_eq!(parse_u32(s), s.parse::<u32>().ok(), "{}", s);
    }
}

#[test]
fn play_trims_the_line() {
    let game = Game::with_secret(50);
    assert_eq!(game.play("  50\n"), Turn::Win);
    assert_eq!(game.play("\t49 \r\n"), Turn::TooSmall);
    assert_eq!(game.play("51\n"), Turn::TooBig);
    assert_eq!(game.play("fifty\n"), Turn::NotANumber);
    assert_eq!(game.play("\n"), Turn::NotANumber);
}

#[test]
fn judge_compares_with_secret() {
    let game = Game::with_secret(7);
    assert_eq!(game.judge(None), Turn::NotANumber);
    assert_eq!(game.judge(Some(1)), Turn::TooSmall);
    assert_eq!(game.judge(Some(7)), Turn::Win);
    assert_eq!(game.judge(Some(100)), Turn::TooBig);
}

#[test]
fn drawn_secret_is_between_one_and_a_hundred() {
    for _ in 0..200 {
        let s = Game::start().secret();
        assert!(LOWEST <= s && s < BEYOND_HIGHEST);
    }
}
