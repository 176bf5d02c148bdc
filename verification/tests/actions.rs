use bang::actions::{Actions, Key, KeyInput, ScrollDirection, CONTROL, SHIFT};

fn key(code: Key, modifiers: u8) -> KeyInput {
    KeyInput { code, modifiers }
}

#[test]
fn plain_keys_map_to_their_actions() {
    assert_eq!(Actions::try_from(key(Key::Char('q'), 0)), Ok(Actions::Exit));
    assert_eq!(Actions::try_from(key(Key::Char('r'), 0)), Ok(Actions::Restart));
    assert_eq!(Actions::try_from(key(Key::Char('k'), 0)), Ok(Actions::Kill));
    assert_eq!(Actions::try_from(key(Key::Char('?'), 0)), Ok(Actions::Help));
    assert_eq!(Actions::try_from(key(Key::Up, 0)), Ok(Actions::Previous));
    assert_eq!(Actions::try_from(key(Key::Down, 0)), Ok(Actions::Next));
}

#[test]
fn shift_arrows_scroll_one_line() {
    assert_eq!(
        Actions::try_from(key(Key::Up, SHIFT)),
        Ok(Actions::Scroll(ScrollDirection::Up, 1))
    );
    assert_eq!(
        Actions::try_from(key(Key::Down, SHIFT)),
        Ok(Actions::Scroll(ScrollDirection::Down, 1))
    );
}

#[test]
fn control_arrows_scroll_ten_lines() {
    assert_eq!(
        Actions::try_from(key(Key::Up, CONTROL)),
        Ok(Actions::Scroll(ScrollDirection::Up, 10))
    );
    assert_eq!(
        Actions::try_from(key(Key::Down, CONTROL)),
        Ok(Actions::Scroll(ScrollDirection::Down, 10))
    );
}

#[test]
fn characters_with_shift_or_control_are_ignored() {
    assert_eq!(Actions::try_from(key(Key::Char('q'), SHIFT)), Err(()));
    assert_eq!(Actions::try_from(key(Key::Char('k'), CONTROL)), Err(()));
    assert_eq!(Actions::try_from(key(Key::Char('?'), SHIFT)), Err(()));
}

#[test]
fn other_modifier_sets_act_like_none() {
    // alt, or shift and control together, are neither "exactly shift" nor "exactly control"
    assert_eq!(Actions::try_from(key(Key::Up, SHIFT | CONTROL)), Ok(Actions::Previous));
    assert_eq!(Actions::try_from(key(Key::Char('q'), 0b100)), Ok(Actions::Exit));
}

#[test]
fn unknown_keys_are_ignored() {
    assert_eq!(Actions::try_from(key(Key::Char('x'), 0)), Err(()));
    assert_eq!(Actions::try_from(key(Key::Other, 0)), Err(()));
    assert_eq!(Actions::try_from(key(Key::Other, SHIFT)), Err(()));
    assert_eq!(Actions::try_from(key(Key::Char('Q'), 0)), Err(()));
}

#[test]
fn arrows_mirror_each_other() {
    for m in [0u8, SHIFT, CONTROL, SHIFT | CONTROL, 4, 8] {
        let up = Actions::try_from(key(Key::Up, m)).unwrap();
        let down = Actions::try_from(key(Key::Down, m)).unwrap();
        let mirrored = match up {
            Actions::Previous => Actions::Next,
            Actions::Scroll(ScrollDirection::Up, n) => Actions::Scroll(ScrollDirection::Down, n),
            other => other,
        };
        assert_eq!(down, mirrored);
    }
}
