use vstd::prelude::*;

verus! {

/// What direction to scroll in
#[derive(PartialEq, Eq, Structural, Clone, Copy, Debug)]
pub enum ScrollDirection {
    /// Scroll up
    Up,
    /// Scroll down
    Down,
}

/// Actions to control bang
#[derive(PartialEq, Eq, Structural, Clone, Copy, Debug)]
pub enum Actions {
    /// Exit bang
    Exit,
    /// Kill command
    Kill,
    /// Restart command
    Restart,
    /// Select previous command
    Previous,
    /// Select next command
    Next,
    /// Scroll the output. Direction and multiple
    Scroll(ScrollDirection, usize),
    /// Go to Help Screen
    Help,
}

/// The key of a key press, as far as bang tells keys apart.
#[derive(PartialEq, Eq, Structural, Clone, Copy, Debug)]
pub enum Key {
    /// The up arrow
    Up,
    /// The down arrow
    Down,
    /// A key that types a character
    Char(char),
    /// Any other key
    Other,
}

/// The modifier bit of the shift key (the terminal's own encoding).
pub const SHIFT: u8 = 0b0000_0001;

/// The modifier bit of the control key (the terminal's own encoding).
pub const CONTROL: u8 = 0b0000_0010;

/// A key press: the key and the set of modifier keys held, one bit each.
#[derive(PartialEq, Eq, Structural, Clone, Copy, Debug)]
pub struct KeyInput {
    pub code: Key,
    pub modifiers: u8,
}

/// The action that a key press asks for, if any.
///
/// With exactly shift held the arrows scroll by one line, with exactly
/// control held by ten; with any other set of modifiers the arrows select
/// the previous or next command and `q`, `r`, `k`, `?` exit, restart, kill
/// and open the help screen.
pub open spec fn key_action(key: KeyInput) -> Option<Actions> {
    if key.modifiers == SHIFT {
        match key.code {
            Key::Up => Some(Actions::Scroll(ScrollDirection::Up, 1)),
            Key::Down => Some(Actions::Scroll(ScrollDirection::Down, 1)),
            _ => None,
        }
    } else if key.modifiers == CONTROL {
        match key.code {
            Key::Up => Some(Actions::Scroll(ScrollDirection::Up, 10)),
            Key::Down => Some(Actions::Scroll(ScrollDirection::Down, 10)),
            _ => None,
        }
    } else {
        match key.code {
            Key::Char('q') => Some(Actions::Exit),
            Key::Char('r') => Some(Actions::Restart),
            Key::Char('k') => Some(Actions::Kill),
            Key::Char('?') => Some(Actions::Help),
            Key::Up => Some(Actions::Previous),
            Key::Down => Some(Actions::Next),
            _ => None,
        }
    }
}

impl Actions {
    /// The action for a key press; `Err(())` for a key press that bang ignores.
    pub fn try_from(key: KeyInput) -> (res: Result<Actions, ()>)
        ensures
            match key_action(key) {
                Some(a) => res == Ok::<Actions, ()>(a),
                None => res == Err::<Actions, ()>(()),
            },
    {
        if key.modifiers == SHIFT {
            let action = match key.code {
                Key::Up => Actions::Scroll(ScrollDirection::Up, 1),
                Key::Down => Actions::Scroll(ScrollDirection::Down, 1),
                _ => return Err(()),
            };
            return Ok(action);
        } else if key.modifiers == CONTROL {
            let action = match key.code {
                Key::Up => Actions::Scroll(ScrollDirection::Up, 10),
                Key::Down => Actions::Scroll(ScrollDirection::Down, 10),
                _ => return Err(()),
            };
            return Ok(action);
        }
        let action = match key.code {
            Key::Char('q') => Actions::Exit,
            Key::Char('r') => Actions::Restart,
            Key::Char('k') => Actions::Kill,
            Key::Char('?') => Actions::Help,
            Key::Up => Actions::Previous,
            Key::Down => Actions::Next,
            _ => return Err(()),
        };
        Ok(action)
    }
}

/// The action that the opposite arrow asks for: previous and next swap,
/// and scrolling keeps its amount and turns around.
pub open spec fn mirrored(a: Actions) -> Actions {
    match a {
        Actions::Previous => Actions::Next,
        Actions::Next => Actions::Previous,
        Actions::Scroll(ScrollDirection::Up, n) => Actions::Scroll(ScrollDirection::Down, n),
        Actions::Scroll(ScrollDirection::Down, n) => Actions::Scroll(ScrollDirection::Up, n),
        other => other,
    }
}

/// Whatever modifiers are held, the down arrow asks for the mirror image of
/// what the up arrow asks for, and one is ignored exactly when the other is.
pub proof fn lemma_arrows_mirror(modifiers: u8)
    ensures
        key_action(KeyInput { code: Key::Down, modifiers }) == match key_action(
            KeyInput { code: Key::Up, modifiers },
        ) {
            Some(a) => Some(mirrored(a)),
            None => None::<Actions>,
        },
{
}

/// Only an arrow scrolls, in its own direction, and only with exactly shift
/// (one line) or exactly control (ten lines) held.
pub proof fn lemma_scroll_source(key: KeyInput, dir: ScrollDirection, amount: usize)
    requires
        key_action(key) == Some(Actions::Scroll(dir, amount)),
    ensures
        (key.code == Key::Up && dir == ScrollDirection::Up) || (key.code == Key::Down && dir
            == ScrollDirection::Down),
        key.modifiers == SHIFT || key.modifiers == CONTROL,
        key.modifiers == SHIFT ==> amount == 1,
        key.modifiers == CONTROL ==> amount == 10,
{
}

/// With exactly shift or exactly control held, no character key does anything.
pub proof fn lemma_characters_ignore_scroll_modifiers(c: char, modifiers: u8)
    requires
        modifiers == SHIFT || modifiers == CONTROL,
    ensures
        key_action(KeyInput { code: Key::Char(c), modifiers }) is None,
{
}

/// The keys that do something are the two arrows and `q`, `r`, `k`, `?`.
pub proof fn lemma_only_known_keys_act(key: KeyInput)
    requires
        key_action(key) is Some,
    ensures
        key.code == Key::Up || key.code == Key::Down || key.code == Key::Char('q')
            || key.code == Key::Char('r') || key.code == Key::Char('k') || key.code == Key::Char(
            '?',
        ),
{
}

} // verus!
