//! What a key does: the bindings of the three modes.
//!
//! The dictionary is shown with its index ([`Mode::Default`]) or without
//! ([`Mode::Mono`]); the card box has a mode of its own ([`Mode::Leitner`]).
//! A key press leads to a mode and to one command for the caller to carry out.

use vstd::prelude::*;

verus! {

/// What the screen shows.
#[derive(Clone, Copy, Debug, PartialEq, Eq, Structural)]
pub enum Mode {
    /// The dictionary with its index of words.
    Default,
    /// The dictionary's definition alone.
    Mono,
    /// The card box.
    Leitner,
}

/// A key, as far as the bindings tell keys apart.
#[derive(Clone, Copy, Debug, PartialEq, Eq, Structural)]
pub enum Key {
    Char(char),
    Up,
    Down,
    Left,
    Right,
    PageUp,
    PageDown,
    Enter,
    Backspace,
    /// Any other key.
    Other,
}

/// What is held down with a key.
#[derive(Clone, Copy, Debug, PartialEq, Eq, Structural)]
pub enum Modifier {
    /// Nothing is held down.
    Plain,
    Control,
    Alt,
    Shift,
    /// Any other modifier, or several at once.
    Other,
}

/// What a key press asks for.
#[derive(Clone, Copy, Debug, PartialEq, Eq, Structural)]
pub enum Command {
    /// Leave the program.
    Quit,
    /// Review the selected card, then look for the next card that is due.
    Review { success: bool },
    /// Show the dictionary again, at the word that is selected there.
    ShowDictionary,
    /// Show the card box, at the first card that is due, with its help text.
    ShowCards,
    /// Switch between the dictionary with and without its index.
    ToggleIndex,
    /// Move the selection in the card box.
    MoveCard { by: i32 },
    /// Move the selection in the dictionary's index.
    MoveWord { by: i32 },
    /// Scroll the definition by one row.
    Scroll { down: bool },
    /// Show the definition of the selected card.
    ShowCardDefinition,
    /// Copy the definition to the clipboard.
    CopyDefinition,
    /// Add the selected word to the card box.
    AddCard,
    /// Go to the next or the previous dictionary and look the input up there.
    StepDictionary { forward: bool },
    /// Look the input up.
    Lookup,
    /// Delete the last character of the input.
    DeleteChar,
    /// Delete the last word of the input.
    DeleteWord,
    /// Append a character to the input.
    Type { c: char },
    /// The key is not bound.
    Nothing,
}

/// What a key does in the card box.
pub open spec fn card_binding(key: Key, modifier: Modifier) -> (Mode, Command) {
    match (key, modifier) {
        (Key::Char('c'), Modifier::Control) => (Mode::Leitner, Command::Quit),
        (Key::Char('y'), Modifier::Plain) => (Mode::Leitner, Command::Review { success: true }),
        (Key::Char('n'), Modifier::Plain) => (Mode::Leitner, Command::Review { success: false }),
        (Key::Char('l'), Modifier::Alt) => (Mode::Default, Command::ShowDictionary),
        (Key::Char('m'), Modifier::Alt) => (Mode::Mono, Command::ShowDictionary),
        (Key::Up, Modifier::Plain) => (Mode::Leitner, Command::MoveCard { by: (-1) as i32 }),
        (Key::Down, Modifier::Plain) => (Mode::Leitner, Command::MoveCard { by: 1 }),
        (Key::PageDown, Modifier::Plain) => (Mode::Leitner, Command::Scroll { down: true }),
        (Key::PageUp, Modifier::Plain) => (Mode::Leitner, Command::Scroll { down: false }),
        (Key::Enter, Modifier::Plain) => (Mode::Leitner, Command::ShowCardDefinition),
        (Key::Char(' '), Modifier::Plain) => (Mode::Leitner, Command::ShowCardDefinition),
        _ => (Mode::Leitner, Command::Nothing),
    }
}

/// What a key does in the dictionary, shown in `mode`. Copying to the
/// clipboard is bound only where there is a clipboard. A character that is
/// bound to nothing else is typed, whatever is held down with it.
pub open spec fn dictionary_binding(mode: Mode, key: Key, modifier: Modifier, clipboard: bool) -> (
    Mode,
    Command,
) {
    match (key, modifier) {
        (Key::Char('c'), Modifier::Control) => (mode, Command::Quit),
        (Key::Char('y'), Modifier::Control) if clipboard => (mode, Command::CopyDefinition),
        (Key::Char('m'), Modifier::Alt) => (
            if mode == Mode::Mono {
                Mode::Default
            } else {
                Mode::Mono
            },
            Command::ToggleIndex,
        ),
        (Key::Char('l'), Modifier::Alt) => (Mode::Leitner, Command::ShowCards),
        (Key::Char('`'), Modifier::Plain) => (mode, Command::AddCard),
        (Key::Up, Modifier::Plain) => (mode, Command::MoveWord { by: (-1) as i32 }),
        (Key::Down, Modifier::Plain) => (mode, Command::MoveWord { by: 1 }),
        (Key::Up, Modifier::Shift) => (mode, Command::MoveWord { by: (-10) as i32 }),
        (Key::Down, Modifier::Shift) => (mode, Command::MoveWord { by: 10 }),
        (Key::Left, Modifier::Plain) => (mode, Command::StepDictionary { forward: false }),
        (Key::Right, Modifier::Plain) => (mode, Command::StepDictionary { forward: true }),
        (Key::PageDown, Modifier::Plain) => (mode, Command::Scroll { down: true }),
        (Key::PageUp, Modifier::Plain) => (mode, Command::Scroll { down: false }),
        (Key::Enter, Modifier::Plain) => (mode, Command::Lookup),
        (Key::Backspace, Modifier::Plain) => (mode, Command::DeleteChar),
        (Key::Backspace, Modifier::Alt) => (mode, Command::DeleteWord),
        (Key::Char(c), _) => (mode, Command::Type { c }),
        _ => (mode, Command::Nothing),
    }
}

/// The mode that a key press leads to and the command it asks for.
pub open spec fn binding(mode: Mode, key: Key, modifier: Modifier, clipboard: bool) -> (
    Mode,
    Command,
) {
    if mode == Mode::Leitner {
        card_binding(key, modifier)
    } else {
        dictionary_binding(mode, key, modifier, clipboard)
    }
}

/// The mode at the start: the dictionary with its index where there are
/// several dictionaries to choose from, and without it else.
pub fn initial_mode(dictionaries: usize) -> (mode: Mode)
    ensures
        mode == if dictionaries > 1 {
            Mode::Default
        } else {
            Mode::Mono
        },
{
    if dictionaries > 1 {
        Mode::Default
    } else {
        Mode::Mono
    }
}

/// The mode that a key press leads to and the command it asks for.
///
/// `clipboard` says whether there is a clipboard to copy to.
pub fn on_key(mode: Mode, key: Key, modifier: Modifier, clipboard: bool) -> (r: (Mode, Command))
    ensures
        r == binding(mode, key, modifier, clipboard),
{
    match mode {
        Mode::Leitner => on_card_key(key, modifier),
        _ => on_dictionary_key(mode, key, modifier, clipboard),
    }
}

/// What a key does in the card box.
fn on_card_key(key: Key, modifier: Modifier) -> (r: (Mode, Command))
    ensures
        r == card_binding(key, modifier),
{
    let command = match modifier {
        Modifier::Plain => match key {
            Key::Char('y') => Command::Review { success: true },
            Key::Char('n') => Command::Review { success: false },
            Key::Up => Command::MoveCard { by: -1 },
            Key::Down => Command::MoveCard { by: 1 },
            Key::PageDown => Command::Scroll { down: true },
            Key::PageUp => Command::Scroll { down: false },
            Key::Enter | Key::Char(' ') => Command::ShowCardDefinition,
            _ => Command::Nothing,
        },
        Modifier::Control => match key {
            Key::Char('c') => Command::Quit,
            _ => Command::Nothing,
        },
        Modifier::Alt => match key {
            Key::Char('l') => {
                return (Mode::Default, Command::ShowDictionary);
            },
            Key::Char('m') => {
                return (Mode::Mono, Command::ShowDictionary);
            },
            _ => Command::Nothing,
        },
        _ => Command::Nothing,
    };
    (Mode::Leitner, command)
}

/// What a key does in the dictionary, shown in `mode`.
fn on_dictionary_key(mode: Mode, key: Key, modifier: Modifier, clipboard: bool) -> (r: (
    Mode,
    Command,
))
    ensures
        r == dictionary_binding(mode, key, modifier, clipboard),
{
    let bound: Option<(Mode, Command)> = match modifier {
        Modifier::Plain => match key {
            Key::Char('`') => Some((mode, Command::AddCard)),
            Key::Up => Some((mode, Command::MoveWord { by: -1 })),
            Key::Down => Some((mode, Command::MoveWord { by: 1 })),
            Key::Left => Some((mode, Command::StepDictionary { forward: false })),
            Key::Right => Some((mode, Command::StepDictionary { forward: true })),
            Key::PageDown => Some((mode, Command::Scroll { down: true })),
            Key::PageUp => Some((mode, Command::Scroll { down: false })),
            Key::Enter => Some((mode, Command::Lookup)),
            Key::Backspace => Some((mode, Command::DeleteChar)),
            _ => None,
        },
        Modifier::Control => match key {
            Key::Char('c') => Some((mode, Command::Quit)),
            Key::Char('y') => if clipboard {
                Some((mode, Command::CopyDefinition))
            } else {
                None
            },
            _ => None,
        },
        Modifier::Alt => match key {
            Key::Char('m') => Some(
                (
                    match mode {
                        Mode::Mono => Mode::Default,
                        _ => Mode::Mono,
                    },
                    Command::ToggleIndex,
                ),
            ),
            Key::Char('l') => Some((Mode::Leitner, Command::ShowCards)),
            Key::Backspace => Some((mode, Command::DeleteWord)),
            _ => None,
        },
        Modifier::Shift => match key {
            Key::Up => Some((mode, Command::MoveWord { by: -10 })),
            Key::Down => Some((mode, Command::MoveWord { by: 10 })),
            _ => None,
        },
        Modifier::Other => None,
    };
    match bound {
        Some(bound) => bound,
        None => match key {
            Key::Char(c) => (mode, Command::Type { c }),
            _ => (mode, Command::Nothing),
        },
    }
}

/// The key that leaves the program does so in every mode, and no key but
/// the two that switch to the dictionary or to the card box leads from one of
/// them to the other.
pub proof fn lemma_quit_and_mode_switches(
    mode: Mode,
    key: Key,
    modifier: Modifier,
    clipboard: bool,
)
    ensures
        binding(mode, Key::Char('c'), Modifier::Control, clipboard) == (mode, Command::Quit),
        (binding(mode, key, modifier, clipboard).0 == Mode::Leitner) != (mode == Mode::Leitner)
            ==> modifier == Modifier::Alt && (key == Key::Char('l') || key == Key::Char('m')),
        binding(mode, key, modifier, clipboard).1 == Command::Nothing ==> binding(
            mode,
            key,
            modifier,
            clipboard,
        ).0 == mode,
{
}

} // verus!
