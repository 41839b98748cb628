//! Where a key press goes in the terminal client: the global quit, the
//! dialogs that swallow keys while open, the global character keys, and
//! the keys of the input and confirmation dialogs.

use vstd::prelude::*;
use crate::tui::app::page::{page_for_key, Page};

verus! {

/// A key, as far as the client tells keys apart.
#[derive(Debug, Clone, Copy, PartialEq, Eq, Structural)]
pub enum Key {
    Up,
    Down,
    Left,
    Right,
    Home,
    End,
    PageUp,
    PageDown,
    Backspace,
    Delete,
    Tab,
    Esc,
    Enter,
    Char(char),
    /// Any other key.
    Other,
}

/// The modifiers held with a key.
#[derive(Debug, Clone, Copy, PartialEq, Eq, Structural)]
pub enum Modifiers {
    /// No modifier.
    Plain,
    /// Control and nothing else.
    Control,
    /// Any other combination.
    Other,
}

/// Which dialogs are open.
#[derive(Debug, Clone, Copy, PartialEq, Eq, Structural)]
pub struct Overlays {
    pub help: bool,
    pub confirm: bool,
    pub input: bool,
    pub history: bool,
}

/// Where a key press goes.
#[derive(Debug, Clone, Copy, PartialEq, Eq, Structural)]
pub enum KeyRoute {
    /// Quit the client.
    Terminate,
    /// Close the help popup.
    CloseHelp,
    /// Hand the key to the confirmation dialog.
    Confirm,
    /// Hand the key to the input dialog.
    Input,
    /// Hand the key to the history view.
    History,
    /// A plain key for the current page.
    Page(Key),
    /// The key does nothing.
    Ignore,
}

/// Where a key press goes: Ctrl+C always quits; while help is shown only
/// `Esc` and `?` (closing it) count; otherwise an open confirmation, input
/// or history dialog, in that order, takes the key; else a key without
/// modifiers goes to the page.
pub open spec fn key_route(key: Key, mods: Modifiers, open: Overlays) -> KeyRoute {
    if mods == Modifiers::Control && key == Key::Char('c') {
        KeyRoute::Terminate
    } else if open.help {
        if mods == Modifiers::Plain && (key == Key::Esc || key == Key::Char('?')) {
            KeyRoute::CloseHelp
        } else {
            KeyRoute::Ignore
        }
    } else if open.confirm {
        KeyRoute::Confirm
    } else if open.input {
        KeyRoute::Input
    } else if open.history {
        KeyRoute::History
    } else if mods == Modifiers::Plain && key != Key::Other {
        KeyRoute::Page(key)
    } else {
        KeyRoute::Ignore
    }
}

/// Where a key press goes (see `key_route`).
pub fn route_key(key: Key, mods: Modifiers, open: Overlays) -> (r: KeyRoute)
    ensures
        r == key_route(key, mods, open),
{
    if mods == Modifiers::Control && key == Key::Char('c') {
        KeyRoute::Terminate
    } else if open.help {
        if mods == Modifiers::Plain && (key == Key::Esc || key == Key::Char('?')) {
            KeyRoute::CloseHelp
        } else {
            KeyRoute::Ignore
        }
    } else if open.confirm {
        KeyRoute::Confirm
    } else if open.input {
        KeyRoute::Input
    } else if open.history {
        KeyRoute::History
    } else if mods == Modifiers::Plain && key != Key::Other {
        KeyRoute::Page(key)
    } else {
        KeyRoute::Ignore
    }
}

/// What a character typed on a page does.
#[derive(Debug, Clone, Copy, PartialEq, Eq, Structural)]
pub enum CharRoute {
    /// `?`: show or hide the help popup.
    ToggleHelp,
    /// `q`: quit.
    Quit,
    /// `j`, `k`, `h`, `l`: move as the arrow keys do.
    Move(Key),
    /// `1`..`7`: switch to that page.
    SwitchPage(Page),
    /// Any other character, for the current page's own keys.
    PageChar(char),
    /// Nothing (the help popup is shown).
    Ignore,
}

/// What a typed character does: the global keys first, then, unless the
/// help popup is shown, the page's own keys.
pub open spec fn char_route(c: char, help_shown: bool) -> CharRoute {
    if c == '?' {
        CharRoute::ToggleHelp
    } else if c == 'q' {
        CharRoute::Quit
    } else if c == 'j' {
        CharRoute::Move(Key::Down)
    } else if c == 'k' {
        CharRoute::Move(Key::Up)
    } else if c == 'h' {
        CharRoute::Move(Key::Left)
    } else if c == 'l' {
        CharRoute::Move(Key::Right)
    } else if '1' <= c <= '7' {
        match page_for_key(c) {
            Some(p) => CharRoute::SwitchPage(p),
            None => CharRoute::Ignore,
        }
    } else if help_shown {
        CharRoute::Ignore
    } else {
        CharRoute::PageChar(c)
    }
}

/// What a typed character does (see `char_route`).
pub fn route_char(c: char, help_shown: bool) -> (r: CharRoute)
    ensures
        r == char_route(c, help_shown),
{
    if c == '?' {
        CharRoute::ToggleHelp
    } else if c == 'q' {
        CharRoute::Quit
    } else if c == 'j' {
        CharRoute::Move(Key::Down)
    } else if c == 'k' {
        CharRoute::Move(Key::Up)
    } else if c == 'h' {
        CharRoute::Move(Key::Left)
    } else if c == 'l' {
        CharRoute::Move(Key::Right)
    } else if '1' <= c && c <= '7' {
        match Page::from_key(c) {
            Some(p) => CharRoute::SwitchPage(p),
            None => CharRoute::Ignore,
        }
    } else if help_shown {
        CharRoute::Ignore
    } else {
        CharRoute::PageChar(c)
    }
}

/// What a key does in the input dialog.
#[derive(Debug, Clone, Copy, PartialEq, Eq, Structural)]
pub enum InputKey {
    /// Ctrl+U: empty the line.
    Clear,
    /// Esc: close without submitting.
    Cancel,
    /// Enter: close and submit the text.
    Submit,
    Backspace,
    Left,
    Right,
    /// Insert the character at the cursor.
    Insert(char),
    Ignore,
}

/// What a key does in the input dialog: Ctrl+U clears, other modified
/// keys do nothing, and plain keys edit, cancel or submit.
pub open spec fn input_key(key: Key, mods: Modifiers) -> InputKey {
    if mods == Modifiers::Control && key == Key::Char('u') {
        InputKey::Clear
    } else if mods != Modifiers::Plain {
        InputKey::Ignore
    } else {
        match key {
            Key::Esc => InputKey::Cancel,
            Key::Enter => InputKey::Submit,
            Key::Backspace => InputKey::Backspace,
            Key::Left => InputKey::Left,
            Key::Right => InputKey::Right,
            Key::Char(c) => InputKey::Insert(c),
            _ => InputKey::Ignore,
        }
    }
}

/// What a key does in the input dialog (see `input_key`).
pub fn route_input_key(key: Key, mods: Modifiers) -> (r: InputKey)
    ensures
        r == input_key(key, mods),
{
    if mods == Modifiers::Control && key == Key::Char('u') {
        InputKey::Clear
    } else if mods != Modifiers::Plain {
        InputKey::Ignore
    } else {
        match key {
            Key::Esc => InputKey::Cancel,
            Key::Enter => InputKey::Submit,
            Key::Backspace => InputKey::Backspace,
            Key::Left => InputKey::Left,
            Key::Right => InputKey::Right,
            Key::Char(c) => InputKey::Insert(c),
            _ => InputKey::Ignore,
        }
    }
}

/// What a key does in the confirmation dialog: plain Enter accepts, plain
/// Esc cancels, anything else does nothing (`Some(true)`, `Some(false)`,
/// `None`).
pub fn route_confirm_key(key: Key, mods: Modifiers) -> (r: Option<bool>)
    ensures
        r == (if mods == Modifiers::Plain && key == Key::Enter {
            Some(true)
        } else if mods == Modifiers::Plain && key == Key::Esc {
            Some(false)
        } else {
            None
        }),
{
    if mods == Modifiers::Plain && key == Key::Enter {
        Some(true)
    } else if mods == Modifiers::Plain && key == Key::Esc {
        Some(false)
    } else {
        None
    }
}

/// A page's own characters never shadow the global keys: a character that
/// reaches a page is none of `? q j k h l 1..7`, and nothing reaches a
/// page while help is shown.
pub proof fn lemma_page_chars_are_not_global(c: char, help_shown: bool)
    ensures
        char_route(c, help_shown) matches CharRoute::PageChar(d) ==> d == c && !help_shown && c != '?' && c != 'q'
            && c != 'j' && c != 'k' && c != 'h' && c != 'l' && !('1' <= c <= '7'),
{
}

/// Ctrl+C quits whatever is open.
pub proof fn lemma_ctrl_c_always_quits(open: Overlays)
    ensures
        key_route(Key::Char('c'), Modifiers::Control, open) == KeyRoute::Terminate,
{
}

} // verus!
