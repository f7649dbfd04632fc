//! Key bindings: which action each key asks for, depending on the focused part.

use vstd::prelude::*;
use crate::app::State;

verus! {

/// The keys the tool reacts to; any other key is `Other`.
#[derive(Debug, Clone, Copy, PartialEq, Eq, Structural)]
pub enum KeyCode {
    Backspace,
    Enter,
    Left,
    Right,
    Up,
    Down,
    Tab,
    BackTab,
    Esc,
    Char(char),
    Other,
}

/// The modifier bits of the terminal library (shift 1, control 2, alt 4, ...).
pub const CONTROL: u8 = 0b0000_0010;

/// A key press: the key and the bits of the modifiers held with it.
#[derive(Debug, Clone, Copy, PartialEq, Eq, Structural)]
pub struct KeyEvent {
    pub code: KeyCode,
    pub modifiers: u8,
}

/// What a key press asks the tool to do.
#[derive(Debug, Clone, Copy, PartialEq, Eq, Structural)]
pub enum Action {
    Quit,
    ProcessSelection,
    ExitDir,
    NextDirEntry,
    PrevDirEntry,
    EnterDir,
    FocusMovieSelection,
    ChangeMode,
    ChangeTarget,
    FocusFileExplorer,
    UiNext,
    UiPrev,
    UiAdd(char),
    UiRemove,
    UiLeft,
    UiRight,
    SelectPrev,
    SelectNext,
    Nothing,
}

/// The action of a key in the file explorer.
pub open spec fn file_explorer_action(key: KeyEvent) -> Action {
    match key.code {
        KeyCode::Esc => Action::Quit,
        KeyCode::Char(c) => if c == 'q' {
            Action::Quit
        } else if c == 'c' || c == 'C' {
            if key.modifiers == CONTROL {
                Action::Quit
            } else {
                Action::Nothing
            }
        } else if c == 'h' {
            Action::ExitDir
        } else if c == 'j' {
            Action::NextDirEntry
        } else if c == 'k' {
            Action::PrevDirEntry
        } else if c == 'l' {
            Action::EnterDir
        } else if c == 's' {
            Action::FocusMovieSelection
        } else if c == 'm' {
            Action::ChangeMode
        } else if c == 't' {
            Action::ChangeTarget
        } else {
            Action::Nothing
        },
        KeyCode::Enter => Action::ProcessSelection,
        KeyCode::Left => Action::ExitDir,
        KeyCode::Down => Action::NextDirEntry,
        KeyCode::Up => Action::PrevDirEntry,
        KeyCode::Right => Action::EnterDir,
        _ => Action::Nothing,
    }
}

/// The action of a key in the search.
pub open spec fn movie_selection_action(key: KeyEvent) -> Action {
    match key.code {
        KeyCode::Esc => Action::FocusFileExplorer,
        KeyCode::Enter => Action::FocusFileExplorer,
        KeyCode::Tab => Action::UiNext,
        KeyCode::BackTab => Action::UiPrev,
        KeyCode::Char(c) => Action::UiAdd(c),
        KeyCode::Backspace => Action::UiRemove,
        KeyCode::Left => Action::UiLeft,
        KeyCode::Right => Action::UiRight,
        KeyCode::Up => Action::SelectPrev,
        KeyCode::Down => Action::SelectNext,
        KeyCode::Other => Action::Nothing,
    }
}

pub fn handle_file_explorer_key_events(key_event: KeyEvent) -> (r: Action)
    ensures
        r == file_explorer_action(key_event),
{
    match key_event.code {
        KeyCode::Esc | KeyCode::Char('q') => Action::Quit,
        KeyCode::Char('c') | KeyCode::Char('C') => {
            if key_event.modifiers == CONTROL {
                Action::Quit
            } else {
                Action::Nothing
            }
        },
        KeyCode::Enter => Action::ProcessSelection,
        KeyCode::Char('h') | KeyCode::Left => Action::ExitDir,
        KeyCode::Char('j') | KeyCode::Down => Action::NextDirEntry,
        KeyCode::Char('k') | KeyCode::Up => Action::PrevDirEntry,
        KeyCode::Char('l') | KeyCode::Right => Action::EnterDir,
        KeyCode::Char('s') => Action::FocusMovieSelection,
        KeyCode::Char('m') => Action::ChangeMode,
        KeyCode::Char('t') => Action::ChangeTarget,
        _ => Action::Nothing,
    }
}

pub fn handle_movie_selection_key_events(key_event: KeyEvent) -> (r: Action)
    ensures
        r == movie_selection_action(key_event),
{
    match key_event.code {
        KeyCode::Esc | KeyCode::Enter => Action::FocusFileExplorer,
        KeyCode::Tab => Action::UiNext,
        KeyCode::BackTab => Action::UiPrev,
        KeyCode::Char(c) => Action::UiAdd(c),
        KeyCode::Backspace => Action::UiRemove,
        KeyCode::Left => Action::UiLeft,
        KeyCode::Right => Action::UiRight,
        KeyCode::Up => Action::SelectPrev,
        KeyCode::Down => Action::SelectNext,
        _ => Action::Nothing,
    }
}

/// The action of a key in the focused part.
pub fn handle_key_events(key_event: KeyEvent, state: State) -> (r: Action)
    ensures
        r == match state {
            State::FileExplorer => file_explorer_action(key_event),
            State::MovieSelection => movie_selection_action(key_event),
        },
{
    match state {
        State::FileExplorer => handle_file_explorer_key_events(key_event),
        State::MovieSelection => handle_movie_selection_key_events(key_event),
    }
}

} // verus!
