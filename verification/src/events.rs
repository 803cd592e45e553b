//! What the terminal reports, and what it means in each mode of the pager.

use vstd::prelude::*;

verus! {

/// A key of the keyboard, as far as the pager tells keys apart.
#[derive(Clone, Copy, Debug, PartialEq, Eq, Structural)]
pub enum KeyCode {
    Char(char),
    Enter,
    Esc,
    Backspace,
    Up,
    Down,
    Left,
    Right,
    Other,
}

/// The modifier keys that were held with a key.
#[derive(Clone, Copy, Debug, PartialEq, Eq, Structural)]
pub struct KeyModifiers {
    pub shift: bool,
    pub control: bool,
    pub alt: bool,
    /// Any other modifier.
    pub other: bool,
}

/// An event of the terminal.
#[derive(Clone, Copy, Debug, PartialEq, Eq, Structural)]
pub enum InputEvent {
    /// A key was pressed.
    Key(KeyCode, KeyModifiers),
    /// The terminal now has this many columns and rows.
    Resize(u16, u16),
    /// Anything else.
    Other,
}

impl KeyModifiers {
    /// No modifier key was held.
    pub open spec fn spec_is_empty(&self) -> bool {
        !self.shift && !self.control && !self.alt && !self.other
    }

    /// No modifier key.
    pub fn none() -> (m: Self)
        ensures
            m.spec_is_empty(),
    {
        KeyModifiers { shift: false, control: false, alt: false, other: false }
    }

    /// Whether no modifier key was held.
    pub fn is_empty(&self) -> (b: bool)
        ensures
            b == self.spec_is_empty(),
    {
        !self.shift && !self.control && !self.alt && !self.other
    }
}

/// What an event means while the entries are on view.
#[derive(Clone, Copy, Debug, PartialEq, Eq, Structural)]
pub enum ViewEvent {
    NextDay,
    PrevDay,
    NextLine,
    PrevLine,
    GotoPageBegin,
    GotoPageEnd,
    Quit,
    Edit,
    SearchNext,
    SearchPrev,
    Resize(u16, u16),
    EnterCommandMode,
    EnterSearchMode,
    Ignored,
}

/// What an event means while a command is typed.
#[derive(Clone, Copy, Debug, PartialEq, Eq, Structural)]
pub enum CommandEvent {
    Cancel,
    Char(char),
    Execute,
    Backspace,
    ClearLine,
    Ignored,
}

/// What an event means while a search pattern is typed.
#[derive(Clone, Copy, Debug, PartialEq, Eq, Structural)]
pub enum SearchEvent {
    Backspace,
    Cancel,
    Char(char),
    ClearLine,
    Confirm,
    Ignored,
}

/// The meaning of a key while the entries are on view. The modifier keys
/// are not looked at.
pub open spec fn view_key(code: KeyCode) -> ViewEvent {
    match code {
        KeyCode::Char(c) => if c == 'j' {
            ViewEvent::NextLine
        } else if c == 'k' {
            ViewEvent::PrevLine
        } else if c == 'g' {
            ViewEvent::GotoPageBegin
        } else if c == 'G' {
            ViewEvent::GotoPageEnd
        } else if c == 'l' {
            ViewEvent::NextDay
        } else if c == 'h' {
            ViewEvent::PrevDay
        } else if c == 'q' {
            ViewEvent::Quit
        } else if c == 'e' {
            ViewEvent::Edit
        } else if c == 'n' {
            ViewEvent::SearchNext
        } else if c == 'N' {
            ViewEvent::SearchPrev
        } else if c == ':' {
            ViewEvent::EnterCommandMode
        } else if c == '/' {
            ViewEvent::EnterSearchMode
        } else {
            ViewEvent::Ignored
        },
        KeyCode::Down => ViewEvent::NextLine,
        KeyCode::Up => ViewEvent::PrevLine,
        KeyCode::Right => ViewEvent::NextDay,
        KeyCode::Left => ViewEvent::PrevDay,
        _ => ViewEvent::Ignored,
    }
}

/// The meaning of an event while the entries are on view.
pub open spec fn view_event_of(event: InputEvent) -> ViewEvent {
    match event {
        InputEvent::Key(code, _) => view_key(code),
        InputEvent::Resize(columns, rows) => ViewEvent::Resize(columns, rows),
        InputEvent::Other => ViewEvent::Ignored,
    }
}

/// The meaning of an event while a command is typed: without a modifier,
/// the keys that edit and end the line; with control, `u` clears the line.
pub open spec fn command_event_of(event: InputEvent) -> CommandEvent {
    match event {
        InputEvent::Key(code, modifiers) => if modifiers.spec_is_empty() {
            match code {
                KeyCode::Esc => CommandEvent::Cancel,
                KeyCode::Char(c) => CommandEvent::Char(c),
                KeyCode::Enter => CommandEvent::Execute,
                KeyCode::Backspace => CommandEvent::Backspace,
                _ => CommandEvent::Ignored,
            }
        } else if modifiers.control && code == KeyCode::Char('u') {
            CommandEvent::ClearLine
        } else {
            CommandEvent::Ignored
        },
        _ => CommandEvent::Ignored,
    }
}

/// The meaning of an event while a search pattern is typed: that of the
/// command line, with the pattern confirmed where the command is executed.
pub open spec fn search_event_of(event: InputEvent) -> SearchEvent {
    match command_event_of(event) {
        CommandEvent::Cancel => SearchEvent::Cancel,
        CommandEvent::Char(c) => SearchEvent::Char(c),
        CommandEvent::Execute => SearchEvent::Confirm,
        CommandEvent::Backspace => SearchEvent::Backspace,
        CommandEvent::ClearLine => SearchEvent::ClearLine,
        CommandEvent::Ignored => SearchEvent::Ignored,
    }
}

impl ViewEvent {
    /// The meaning of a terminal event while the entries are on view.
    pub fn from_crossterm_event(crossterm_event: InputEvent) -> (event: Self)
        ensures
            event == view_event_of(crossterm_event),
    {
        match crossterm_event {
            InputEvent::Key(code, _) => match code {
                KeyCode::Char(c) => {
                    if c == 'j' {
                        ViewEvent::NextLine
                    } else if c == 'k' {
                        ViewEvent::PrevLine
                    } else if c == 'g' {
                        ViewEvent::GotoPageBegin
                    } else if c == 'G' {
                        ViewEvent::GotoPageEnd
                    } else if c == 'l' {
                        ViewEvent::NextDay
                    } else if c == 'h' {
                        ViewEvent::PrevDay
                    } else if c == 'q' {
                        ViewEvent::Quit
                    } else if c == 'e' {
                        ViewEvent::Edit
                    } else if c == 'n' {
                        ViewEvent::SearchNext
                    } else if c == 'N' {
                        ViewEvent::SearchPrev
                    } else if c == ':' {
                        ViewEvent::EnterCommandMode
                    } else if c == '/' {
                        ViewEvent::EnterSearchMode
                    } else {
                        ViewEvent::Ignored
                    }
                },
                KeyCode::Down => ViewEvent::NextLine,
                KeyCode::Up => ViewEvent::PrevLine,
                KeyCode::Right => ViewEvent::NextDay,
                KeyCode::Left => ViewEvent::PrevDay,
                _ => ViewEvent::Ignored,
            },
            InputEvent::Resize(columns, rows) => ViewEvent::Resize(columns, rows),
            InputEvent::Other => ViewEvent::Ignored,
        }
    }
}

impl CommandEvent {
    /// The meaning of a terminal event while a command is typed.
    pub fn from_crossterm_event(crossterm_event: InputEvent) -> (event: Self)
        ensures
            event == command_event_of(crossterm_event),
    {
        match crossterm_event {
            InputEvent::Key(code, modifiers) => {
                if modifiers.is_empty() {
                    match code {
                        KeyCode::Esc => CommandEvent::Cancel,
                        KeyCode::Char(c) => CommandEvent::Char(c),
                        KeyCode::Enter => CommandEvent::Execute,
                        KeyCode::Backspace => CommandEvent::Backspace,
                        _ => CommandEvent::Ignored,
                    }
                } else if modifiers.control {
                    match code {
                        KeyCode::Char(c) => {
                            if c == 'u' {
                                CommandEvent::ClearLine
                            } else {
                                CommandEvent::Ignored
                            }
                        },
                        _ => CommandEvent::Ignored,
                    }
                } else {
                    CommandEvent::Ignored
                }
            },
            _ => CommandEvent::Ignored,
        }
    }
}

impl SearchEvent {
    /// The meaning of a terminal event while a search pattern is typed.
    pub fn from_crossterm_event(crossterm_event: InputEvent) -> (event: Self)
        ensures
            event == search_event_of(crossterm_event),
    {
        match CommandEvent::from_crossterm_event(crossterm_event) {
            CommandEvent::Cancel => SearchEvent::Cancel,
            CommandEvent::Char(c) => SearchEvent::Char(c),
            CommandEvent::Execute => SearchEvent::Confirm,
            CommandEvent::Backspace => SearchEvent::Backspace,
            CommandEvent::ClearLine => SearchEvent::ClearLine,
            CommandEvent::Ignored => SearchEvent::Ignored,
        }
    }
}

} // verus!
