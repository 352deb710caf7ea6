//! The application state: which screen is shown, and how a key press moves
//! between screens and drives a match.
use crate::domain::{MatchData, MatchState, RoundState};
use crate::text::ascii_lower;
use vstd::prelude::*;

verus! {

/// The number of entries of the home menu.
pub const HOME_MENU_LEN: usize = 2;

/// A key, as far as the game tells keys apart.
#[derive(Clone, Copy, Debug, PartialEq, Eq, Structural)]
pub enum KeyCode {
    Esc,
    Up,
    Down,
    Enter,
    Backspace,
    Char(char),
    /// Any other key.
    Other,
}

/// Whether a key went down, repeats or went up.
#[derive(Clone, Copy, Debug, PartialEq, Eq, Structural)]
pub enum KeyEventKind {
    Press,
    Repeat,
    Release,
}

/// A key event.
#[derive(Clone, Copy, Debug, PartialEq, Eq, Structural)]
pub struct KeyEvent {
    pub code: KeyCode,
    pub kind: KeyEventKind,
}

/// An input event.
#[derive(Clone, Copy, Debug, PartialEq, Eq, Structural)]
pub enum Event {
    Key(KeyEvent),
    /// Any event that is not a key event.
    Other,
}

/// The screen shown.
pub enum Screen {
    Home,
    Rules,
    Match(MatchState),
}

/// The application state.
pub struct App {
    pub screen: Screen,
    pub should_quit: bool,
    /// Home menu: 0 = Start Game, 1 = Rules.
    pub home_selected: usize,
}

impl App {
    /// What the application keeps true: the home selection is an entry of
    /// the menu, and a match in play keeps its own invariant.
    pub open spec fn wf(&self) -> bool {
        &&& self.home_selected < HOME_MENU_LEN
        &&& (self.screen matches Screen::Match(MatchState::MatchInProgress(m)) ==> m.wf())
    }

    /// `new` is `old` with `screen` replaced.
    pub open spec fn only_screen_changed(old: App, new: App) -> bool {
        new.should_quit == old.should_quit && new.home_selected == old.home_selected
    }

    /// The state after a key press on the home screen.
    pub open spec fn home_key_step(old: App, new: App, code: KeyCode) -> bool {
        match code {
            KeyCode::Esc => new == App { should_quit: true, ..old },
            KeyCode::Up => new == App {
                home_selected: ((old.home_selected + HOME_MENU_LEN - 1) % (HOME_MENU_LEN as int)) as usize,
                ..old
            },
            KeyCode::Down => new == App {
                home_selected: ((old.home_selected + 1) % (HOME_MENU_LEN as int)) as usize,
                ..old
            },
            KeyCode::Enter => if old.home_selected == 0 {
                &&& Self::only_screen_changed(old, new)
                &&& new.screen matches Screen::Match(MatchState::MatchInProgress(m)) && m.is_new()
            } else if old.home_selected == 1 {
                new == App { screen: Screen::Rules, ..old }
            } else {
                new == old
            },
            _ => new == old,
        }
    }

    /// The state after a key press during a match in play, unless the key
    /// is Esc: typed chars, Backspace and Enter select words, typed chars
    /// guess letters, and Enter starts the next round once one is over.
    pub open spec fn match_key_step(old: MatchData, new: MatchData, code: KeyCode) -> bool {
        match old.current_round {
            RoundState::WordSelection(_) => match code {
                KeyCode::Char(c) => MatchData::push_char_step(old, new, c),
                KeyCode::Backspace => MatchData::backspace_step(old, new),
                KeyCode::Enter => MatchData::enter_step(old, new),
                _ => new == old,
            },
            RoundState::Guessing(_) => match code {
                KeyCode::Char(c) => MatchData::guess_step(old, new, ascii_lower(c)),
                _ => new == old,
            },
            RoundState::Finished(_) => if code == KeyCode::Enter {
                MatchData::next_round_step(old, new)
            } else {
                new == old
            },
        }
    }

    /// The state after a key press: Esc leaves the rules and a match for
    /// the home screen, any key leaves a decided match for it, and the home
    /// screen and a match in play handle keys as above.
    pub open spec fn key_step(old: App, new: App, code: KeyCode) -> bool {
        match old.screen {
            Screen::Home => Self::home_key_step(old, new, code),
            Screen::Rules => if code == KeyCode::Esc {
                new == App { screen: Screen::Home, ..old }
            } else {
                new == old
            },
            Screen::Match(MatchState::MatchInProgress(m)) => if code == KeyCode::Esc {
                new == App { screen: Screen::Home, ..old }
            } else {
                &&& Self::only_screen_changed(old, new)
                &&& new.screen matches Screen::Match(MatchState::MatchInProgress(m2))
                    && Self::match_key_step(m, m2, code)
            },
            Screen::Match(MatchState::MatchFinised(_)) => new == App {
                screen: Screen::Home,
                ..old
            },
        }
    }

    /// The state after an event: only key presses count.
    pub open spec fn event_step(old: App, new: App, event: Event) -> bool {
        match event {
            Event::Key(key) => if key.kind == KeyEventKind::Press {
                Self::key_step(old, new, key.code)
            } else {
                new == old
            },
            Event::Other => new == old,
        }
    }

    /// Handling the key press would overflow an integer: moving the home
    /// selection past `usize::MAX`, or a round win past a score of
    /// `u8::MAX`.
    pub open spec fn key_overflows(&self, code: KeyCode) -> bool {
        match self.screen {
            Screen::Home => {
                ||| code == KeyCode::Up && self.home_selected + HOME_MENU_LEN > usize::MAX
                ||| code == KeyCode::Down && self.home_selected + 1 > usize::MAX
            },
            Screen::Match(MatchState::MatchInProgress(m)) => Self::match_key_overflows(m, code),
            _ => false,
        }
    }

    /// Handling the key press in match `m` would push a score past
    /// `u8::MAX`.
    pub open spec fn match_key_overflows(m: MatchData, code: KeyCode) -> bool {
        match code {
            KeyCode::Char(c) => m.current_round is Guessing && m.guess_overflows(ascii_lower(c)),
            _ => false,
        }
    }

    /// Handling the event would overflow an integer.
    pub open spec fn event_overflows(&self, event: Event) -> bool {
        match event {
            Event::Key(key) => key.kind == KeyEventKind::Press && self.key_overflows(key.code),
            Event::Other => false,
        }
    }

    /// The application at start: the home screen with its first entry
    /// selected.
    pub fn new() -> (app: App)
        ensures
            app.screen is Home,
            !app.should_quit,
            app.home_selected == 0,
            app.wf(),
    {
        App { screen: Screen::Home, should_quit: false, home_selected: 0 }
    }

    /// Whether handling `event` would overflow an integer.
    pub fn would_overflow(&self, event: &Event) -> (overflows: bool)
        ensures
            overflows == self.event_overflows(*event),
    {
        let key = match event {
            Event::Key(key) => key,
            Event::Other => {
                return false;
            },
        };
        if key.kind != KeyEventKind::Press {
            return false;
        }
        match &self.screen {
            Screen::Home => match key.code {
                KeyCode::Up => self.home_selected > usize::MAX - HOME_MENU_LEN,
                KeyCode::Down => self.home_selected == usize::MAX,
                _ => false,
            },
            Screen::Match(MatchState::MatchInProgress(m)) => match key.code {
                KeyCode::Char(c) => matches!(&m.current_round, RoundState::Guessing(_))
                    && m.guess_would_overflow(c),
                _ => false,
            },
            _ => false,
        }
    }

    /// Handles an input event. Only key presses change the state.
    pub fn handle_event(&mut self, event: Event)
        requires
            !old(self).event_overflows(event),
        ensures
            Self::event_step(*old(self), *final(self), event),
            old(self).wf() ==> final(self).wf(),
    {
        let key = match event {
            Event::Key(key) => key,
            Event::Other => {
                return;
            },
        };
        if key.kind != KeyEventKind::Press {
            return;
        }
        self.handle_key(key.code);
    }

    fn handle_key(&mut self, code: KeyCode)
        requires
            !old(self).key_overflows(code),
        ensures
            Self::key_step(*old(self), *final(self), code),
            old(self).wf() ==> final(self).wf(),
    {
        match &mut self.screen {
            Screen::Home => self.handle_home_key(code),
            Screen::Rules => {
                if code == KeyCode::Esc {
                    self.screen = Screen::Home;
                }
            },
            Screen::Match(m_state) => match m_state {
                MatchState::MatchInProgress(m_data) => {
                    if code == KeyCode::Esc {
                        self.screen = Screen::Home;
                    } else {
                        Self::handle_match_in_progress(m_data, code);
                    }
                },
                MatchState::MatchFinised(_) => {
                    self.screen = Screen::Home;
                },
            },
        }
    }

    fn handle_home_key(&mut self, code: KeyCode)
        requires
            old(self).screen is Home,
            !old(self).key_overflows(code),
        ensures
            Self::home_key_step(*old(self), *final(self), code),
    {
        match code {
            KeyCode::Esc => {
                self.should_quit = true;
            },
            KeyCode::Up => {
                self.home_selected = (self.home_selected + HOME_MENU_LEN - 1) % HOME_MENU_LEN;
            },
            KeyCode::Down => {
                self.home_selected = (self.home_selected + 1) % HOME_MENU_LEN;
            },
            KeyCode::Enter => match self.home_selected {
                0 => {
                    self.screen = Screen::Match(MatchState::MatchInProgress(MatchData::new()));
                },
                1 => {
                    self.screen = Screen::Rules;
                },
                _ => {},
            },
            _ => {},
        }
    }

    fn handle_match_in_progress(m_data: &mut MatchData, code: KeyCode)
        requires
            !Self::match_key_overflows(*old(m_data), code),
        ensures
            Self::match_key_step(*old(m_data), *final(m_data), code),
            old(m_data).wf() ==> final(m_data).wf(),
    {
        if matches!(&m_data.current_round, RoundState::WordSelection(_)) {
            match code {
                KeyCode::Char(c) => m_data.word_selection_push_char(c),
                KeyCode::Backspace => m_data.word_selection_backspace(),
                KeyCode::Enter => m_data.word_selection_enter(),
                _ => {},
            }
        } else if matches!(&m_data.current_round, RoundState::Guessing(_)) {
            if let KeyCode::Char(c) = code {
                m_data.guessing_char(c);
            }
        } else if matches!(&m_data.current_round, RoundState::Finished(_)) && code
            == KeyCode::Enter {
            m_data.round_finished_enter();
        }
    }
}

} // verus!
