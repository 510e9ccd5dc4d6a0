//! The mode and tab logic of the terminal front end: which tab is shown,
//! what keys do outside the tabs, and what follows the long operations.

use vstd::prelude::*;
use crate::text::join_str;
use crate::tui::{KeyCode, KeyPress, Mode};

verus! {

/// The tabs of the tab bar.
#[derive(PartialEq, Eq, Structural, Clone, Copy, Debug)]
pub enum TabId {
    New,
    Load,
    Configure,
    Run,
}

/// The position of a tab in the tab bar.
pub open spec fn spec_tab_index(t: TabId) -> usize {
    match t {
        TabId::New => 0,
        TabId::Load => 1,
        TabId::Configure => 2,
        TabId::Run => 3,
    }
}

/// The position of a tab in the tab bar.
pub fn tab_index(t: TabId) -> (i: usize)
    ensures
        i == spec_tab_index(t),
{
    match t {
        TabId::New => 0,
        TabId::Load => 1,
        TabId::Configure => 2,
        TabId::Run => 3,
    }
}

/// The tabs on which `q` quits the program (on the others it does nothing).
pub open spec fn spec_quits_on_q(t: TabId) -> bool {
    t == TabId::New || t == TabId::Load
}

/// The tabs that Esc leaves (on the others it does nothing).
pub open spec fn spec_exits_on_esc(t: TabId) -> bool {
    t == TabId::New || t == TabId::Load
}

/// What the front end does after a key, outside the tabs.
#[derive(PartialEq, Eq, Structural, Clone, Copy, Debug)]
pub enum UiEffect {
    /// Leave the program.
    Quit,
    /// Nothing.
    Nothing,
    /// Call the shown tab's `init`.
    InitCurrent,
    /// Call the shown tab's `close`.
    CloseCurrent,
    /// The Load tab was chosen: refresh its list of saved simulations.
    RefreshSims,
    /// Let the shown tab handle the key.
    Forward,
}

/// The front end's mode, shown tab and error message.
pub struct UiState {
    pub mode: Mode,
    pub current: TabId,
    pub error: Option<String>,
}

impl UiState {
    /// The start: choosing a tab, the New tab shown, no error.
    pub fn new() -> (s: Self)
        ensures
            s.mode == Mode::Menu,
            s.current == TabId::New,
            s.error is None,
    {
        UiState { mode: Mode::Menu, current: TabId::New, error: None }
    }

    /// Handles a key outside the tabs. Choosing a tab: `q` quits, Enter
    /// opens the shown tab, Left goes from Load to New, Right from New to
    /// Load. Showing an error: Enter goes back to the tab. In a tab: `q`
    /// and Esc do what the tab says, other keys go to the tab.
    pub fn on_key(&mut self, key: KeyPress) -> (e: UiEffect)
        ensures
            final(self).error == old(self).error || (old(self).mode == Mode::Error && final(self).error is None),
            old(self).mode == Mode::Menu ==> match key.code {
                KeyCode::Char('q') => e == UiEffect::Quit && *final(self) == *old(self),
                KeyCode::Enter => e == UiEffect::InitCurrent && final(self).mode == Mode::Page
                    && final(self).current == old(self).current,
                KeyCode::Left => e == UiEffect::Nothing && final(self).mode == Mode::Menu
                    && final(self).current == if old(self).current == TabId::Load { TabId::New } else { old(self).current },
                KeyCode::Right => final(self).mode == Mode::Menu && if old(self).current == TabId::New {
                    e == UiEffect::RefreshSims && final(self).current == TabId::Load
                } else {
                    e == UiEffect::Nothing && final(self).current == old(self).current
                },
                _ => e == UiEffect::Nothing && *final(self) == *old(self),
            },
            old(self).mode == Mode::Error ==> if key.code == KeyCode::Enter {
                e == UiEffect::InitCurrent && final(self).mode == Mode::Page && final(self).error is None
                    && final(self).current == old(self).current
            } else {
                e == UiEffect::Nothing && *final(self) == *old(self)
            },
            old(self).mode == Mode::Page ==> match key.code {
                KeyCode::Char('q') => *final(self) == *old(self)
                    && e == if spec_quits_on_q(old(self).current) { UiEffect::Quit } else { UiEffect::Nothing },
                KeyCode::Esc => final(self).current == old(self).current && if spec_exits_on_esc(old(self).current) {
                    e == UiEffect::CloseCurrent && final(self).mode == Mode::Menu
                } else {
                    e == UiEffect::Nothing && final(self).mode == Mode::Page
                },
                _ => e == UiEffect::Forward && *final(self) == *old(self),
            },
    {
        match self.mode {
            Mode::Menu => match key.code {
                KeyCode::Char(c) => {
                    if c == 'q' {
                        UiEffect::Quit
                    } else {
                        UiEffect::Nothing
                    }
                },
                KeyCode::Enter => {
                    self.mode = Mode::Page;
                    UiEffect::InitCurrent
                },
                KeyCode::Left => {
                    if tab_index(self.current) == 1 {
                        self.current = TabId::New;
                    }
                    UiEffect::Nothing
                },
                KeyCode::Right => {
                    if tab_index(self.current) == 0 {
                        self.current = TabId::Load;
                        UiEffect::RefreshSims
                    } else {
                        UiEffect::Nothing
                    }
                },
                _ => UiEffect::Nothing,
            },
            Mode::Error => match key.code {
                KeyCode::Enter => {
                    self.mode = Mode::Page;
                    self.error = None;
                    UiEffect::InitCurrent
                },
                _ => UiEffect::Nothing,
            },
            Mode::Page => match key.code {
                KeyCode::Char(c) => {
                    if c == 'q' {
                        if self.current == TabId::New || self.current == TabId::Load {
                            UiEffect::Quit
                        } else {
                            UiEffect::Nothing
                        }
                    } else {
                        UiEffect::Forward
                    }
                },
                KeyCode::Esc => {
                    if self.current == TabId::New || self.current == TabId::Load {
                        self.mode = Mode::Menu;
                        UiEffect::CloseCurrent
                    } else {
                        UiEffect::Nothing
                    }
                },
                _ => UiEffect::Forward,
            },
        }
    }

    /// Shows an error (a failed long operation).
    pub fn fail(&mut self, msg: String)
        ensures
            final(self).mode == Mode::Error,
            final(self).error matches Some(m) && m@ == msg@,
            final(self).current == old(self).current,
    {
        self.error = Some(msg);
        self.mode = Mode::Error;
    }

    /// Shows another tab (after a long operation succeeded).
    pub fn show(&mut self, tab: TabId)
        ensures
            final(self).current == tab,
            final(self).mode == old(self).mode,
            final(self).error == old(self).error,
    {
        self.current = tab;
    }

    /// After the network was stopped: back to choosing a tab, the New tab
    /// shown.
    pub fn network_stopped(&mut self)
        ensures
            final(self).current == TabId::New,
            final(self).mode == Mode::Menu,
            final(self).error == old(self).error,
    {
        self.current = TabId::New;
        self.mode = Mode::Menu;
    }
}

/// The text `{:?}` prints for a string (quoted, special characters
/// escaped).
pub uninterp spec fn debug_text(s: Seq<char>) -> Seq<char>;

/// The debug text of a string.
///
/// Trusted: calls std's `Debug` formatting of `str` (`format!("{:?}", s)`),
/// a function of the string alone; its result is only named here.
#[verifier::external_body]
pub(crate) fn debug_string(s: &str) -> (r: String)
    ensures
        r@ == debug_text(s@),
{
    format!("{:?}", s)
}

/// The error shown when the simulation could not be started.
pub fn start_failure(e: &str) -> (m: String)
    ensures
        m@ == "Failed to start the simulation: "@ + debug_text(e@),
{
    join_str("Failed to start the simulation: ", debug_string(e).as_str())
}

/// The error shown when the simulation could not be stopped.
pub fn stop_failure(e: &str) -> (m: String)
    ensures
        m@ == "Failed to stop the simulation: "@ + debug_text(e@),
{
    join_str("Failed to stop the simulation: ", debug_string(e).as_str())
}

} // verus!
