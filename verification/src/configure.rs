//! The Configure tab: a command line with history, and the event, channel
//! and activity lists of the network being set up.

use vstd::prelude::*;
use vstd::utf8::encode_utf8;
use crate::text::{chars_of, string_from_chars, str_eq};
use crate::tui::{
    KeyCode, KeyPress, ListView, ProcessResult, ResultView, StatefulList, list_can_next,
    list_can_previous, list_clear, list_next, list_previous, list_view, result_view,
    strings_or_empty, strings_view, unwrap_or_empty,
};

verus! {

/// The part of the Configure tab that has the focus.
#[derive(PartialEq, Eq, Structural, Clone, Copy, Debug)]
pub enum ConfigureSection {
    Command,
    Events,
    Channels,
    Activity,
}

/// The Configure tab.
pub struct ConfigureTab {
    pub input: String,
    pub history: Vec<String>,
    pub history_index: usize,
    pub character_index: usize,
    pub messages: Vec<String>,
    pub events: StatefulList<String>,
    pub channels: StatefulList<String>,
    pub activity: StatefulList<String>,
    pub current_section: ConfigureSection,
}

/// The value of the Configure tab.
pub struct ConfigureView {
    pub input: Seq<char>,
    pub history: Seq<Seq<char>>,
    pub history_index: usize,
    pub character_index: usize,
    pub messages: Seq<Seq<char>>,
    pub events: ListView,
    pub channels: ListView,
    pub activity: ListView,
    pub section: ConfigureSection,
}

impl View for ConfigureTab {
    type V = ConfigureView;

    open spec fn view(&self) -> ConfigureView {
        ConfigureView {
            input: self.input@,
            history: strings_view(self.history@),
            history_index: self.history_index,
            character_index: self.character_index,
            messages: strings_view(self.messages@),
            events: list_view(&self.events),
            channels: list_view(&self.channels),
            activity: list_view(&self.activity),
            section: self.current_section,
        }
    }
}

/// The smaller of a position and a length.
pub open spec fn clamp_to(pos: int, n: nat) -> usize {
    if pos <= n {
        pos as usize
    } else {
        n as usize
    }
}

/// The number of bytes of the UTF-8 text of `s` (what `str::len` gives).
pub open spec fn byte_len(s: Seq<char>) -> usize {
    encode_utf8(s).len() as usize
}

/// The tab with the cursor moved one character left, kept in the input.
pub open spec fn spec_left(v: ConfigureView) -> ConfigureView {
    ConfigureView {
        character_index: clamp_to(if v.character_index == 0 { 0 } else { v.character_index - 1 }, v.input.len()),
        ..v
    }
}

/// The tab with the cursor moved one character right, kept in the input.
pub open spec fn spec_right(v: ConfigureView) -> ConfigureView {
    ConfigureView {
        character_index: clamp_to(
            if v.character_index == usize::MAX { v.character_index as int } else { v.character_index + 1 },
            v.input.len(),
        ),
        ..v
    }
}

/// The tab with `c` typed at the cursor (or at the end when the cursor is
/// past it), the cursor after it.
pub open spec fn spec_insert(v: ConfigureView, c: char) -> ConfigureView {
    let p = clamp_to(v.character_index as int, v.input.len()) as int;
    spec_right(ConfigureView { input: v.input.take(p).push(c) + v.input.skip(p), ..v })
}

/// The tab with the character before the cursor deleted, the cursor moved
/// left; nothing happens at the leftmost position.
pub open spec fn spec_delete(v: ConfigureView) -> ConfigureView {
    if v.character_index == 0 {
        v
    } else {
        let n = v.input.len();
        let before = v.input.take(clamp_to(v.character_index - 1, n) as int);
        let after = v.input.skip(clamp_to(v.character_index as int, n) as int);
        spec_left(ConfigureView { input: before + after, ..v })
    }
}

/// The tab after `close`: output, input and selections cleared, cursor and
/// history position at the start.
pub open spec fn spec_close(v: ConfigureView) -> ConfigureView {
    ConfigureView {
        input: Seq::empty(),
        history_index: 0,
        character_index: 0,
        messages: Seq::empty(),
        events: list_clear(v.events),
        channels: list_clear(v.channels),
        activity: list_clear(v.activity),
        ..v
    }
}

/// The history entry at `i`, or the empty text past the end.
pub open spec fn history_entry(h: Seq<Seq<char>>, i: int) -> Seq<char> {
    if 0 <= i < h.len() {
        h[i]
    } else {
        Seq::empty()
    }
}

/// The tab showing history entry `i` in the input, the cursor at its byte
/// length.
pub open spec fn spec_recall(v: ConfigureView, i: usize) -> ConfigureView {
    let t = history_entry(v.history, i as int);
    ConfigureView { history_index: i, input: t, character_index: byte_len(t), ..v }
}

/// The key presses on which the tab would fail: moving in an empty list
/// that has a selection, or going down in an empty history.
pub open spec fn configure_key_safe(v: ConfigureView, key: KeyPress) -> bool {
    key.is_press ==> match key.code {
        KeyCode::Tab => match v.section {
            ConfigureSection::Command => list_can_next(v.events),
            ConfigureSection::Events => list_can_next(v.channels),
            ConfigureSection::Channels => list_can_next(v.activity),
            ConfigureSection::Activity => true,
        },
        KeyCode::Up => match v.section {
            ConfigureSection::Command => true,
            ConfigureSection::Events => list_can_previous(v.events),
            ConfigureSection::Channels => list_can_previous(v.channels),
            ConfigureSection::Activity => list_can_previous(v.activity),
        },
        KeyCode::Down => match v.section {
            ConfigureSection::Command => v.history.len() > 0,
            ConfigureSection::Events => list_can_next(v.events),
            ConfigureSection::Channels => list_can_next(v.channels),
            ConfigureSection::Activity => list_can_next(v.activity),
        },
        _ => true,
    }
}

/// The tab and the answer after a key press.
pub open spec fn spec_configure_key(v: ConfigureView, key: KeyPress) -> (ConfigureView, ResultView) {
    if !key.is_press {
        (v, ResultView::NoOp)
    } else {
        match key.code {
            KeyCode::Enter => if v.section != ConfigureSection::Command {
                (v, ResultView::NoOp)
            } else if v.input == "stop"@ {
                (spec_close(v), ResultView::StopNetwork)
            } else if v.input == "start"@ {
                (spec_close(v), ResultView::StartSim)
            } else {
                let h = v.history.push(v.input);
                (
                    ConfigureView {
                        history: h,
                        history_index: h.len() as usize,
                        messages: Seq::empty(),
                        input: Seq::empty(),
                        character_index: 0,
                        ..v
                    },
                    ResultView::Command(v.input),
                )
            },
            KeyCode::Char(c) => if v.section != ConfigureSection::Command {
                (v, ResultView::NoOp)
            } else {
                (spec_insert(v, c), ResultView::NoOp)
            },
            KeyCode::Backspace => if v.section != ConfigureSection::Command {
                (v, ResultView::NoOp)
            } else {
                (spec_delete(v), ResultView::NoOp)
            },
            KeyCode::Left => if v.section != ConfigureSection::Command {
                (v, ResultView::NoOp)
            } else {
                (spec_left(v), ResultView::NoOp)
            },
            KeyCode::Right => if v.section != ConfigureSection::Command {
                (v, ResultView::NoOp)
            } else {
                (spec_right(v), ResultView::NoOp)
            },
            KeyCode::Tab => match v.section {
                ConfigureSection::Command => (
                    ConfigureView {
                        section: ConfigureSection::Events,
                        input: Seq::empty(),
                        character_index: 0,
                        events: list_next(v.events),
                        ..v
                    },
                    ResultView::NoOp,
                ),
                ConfigureSection::Events => (
                    ConfigureView {
                        section: ConfigureSection::Channels,
                        events: list_clear(v.events),
                        channels: list_next(v.channels),
                        ..v
                    },
                    ResultView::NoOp,
                ),
                ConfigureSection::Channels => (
                    ConfigureView {
                        section: ConfigureSection::Activity,
                        channels: list_clear(v.channels),
                        activity: list_next(v.activity),
                        ..v
                    },
                    ResultView::NoOp,
                ),
                ConfigureSection::Activity => (
                    ConfigureView {
                        section: ConfigureSection::Command,
                        activity: list_clear(v.activity),
                        ..v
                    },
                    ResultView::NoOp,
                ),
            },
            KeyCode::Up => match v.section {
                ConfigureSection::Command => (
                    spec_recall(v, if v.history_index != 0 { (v.history_index - 1) as usize } else { 0 }),
                    ResultView::NoOp,
                ),
                ConfigureSection::Events => (ConfigureView { events: list_previous(v.events), ..v }, ResultView::NoOp),
                ConfigureSection::Channels => (ConfigureView { channels: list_previous(v.channels), ..v }, ResultView::NoOp),
                ConfigureSection::Activity => (ConfigureView { activity: list_previous(v.activity), ..v }, ResultView::NoOp),
            },
            KeyCode::Down => match v.section {
                ConfigureSection::Command => if v.history_index <= v.history.len() - 1 {
                    (spec_recall(v, (v.history_index + 1) as usize), ResultView::NoOp)
                } else {
                    (v, ResultView::NoOp)
                },
                ConfigureSection::Events => (ConfigureView { events: list_next(v.events), ..v }, ResultView::NoOp),
                ConfigureSection::Channels => (ConfigureView { channels: list_next(v.channels), ..v }, ResultView::NoOp),
                ConfigureSection::Activity => (ConfigureView { activity: list_next(v.activity), ..v }, ResultView::NoOp),
            },
            _ => (v, ResultView::NoOp),
        }
    }
}

/// The number of UTF-8 bytes of a string.
fn text_byte_len(s: &String) -> (n: usize)
    ensures
        n == byte_len(s@),
{
    s.as_str().len()
}

impl ConfigureTab {
    /// An empty Configure tab with the command line focused.
    pub fn new() -> (t: Self)
        ensures
            t@.input.len() == 0,
            t@.history.len() == 0,
            t@.history_index == 0,
            t@.character_index == 0,
            t@.messages.len() == 0,
            t@.events == (ListView { selected: None, items: Seq::empty() }),
            t@.channels == (ListView { selected: None, items: Seq::empty() }),
            t@.activity == (ListView { selected: None, items: Seq::empty() }),
            t@.section == ConfigureSection::Command,
    {
        let t = ConfigureTab {
            input: String::new(),
            history: Vec::new(),
            history_index: 0,
            messages: Vec::new(),
            character_index: 0,
            events: StatefulList::with_items(Vec::new()),
            channels: StatefulList::with_items(Vec::new()),
            activity: StatefulList::with_items(Vec::new()),
            current_section: ConfigureSection::Command,
        };
        assert(t@.events.items =~= Seq::<Seq<char>>::empty());
        assert(t@.channels.items =~= Seq::<Seq<char>>::empty());
        assert(t@.activity.items =~= Seq::<Seq<char>>::empty());
        t
    }

    /// Moves the cursor one character left.
    pub fn move_cursor_left(&mut self)
        ensures
            final(self)@ == spec_left(old(self)@),
    {
        let cursor_moved_left = self.character_index.saturating_sub(1);
        self.character_index = self.clamp_cursor(cursor_moved_left);
    }

    /// Moves the cursor one character right.
    pub fn move_cursor_right(&mut self)
        ensures
            final(self)@ == spec_right(old(self)@),
    {
        let cursor_moved_right = self.character_index.saturating_add(1);
        self.character_index = self.clamp_cursor(cursor_moved_right);
    }

    /// Types `new_char` at the cursor.
    pub fn enter_char(&mut self, new_char: char)
        ensures
            final(self)@ == spec_insert(old(self)@, new_char),
    {
        let cs = chars_of(self.input.as_str());
        let n = cs.len();
        let p = if self.character_index <= n { self.character_index } else { n };
        let mut out: Vec<char> = Vec::new();
        let mut i: usize = 0;
        while i < p
            invariant
                cs@ == self.input@,
                p <= cs@.len(),
                i <= p,
                out@ == cs@.take(i as int),
            decreases p - i,
        {
            out.push(cs[i]);
            assert(cs@.take(i as int).push(cs@[i as int]) =~= cs@.take(i + 1));
            i = i + 1;
        }
        out.push(new_char);
        let ghost mid = out@;
        while i < n
            invariant
                cs@ == self.input@,
                n == cs@.len(),
                p <= i <= n,
                out@ == mid + cs@.subrange(p as int, i as int),
            decreases n - i,
        {
            out.push(cs[i]);
            assert(mid + cs@.subrange(p as int, i + 1) =~= (mid + cs@.subrange(p as int, i as int)).push(cs@[i as int]));
            i = i + 1;
        }
        assert(out@ =~= cs@.take(p as int).push(new_char) + cs@.skip(p as int));
        self.input = string_from_chars(out.as_slice());
        self.move_cursor_right();
    }

    /// The byte offset in the input of the cursor's character (the input's
    /// byte length when the cursor is at or past the end).
    pub fn byte_index(&mut self) -> (b: usize)
        ensures
            final(self)@ == old(self)@,
            b == byte_len(old(self)@.input.take(clamp_to(old(self)@.character_index as int, old(self)@.input.len()) as int)),
    {
        let n = self.input.as_str().unicode_len();
        if self.character_index < n {
            let prefix = self.input.as_str().substring_char(0, self.character_index);
            prefix.len()
        } else {
            proof {
                assert(self.input@.take(n as int) =~= self.input@);
            }
            text_byte_len(&self.input)
        }
    }

    /// Deletes the character before the cursor.
    pub fn delete_char(&mut self)
        ensures
            final(self)@ == spec_delete(old(self)@),
    {
        let is_not_cursor_leftmost = self.character_index != 0;
        if is_not_cursor_leftmost {
            let current_index = self.character_index;
            let from_left_to_current_index = current_index - 1;
            let cs = chars_of(self.input.as_str());
            let n = cs.len();
            let a = if from_left_to_current_index <= n { from_left_to_current_index } else { n };
            let b = if current_index <= n { current_index } else { n };
            let mut out: Vec<char> = Vec::new();
            let mut i: usize = 0;
            while i < a
                invariant
                    cs@ == self.input@,
                    a <= cs@.len(),
                    i <= a,
                    out@ == cs@.take(i as int),
                decreases a - i,
            {
                out.push(cs[i]);
                assert(cs@.take(i as int).push(cs@[i as int]) =~= cs@.take(i + 1));
                i = i + 1;
            }
            let ghost mid = out@;
            let mut j: usize = b;
            while j < n
                invariant
                    cs@ == self.input@,
                    n == cs@.len(),
                    b <= j <= n,
                    out@ == mid + cs@.subrange(b as int, j as int),
                decreases n - j,
            {
                out.push(cs[j]);
                assert(mid + cs@.subrange(b as int, j + 1) =~= (mid + cs@.subrange(b as int, j as int)).push(cs@[j as int]));
                j = j + 1;
            }
            assert(out@ =~= cs@.take(a as int) + cs@.skip(b as int));
            self.input = string_from_chars(out.as_slice());
            self.move_cursor_left();
        }
    }

    /// `new_cursor_pos` kept within the input (at most its length).
    pub fn clamp_cursor(&self, new_cursor_pos: usize) -> (p: usize)
        ensures
            p == clamp_to(new_cursor_pos as int, self@.input.len()),
    {
        let n = self.input.as_str().unicode_len();
        if new_cursor_pos <= n {
            new_cursor_pos
        } else {
            n
        }
    }

    /// Puts the cursor at the start.
    pub fn reset_cursor(&mut self)
        ensures
            final(self)@ == (ConfigureView { character_index: 0, ..old(self)@ }),
    {
        self.character_index = 0;
    }

    /// Called when the tab is shown: focuses the command line.
    pub fn init(&mut self)
        ensures
            final(self)@ == (ConfigureView { section: ConfigureSection::Command, ..old(self)@ }),
    {
        self.current_section = ConfigureSection::Command;
    }

    /// Called when the tab is left: clears output, input, selections.
    pub fn close(&mut self)
        ensures
            final(self)@ == spec_close(old(self)@),
    {
        self.messages.clear();
        self.input = String::new();
        self.events.clear();
        self.channels.clear();
        self.activity.clear();
        self.reset_cursor();
        self.history_index = 0;
        proof {
            assert(final(self)@.messages =~= Seq::<Seq<char>>::empty());
            assert(final(self)@ =~= spec_close(old(self)@));
        }
    }

    /// The position of this tab in the tab bar.
    pub fn get_index(&self) -> (i: usize)
        ensures
            i == 2,
    {
        2
    }

    /// Replaces the output lines and the three lists (absent data empties
    /// them).
    pub fn update_config_data(
        &mut self,
        data1: Option<Vec<String>>,
        data2: Option<Vec<String>>,
        data3: Option<Vec<String>>,
        data4: Option<Vec<String>>,
    )
        ensures
            final(self)@ == (ConfigureView {
                messages: strings_or_empty(data1),
                events: ListView { items: strings_or_empty(data2), ..old(self)@.events },
                channels: ListView { items: strings_or_empty(data3), ..old(self)@.channels },
                activity: ListView { items: strings_or_empty(data4), ..old(self)@.activity },
                ..old(self)@
            }),
    {
        self.messages = unwrap_or_empty(data1);
        self.events.items = unwrap_or_empty(data2);
        self.channels.items = unwrap_or_empty(data3);
        self.activity.items = unwrap_or_empty(data4);
    }

    /// Esc does nothing on this tab.
    pub fn esc_operation(&mut self) -> (r: ProcessResult)
        ensures
            result_view(&r) == ResultView::NoOp,
            final(self)@ == old(self)@,
    {
        ProcessResult::NoOp
    }

    /// `q` does nothing on this tab (it is typed into the command line).
    pub fn quit_operation(&mut self) -> (r: ProcessResult)
        ensures
            result_view(&r) == ResultView::NoOp,
            final(self)@ == old(self)@,
    {
        ProcessResult::NoOp
    }

    /// Shows history entry `i` in the command line.
    fn recall(&mut self, i: usize)
        ensures
            final(self)@ == spec_recall(old(self)@, i),
    {
        self.history_index = i;
        self.input = if i < self.history.len() { self.history[i].clone() } else { String::new() };
        self.character_index = text_byte_len(&self.input);
    }

    /// Handles a key press.
    pub fn process(&mut self, key: KeyPress) -> (r: ProcessResult)
        requires
            configure_key_safe(old(self)@, key),
        ensures
            (final(self)@, result_view(&r)) == spec_configure_key(old(self)@, key),
    {
        if key.is_press {
            match key.code {
                KeyCode::Enter => {
                    if self.current_section != ConfigureSection::Command {
                        return ProcessResult::NoOp;
                    }
                    let command = self.input.clone();
                    if str_eq(command.as_str(), "stop") {
                        self.close();
                        return ProcessResult::StopNetwork;
                    } else if str_eq(command.as_str(), "start") {
                        self.close();
                        return ProcessResult::StartSim;
                    } else {
                        let ghost h0 = self.history@;
                        self.history.push(command.clone());
                        proof {
                            crate::event::lemma_map_values_push(h0, command, |s: String| s@);
                        }
                        self.history_index = self.history.len();
                        self.messages.clear();
                        self.input = String::new();
                        self.reset_cursor();
                        proof {
                            assert(strings_view(self.messages@) =~= Seq::<Seq<char>>::empty());
                        }
                        return ProcessResult::Command(command);
                    }
                },
                KeyCode::Char(to_insert) => {
                    if self.current_section != ConfigureSection::Command {
                        return ProcessResult::NoOp;
                    }
                    self.enter_char(to_insert);
                },
                KeyCode::Backspace => {
                    if self.current_section != ConfigureSection::Command {
                        return ProcessResult::NoOp;
                    }
                    self.delete_char();
                },
                KeyCode::Left => {
                    if self.current_section != ConfigureSection::Command {
                        return ProcessResult::NoOp;
                    }
                    self.move_cursor_left();
                },
                KeyCode::Right => {
                    if self.current_section != ConfigureSection::Command {
                        return ProcessResult::NoOp;
                    }
                    self.move_cursor_right();
                },
                KeyCode::Tab => {
                    match self.current_section {
                        ConfigureSection::Command => {
                            self.current_section = ConfigureSection::Events;
                            self.input = String::new();
                            self.reset_cursor();
                            self.events.next();
                        },
                        ConfigureSection::Events => {
                            self.current_section = ConfigureSection::Channels;
                            self.events.clear();
                            self.channels.next();
                        },
                        ConfigureSection::Channels => {
                            self.current_section = ConfigureSection::Activity;
                            self.channels.clear();
                            self.activity.next();
                        },
                        ConfigureSection::Activity => {
                            self.current_section = ConfigureSection::Command;
                            self.activity.clear();
                        },
                    }
                },
                KeyCode::Up => {
                    match self.current_section {
                        ConfigureSection::Command => {
                            let i = if self.history_index != 0 { self.history_index - 1 } else { 0 };
                            self.recall(i);
                        },
                        ConfigureSection::Events => {
                            self.events.previous();
                        },
                        ConfigureSection::Channels => {
                            self.channels.previous();
                        },
                        ConfigureSection::Activity => {
                            self.activity.previous();
                        },
                    }
                },
                KeyCode::Down => {
                    match self.current_section {
                        ConfigureSection::Command => {
                            if self.history_index <= self.history.len() - 1 {
                                self.recall(self.history_index + 1);
                            }
                        },
                        ConfigureSection::Events => {
                            self.events.next();
                        },
                        ConfigureSection::Channels => {
                            self.channels.next();
                        },
                        ConfigureSection::Activity => {
                            self.activity.next();
                        },
                    }
                },
                _ => {},
            }
        }
        ProcessResult::NoOp
    }
}

} // verus!
