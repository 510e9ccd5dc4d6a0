//! State shared by the tabs of the terminal front end: selectable lists,
//! key presses and what a tab answers to one.

use vstd::prelude::*;

verus! {

/// A list of items with an optional selected position (the selection may
/// point past the end after the items were replaced).
pub struct StatefulList<T> {
    pub selected: Option<usize>,
    pub items: Vec<T>,
}

/// The selection after moving down one row: wraps to the top after the last
/// row, starts at the top when nothing was selected.
pub open spec fn spec_next(selected: Option<usize>, len: nat) -> Option<usize> {
    match selected {
        Some(i) => if i >= len - 1 { Some(0usize) } else { Some((i + 1) as usize) },
        None => Some(0usize),
    }
}

/// The selection after moving up one row: wraps to the last row from the
/// top, starts at the top when nothing was selected.
pub open spec fn spec_previous(selected: Option<usize>, len: nat) -> Option<usize> {
    match selected {
        Some(i) => if i == 0 { Some((len - 1) as usize) } else { Some((i - 1) as usize) },
        None => Some(0usize),
    }
}

/// Moving down is possible unless a row is selected in an empty list.
pub open spec fn can_move(selected: Option<usize>, len: nat) -> bool {
    selected is Some ==> len > 0
}

impl<T> StatefulList<T> {
    /// A list over `items` with nothing selected.
    pub fn with_items(items: Vec<T>) -> (l: Self)
        ensures
            l.selected is None,
            l.items@ == items@,
    {
        StatefulList { selected: None, items }
    }

    /// Selects the next row, wrapping around.
    pub fn next(&mut self)
        requires
            can_move(old(self).selected, old(self).items@.len()),
        ensures
            final(self).selected == spec_next(old(self).selected, old(self).items@.len()),
            final(self).items@ == old(self).items@,
    {
        let i = match self.selected {
            Some(i) => {
                if i >= self.items.len() - 1 {
                    0
                } else {
                    i + 1
                }
            },
            None => 0,
        };
        self.selected = Some(i);
    }

    /// Selects the previous row, wrapping around.
    pub fn previous(&mut self)
        requires
            old(self).selected == Some(0usize) ==> old(self).items@.len() > 0,
        ensures
            final(self).selected == spec_previous(old(self).selected, old(self).items@.len()),
            final(self).items@ == old(self).items@,
    {
        let i = match self.selected {
            Some(i) => {
                if i == 0 {
                    self.items.len() - 1
                } else {
                    i - 1
                }
            },
            None => 0,
        };
        self.selected = Some(i);
    }

    /// Clears the selection.
    pub fn clear(&mut self)
        ensures
            final(self).selected is None,
            final(self).items@ == old(self).items@,
    {
        self.selected = None;
    }
}

/// The keys the tabs react to.
#[derive(PartialEq, Eq, Structural, Clone, Copy, Debug)]
pub enum KeyCode {
    Enter,
    Char(char),
    Backspace,
    Left,
    Right,
    Tab,
    Up,
    Down,
    Esc,
    Other,
}

/// A key event: the key, and whether it is a press (not a release or a
/// repeat).
#[derive(PartialEq, Eq, Structural, Clone, Copy, Debug)]
pub struct KeyPress {
    pub code: KeyCode,
    pub is_press: bool,
}

/// An available model with the number of nodes to start for it.
pub struct Model {
    pub name: String,
    pub num_nodes: i32,
}

impl Model {
    /// The line that shows this model in the New tab: its name, then its
    /// node count between angle brackets.
    pub fn label(&self) -> (t: String)
        ensures
            t@ == self.name@ + "           < "@ + crate::number::dec_int(self.num_nodes as int) + " >"@,
    {
        let mut t = crate::text::join_str(self.name.as_str(), "           < ");
        crate::number::push_signed(&mut t, self.num_nodes as i64);
        t.append(" >");
        t
    }

    /// A copy of this model entry.
    pub fn duplicate(&self) -> (m: Model)
        ensures
            m.name@ == self.name@,
            m.num_nodes == self.num_nodes,
    {
        Model { name: self.name.clone(), num_nodes: self.num_nodes }
    }
}

/// What a tab asks the front end to do after a key press.
pub enum ProcessResult {
    StartNetwork(Vec<Model>),
    LoadNetwork(String),
    StartSim,
    StopNetwork,
    StopSim,
    Command(String),
    ExitPage,
    Quit,
    NoOp,
}

/// The mode of the front end: choosing a tab, working in one, or showing an
/// error.
#[derive(PartialEq, Eq, Structural, Clone, Copy, Debug)]
pub enum Mode {
    Menu,
    Page,
    Error,
}

/// The value of a string list with its selection.
pub struct ListView {
    pub selected: Option<usize>,
    pub items: Seq<Seq<char>>,
}

/// The value of a list of strings: each string as its characters.
pub open spec fn strings_view(v: Seq<String>) -> Seq<Seq<char>> {
    v.map_values(|s: String| s@)
}

/// The value of a selectable list of strings.
pub open spec fn list_view(l: &StatefulList<String>) -> ListView {
    ListView { selected: l.selected, items: strings_view(l.items@) }
}

/// The value of a model entry: name and node count.
pub open spec fn model_view(m: Model) -> (Seq<char>, i32) {
    (m.name@, m.num_nodes)
}

/// The value of a tab's answer.
pub enum ResultView {
    StartNetwork(Seq<(Seq<char>, i32)>),
    LoadNetwork(Seq<char>),
    StartSim,
    StopNetwork,
    StopSim,
    Command(Seq<char>),
    ExitPage,
    Quit,
    NoOp,
}

/// The value of a tab's answer.
pub open spec fn result_view(r: &ProcessResult) -> ResultView {
    match r {
        ProcessResult::StartNetwork(v) => ResultView::StartNetwork(v@.map_values(|m: Model| model_view(m))),
        ProcessResult::LoadNetwork(s) => ResultView::LoadNetwork(s@),
        ProcessResult::StartSim => ResultView::StartSim,
        ProcessResult::StopNetwork => ResultView::StopNetwork,
        ProcessResult::StopSim => ResultView::StopSim,
        ProcessResult::Command(s) => ResultView::Command(s@),
        ProcessResult::ExitPage => ResultView::ExitPage,
        ProcessResult::Quit => ResultView::Quit,
        ProcessResult::NoOp => ResultView::NoOp,
    }
}

/// The list value after moving down one row.
pub open spec fn list_next(l: ListView) -> ListView {
    ListView { selected: spec_next(l.selected, l.items.len()), items: l.items }
}

/// The list value after moving up one row.
pub open spec fn list_previous(l: ListView) -> ListView {
    ListView { selected: spec_previous(l.selected, l.items.len()), items: l.items }
}

/// The list value with its selection cleared.
pub open spec fn list_clear(l: ListView) -> ListView {
    ListView { selected: None, items: l.items }
}

/// Moving down in this list does not fail.
pub open spec fn list_can_next(l: ListView) -> bool {
    can_move(l.selected, l.items.len())
}

/// Moving up in this list does not fail.
pub open spec fn list_can_previous(l: ListView) -> bool {
    l.selected == Some(0usize) ==> l.items.len() > 0
}

/// The strings of an optional list, or none.
pub open spec fn strings_or_empty(d: Option<Vec<String>>) -> Seq<Seq<char>> {
    match d {
        Some(v) => strings_view(v@),
        None => Seq::empty(),
    }
}

/// The strings of an optional list, or an empty list.
pub fn unwrap_or_empty(d: Option<Vec<String>>) -> (v: Vec<String>)
    ensures
        strings_view(v@) == strings_or_empty(d),
{
    match d {
        Some(v) => v,
        None => {
            let v: Vec<String> = Vec::new();
            assert(strings_view(v@) =~= Seq::<Seq<char>>::empty());
            v
        },
    }
}

} // verus!
