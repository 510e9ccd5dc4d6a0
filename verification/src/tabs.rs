//! The New, Load, Run and Wait tabs of the terminal front end.

use vstd::prelude::*;
use crate::tui::{
    KeyCode, KeyPress, ListView, Model, ProcessResult, ResultView, StatefulList, can_move,
    list_can_next, list_can_previous, list_clear, list_next, list_previous, list_view, model_view,
    result_view, spec_next, spec_previous, strings_or_empty, strings_view, unwrap_or_empty,
};

verus! {

/// The New tab: the available models and how many nodes to start of each.
pub struct NewTab {
    pub models: StatefulList<Model>,
}

/// The models of the New tab with their node counts.
pub open spec fn models_view(v: Seq<Model>) -> Seq<(Seq<char>, i32)> {
    v.map_values(|m: Model| model_view(m))
}

/// Copies of a list of model entries.
pub fn copy_models(v: &Vec<Model>) -> (r: Vec<Model>)
    ensures
        models_view(r@) == models_view(v@),
{
    let mut r: Vec<Model> = Vec::new();
    let mut i: usize = 0;
    while i < v.len()
        invariant
            i <= v@.len(),
            models_view(r@) == models_view(v@.take(i as int)),
        decreases v@.len() - i,
    {
        let m = v[i].duplicate();
        let ghost r0 = r@;
        r.push(m);
        proof {
            crate::event::lemma_map_values_push(r0, m, |m: Model| model_view(m));
            crate::event::lemma_map_values_push(v@.take(i as int), v@[i as int], |m: Model| model_view(m));
            assert(v@.take(i + 1) =~= v@.take(i as int).push(v@[i as int]));
        }
        i = i + 1;
    }
    assert(v@.take(v@.len() as int) =~= v@);
    r
}

/// The key presses on which the New tab would fail: moving in an empty list
/// with a selection, or changing the count of a selected row that does not
/// exist (or past `i32::MAX`).
pub open spec fn new_key_safe(sel: Option<usize>, models: Seq<(Seq<char>, i32)>, key: KeyPress) -> bool {
    match key.code {
        KeyCode::Down => can_move(sel, models.len()),
        KeyCode::Up => sel == Some(0usize) ==> models.len() > 0,
        KeyCode::Right => sel matches Some(i) ==> i < models.len() && models[i as int].1 < i32::MAX,
        KeyCode::Left => sel matches Some(i) ==> i < models.len(),
        _ => true,
    }
}

impl NewTab {
    /// A New tab over the given models, nothing selected.
    pub fn new(models: Vec<Model>) -> (t: Self)
        ensures
            t.models.selected is None,
            models_view(t.models.items@) == models_view(models@),
    {
        NewTab { models: StatefulList::with_items(models) }
    }

    /// Called when the tab is shown: selects the first model.
    pub fn init(&mut self)
        requires
            can_move(old(self).models.selected, old(self).models.items@.len()),
        ensures
            final(self).models.selected == spec_next(old(self).models.selected, old(self).models.items@.len()),
            final(self).models.items@ == old(self).models.items@,
    {
        self.models.next();
    }

    /// Called when the tab is left: clears the selection.
    pub fn close(&mut self)
        ensures
            final(self).models.selected is None,
            final(self).models.items@ == old(self).models.items@,
    {
        self.models.clear();
    }

    /// Handles a key: Up/Down move the selection, Right/Left change the
    /// selected model's node count (never below zero), Enter asks to start a
    /// network with all models and their counts.
    pub fn process(&mut self, key: KeyPress) -> (r: ProcessResult)
        requires
            new_key_safe(old(self).models.selected, models_view(old(self).models.items@), key),
        ensures
            ({
                let sel = old(self).models.selected;
                let ms = models_view(old(self).models.items@);
                let len = ms.len();
                &&& final(self).models.items@.len() == len
                &&& match key.code {
                    KeyCode::Down => final(self).models.selected == spec_next(sel, len)
                        && models_view(final(self).models.items@) == ms && result_view(&r) == ResultView::NoOp,
                    KeyCode::Up => final(self).models.selected == spec_previous(sel, len)
                        && models_view(final(self).models.items@) == ms && result_view(&r) == ResultView::NoOp,
                    KeyCode::Right => final(self).models.selected == sel && result_view(&r) == ResultView::NoOp
                        && models_view(final(self).models.items@) == match sel {
                            Some(i) => ms.update(i as int, (ms[i as int].0, (ms[i as int].1 + 1) as i32)),
                            None => ms,
                        },
                    KeyCode::Left => final(self).models.selected == sel && result_view(&r) == ResultView::NoOp
                        && models_view(final(self).models.items@) == match sel {
                            Some(i) => if ms[i as int].1 > 0 {
                                ms.update(i as int, (ms[i as int].0, (ms[i as int].1 - 1) as i32))
                            } else {
                                ms
                            },
                            None => ms,
                        },
                    KeyCode::Enter => final(self).models.selected == sel
                        && models_view(final(self).models.items@) == ms
                        && result_view(&r) == ResultView::StartNetwork(ms),
                    _ => final(self).models.selected == sel && models_view(final(self).models.items@) == ms
                        && result_view(&r) == ResultView::NoOp,
                }
            }),
    {
        let ghost ms = models_view(self.models.items@);
        match key.code {
            KeyCode::Down => {
                self.models.next();
            },
            KeyCode::Up => {
                self.models.previous();
            },
            KeyCode::Right => {
                if let Some(i) = self.models.selected {
                    let mut m = self.models.items[i].duplicate();
                    m.num_nodes = m.num_nodes + 1;
                    let ghost mv = model_view(m);
                    self.models.items.set(i, m);
                    proof {
                        assert(models_view(self.models.items@) =~= ms.update(i as int, mv));
                    }
                }
            },
            KeyCode::Left => {
                if let Some(i) = self.models.selected {
                    let current_num = self.models.items[i].num_nodes;
                    if current_num > 0 {
                        let mut m = self.models.items[i].duplicate();
                        m.num_nodes = current_num - 1;
                        let ghost mv = model_view(m);
                        self.models.items.set(i, m);
                        proof {
                            assert(models_view(self.models.items@) =~= ms.update(i as int, mv));
                        }
                    }
                }
            },
            KeyCode::Enter => {
                return ProcessResult::StartNetwork(copy_models(&self.models.items));
            },
            _ => {},
        }
        ProcessResult::NoOp
    }

    /// The position of this tab in the tab bar.
    pub fn get_index(&self) -> (i: usize)
        ensures
            i == 0,
    {
        0
    }

    /// Esc leaves the tab.
    pub fn esc_operation(&mut self) -> (r: ProcessResult)
        ensures
            result_view(&r) == ResultView::ExitPage,
    {
        ProcessResult::ExitPage
    }

    /// `q` quits the program.
    pub fn quit_operation(&mut self) -> (r: ProcessResult)
        ensures
            result_view(&r) == ResultView::Quit,
    {
        ProcessResult::Quit
    }
}

/// The Load tab: the saved simulations.
pub struct LoadTab {
    pub sims: StatefulList<String>,
}

/// The key presses on which the Load tab would fail: moving in an empty
/// list with a selection, or loading with no (or a stale) selection.
pub open spec fn load_key_safe(l: ListView, key: KeyPress) -> bool {
    match key.code {
        KeyCode::Down => list_can_next(l),
        KeyCode::Up => list_can_previous(l),
        KeyCode::Enter => l.selected matches Some(i) && i < l.items.len(),
        _ => true,
    }
}

impl LoadTab {
    /// A Load tab over the given simulation names, nothing selected.
    pub fn new(sims: Vec<String>) -> (t: Self)
        ensures
            list_view(&t.sims) == (ListView { selected: None, items: strings_view(sims@) }),
    {
        LoadTab { sims: StatefulList::with_items(sims) }
    }

    /// Called when the tab is shown: selects the first simulation.
    pub fn init(&mut self)
        requires
            list_can_next(list_view(&old(self).sims)),
        ensures
            list_view(&final(self).sims) == list_next(list_view(&old(self).sims)),
    {
        self.sims.next();
    }

    /// Called when the tab is left: clears the selection.
    pub fn close(&mut self)
        ensures
            list_view(&final(self).sims) == list_clear(list_view(&old(self).sims)),
    {
        self.sims.clear();
    }

    /// Handles a key: Up/Down move the selection, Enter asks to load the
    /// selected simulation.
    pub fn process(&mut self, key: KeyPress) -> (r: ProcessResult)
        requires
            load_key_safe(list_view(&old(self).sims), key),
        ensures
            ({
                let l = list_view(&old(self).sims);
                match key.code {
                    KeyCode::Down => list_view(&final(self).sims) == list_next(l) && result_view(&r) == ResultView::NoOp,
                    KeyCode::Up => list_view(&final(self).sims) == list_previous(l) && result_view(&r) == ResultView::NoOp,
                    KeyCode::Enter => list_view(&final(self).sims) == l
                        && result_view(&r) == ResultView::LoadNetwork(l.items[l.selected.unwrap() as int]),
                    _ => list_view(&final(self).sims) == l && result_view(&r) == ResultView::NoOp,
                }
            }),
    {
        match key.code {
            KeyCode::Down => {
                self.sims.next();
            },
            KeyCode::Up => {
                self.sims.previous();
            },
            KeyCode::Enter => {
                let i = self.sims.selected.unwrap();
                return ProcessResult::LoadNetwork(self.sims.items[i].clone());
            },
            _ => {},
        }
        ProcessResult::NoOp
    }

    /// The position of this tab in the tab bar.
    pub fn get_index(&self) -> (i: usize)
        ensures
            i == 1,
    {
        1
    }

    /// Replaces the simulation names (absent data empties the list).
    pub fn update_config_data(
        &mut self,
        sims: Option<Vec<String>>,
        data2: Option<Vec<String>>,
        data3: Option<Vec<String>>,
        data4: Option<Vec<String>>,
    )
        ensures
            list_view(&final(self).sims) == (ListView { items: strings_or_empty(sims), ..list_view(&old(self).sims) }),
    {
        self.sims.items = unwrap_or_empty(sims);
    }

    /// Esc leaves the tab.
    pub fn esc_operation(&mut self) -> (r: ProcessResult)
        ensures
            result_view(&r) == ResultView::ExitPage,
    {
        ProcessResult::ExitPage
    }

    /// `q` quits the program.
    pub fn quit_operation(&mut self) -> (r: ProcessResult)
        ensures
            result_view(&r) == ResultView::Quit,
    {
        ProcessResult::Quit
    }
}

/// The part of the Run tab that has the focus.
#[derive(PartialEq, Eq, Structural, Clone, Copy, Debug)]
pub enum RunSection {
    Events,
    Activity,
    Stats,
}

/// The lists of the Run tab (its progress gauge and chart are drawn by the
/// front end).
pub struct RunTab {
    pub events: StatefulList<String>,
    pub activity: StatefulList<String>,
    pub stats: StatefulList<String>,
    pub current_section: RunSection,
}

/// The key presses on which the Run tab would fail: moving in an empty list
/// that has a selection.
pub open spec fn run_key_safe(t: &RunTab, key: KeyPress) -> bool {
    match key.code {
        KeyCode::Tab => match t.current_section {
            RunSection::Events => list_can_next(list_view(&t.activity)),
            RunSection::Activity => list_can_next(list_view(&t.stats)),
            RunSection::Stats => list_can_next(list_view(&t.events)),
        },
        KeyCode::Up => match t.current_section {
            RunSection::Events => list_can_previous(list_view(&t.events)),
            RunSection::Activity => list_can_previous(list_view(&t.activity)),
            RunSection::Stats => list_can_previous(list_view(&t.stats)),
        },
        KeyCode::Down => match t.current_section {
            RunSection::Events => list_can_next(list_view(&t.events)),
            RunSection::Activity => list_can_next(list_view(&t.activity)),
            RunSection::Stats => list_can_next(list_view(&t.stats)),
        },
        _ => true,
    }
}

impl RunTab {
    /// An empty Run tab with the event list focused.
    pub fn new() -> (t: Self)
        ensures
            list_view(&t.events) == (ListView { selected: None, items: Seq::empty() }),
            list_view(&t.activity) == (ListView { selected: None, items: Seq::empty() }),
            list_view(&t.stats) == (ListView { selected: None, items: Seq::empty() }),
            t.current_section == RunSection::Events,
    {
        let t = RunTab {
            events: StatefulList::with_items(Vec::new()),
            activity: StatefulList::with_items(Vec::new()),
            stats: StatefulList::with_items(Vec::new()),
            current_section: RunSection::Events,
        };
        assert(list_view(&t.events).items =~= Seq::<Seq<char>>::empty());
        assert(list_view(&t.activity).items =~= Seq::<Seq<char>>::empty());
        assert(list_view(&t.stats).items =~= Seq::<Seq<char>>::empty());
        t
    }

    /// Called when the tab is shown: focuses the event list and selects its
    /// first row.
    pub fn init(&mut self)
        requires
            list_can_next(list_view(&old(self).events)),
        ensures
            final(self).current_section == RunSection::Events,
            list_view(&final(self).events) == list_next(list_view(&old(self).events)),
            list_view(&final(self).activity) == list_view(&old(self).activity),
            list_view(&final(self).stats) == list_view(&old(self).stats),
    {
        self.current_section = RunSection::Events;
        self.events.next();
    }

    /// Called when the tab is left: clears the selections.
    pub fn close(&mut self)
        ensures
            final(self).current_section == old(self).current_section,
            list_view(&final(self).events) == list_clear(list_view(&old(self).events)),
            list_view(&final(self).activity) == list_clear(list_view(&old(self).activity)),
            list_view(&final(self).stats) == list_clear(list_view(&old(self).stats)),
    {
        self.events.clear();
        self.activity.clear();
        self.stats.clear();
    }

    /// Handles a key: `s` asks to stop the simulation, Tab moves the focus
    /// Events -> Activity -> Stats -> Events, Up/Down move in the focused
    /// list.
    pub fn process(&mut self, key: KeyPress) -> (r: ProcessResult)
        requires
            run_key_safe(old(self), key),
        ensures
            ({
                let e = list_view(&old(self).events);
                let a = list_view(&old(self).activity);
                let s = list_view(&old(self).stats);
                let (e2, a2, s2, sec2, res) = match key.code {
                    KeyCode::Char('s') => (list_clear(e), list_clear(a), list_clear(s), old(self).current_section, ResultView::StopSim),
                    KeyCode::Tab => match old(self).current_section {
                        RunSection::Events => (list_clear(e), list_next(a), s, RunSection::Activity, ResultView::NoOp),
                        RunSection::Activity => (e, list_clear(a), list_next(s), RunSection::Stats, ResultView::NoOp),
                        RunSection::Stats => (list_next(e), a, list_clear(s), RunSection::Events, ResultView::NoOp),
                    },
                    KeyCode::Up => match old(self).current_section {
                        RunSection::Events => (list_previous(e), a, s, RunSection::Events, ResultView::NoOp),
                        RunSection::Activity => (e, list_previous(a), s, RunSection::Activity, ResultView::NoOp),
                        RunSection::Stats => (e, a, list_previous(s), RunSection::Stats, ResultView::NoOp),
                    },
                    KeyCode::Down => match old(self).current_section {
                        RunSection::Events => (list_next(e), a, s, RunSection::Events, ResultView::NoOp),
                        RunSection::Activity => (e, list_next(a), s, RunSection::Activity, ResultView::NoOp),
                        RunSection::Stats => (e, a, list_next(s), RunSection::Stats, ResultView::NoOp),
                    },
                    _ => (e, a, s, old(self).current_section, ResultView::NoOp),
                };
                &&& list_view(&final(self).events) == e2
                &&& list_view(&final(self).activity) == a2
                &&& list_view(&final(self).stats) == s2
                &&& final(self).current_section == sec2
                &&& result_view(&r) == res
            }),
    {
        match key.code {
            KeyCode::Char(c) => {
                if c == 's' {
                    self.close();
                    return ProcessResult::StopSim;
                }
            },
            KeyCode::Tab => {
                match self.current_section {
                    RunSection::Events => {
                        self.current_section = RunSection::Activity;
                        self.events.clear();
                        self.activity.next();
                    },
                    RunSection::Activity => {
                        self.current_section = RunSection::Stats;
                        self.activity.clear();
                        self.stats.next();
                    },
                    RunSection::Stats => {
                        self.current_section = RunSection::Events;
                        self.stats.clear();
                        self.events.next();
                    },
                }
            },
            KeyCode::Up => {
                match self.current_section {
                    RunSection::Events => {
                        self.events.previous();
                    },
                    RunSection::Activity => {
                        self.activity.previous();
                    },
                    RunSection::Stats => {
                        self.stats.previous();
                    },
                }
            },
            KeyCode::Down => {
                match self.current_section {
                    RunSection::Events => {
                        self.events.next();
                    },
                    RunSection::Activity => {
                        self.activity.next();
                    },
                    RunSection::Stats => {
                        self.stats.next();
                    },
                }
            },
            _ => {},
        }
        ProcessResult::NoOp
    }

    /// The position of this tab in the tab bar.
    pub fn get_index(&self) -> (i: usize)
        ensures
            i == 3,
    {
        3
    }

    /// Replaces the three lists with the latest simulation data (absent data
    /// empties a list).
    pub fn update_lists(&mut self, events: Option<Vec<String>>, activity: Option<Vec<String>>, stats: Option<Vec<String>>)
        ensures
            list_view(&final(self).events) == (ListView { items: strings_or_empty(events), ..list_view(&old(self).events) }),
            list_view(&final(self).activity) == (ListView { items: strings_or_empty(activity), ..list_view(&old(self).activity) }),
            list_view(&final(self).stats) == (ListView { items: strings_or_empty(stats), ..list_view(&old(self).stats) }),
            final(self).current_section == old(self).current_section,
    {
        self.events.items = unwrap_or_empty(events);
        self.activity.items = unwrap_or_empty(activity);
        self.stats.items = unwrap_or_empty(stats);
    }

    /// Esc does nothing on this tab.
    pub fn esc_operation(&mut self) -> (r: ProcessResult)
        ensures
            result_view(&r) == ResultView::NoOp,
    {
        ProcessResult::NoOp
    }

    /// `q` does nothing on this tab.
    pub fn quit_operation(&mut self) -> (r: ProcessResult)
        ensures
            result_view(&r) == ResultView::NoOp,
    {
        ProcessResult::NoOp
    }
}

/// The Wait tab: a message shown while a long task runs.
pub struct WaitTab {
    pub message: String,
}

impl WaitTab {
    /// Keys are ignored while waiting.
    pub fn process(&mut self, key: KeyPress) -> (r: ProcessResult)
        ensures
            result_view(&r) == ResultView::NoOp,
            final(self).message@ == old(self).message@,
    {
        ProcessResult::NoOp
    }

    /// The position of this tab (after the four tabs of the bar).
    pub fn get_index(&self) -> (i: usize)
        ensures
            i == 4,
    {
        4
    }

    /// Esc leaves the wait screen.
    pub fn esc_operation(&mut self) -> (r: ProcessResult)
        ensures
            result_view(&r) == ResultView::ExitPage,
    {
        ProcessResult::ExitPage
    }

    /// `q` does nothing while waiting.
    pub fn quit_operation(&mut self) -> (r: ProcessResult)
        ensures
            result_view(&r) == ResultView::NoOp,
    {
        ProcessResult::NoOp
    }
}

} // verus!
