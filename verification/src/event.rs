//! Simulation events and the per-frame event schedule.

use std::collections::HashMap;
use vstd::prelude::*;
use crate::number::{dec_int, spec_parse_i64, spec_int_error_message, push_signed, parse_i64};
use crate::text::{join_str, str_eq};

verus! {

broadcast use {
    vstd::std_specs::hash::group_hash_axioms,
    vstd::std_specs::hash::axiom_u64_obeys_hash_table_key_model,
    vstd::std_specs::hash::axiom_random_state_builds_valid_hashers,
};

/// Seconds between two frames of the simulation.
pub const FRAME_RATE: u64 = 1;

/// Blocks mined at the end of every frame.
pub const BLOCKS_PER_FRAME: u64 = 10;

/// An action applied to the simulated network at a chosen frame.
#[derive(Debug)]
pub enum BlastEvent {
    /// Start the node with the given id.
    StartNodeEvent(String),
    /// Stop the node with the given id.
    StopNodeEvent(String),
    /// Open a channel: source node, destination node, amount, push amount, channel id.
    OpenChannelEvent(String, String, i64, i64, i64),
    /// Close a channel: source node, channel id.
    CloseChannelEvent(String, i64),
    /// No event (what an unknown event name reads as).
    NoEvent,
}

/// The mathematical value of an event: its kind and its fields, names as
/// character sequences.
pub enum EventSpec {
    StartNode(Seq<char>),
    StopNode(Seq<char>),
    OpenChannel(Seq<char>, Seq<char>, i64, i64, i64),
    CloseChannel(Seq<char>, i64),
    NoEvent,
}

impl View for BlastEvent {
    type V = EventSpec;

    open spec fn view(&self) -> EventSpec {
        match self {
            BlastEvent::StartNodeEvent(a) => EventSpec::StartNode(a@),
            BlastEvent::StopNodeEvent(a) => EventSpec::StopNode(a@),
            BlastEvent::OpenChannelEvent(a, b, c, d, e) => EventSpec::OpenChannel(a@, b@, *c, *d, *e),
            BlastEvent::CloseChannelEvent(a, b) => EventSpec::CloseChannel(a@, *b),
            BlastEvent::NoEvent => EventSpec::NoEvent,
        }
    }
}

/// The event kind that an event name stands for, with empty fields.
pub open spec fn spec_event_from_name(s: Seq<char>) -> EventSpec {
    if s == "StartNode"@ {
        EventSpec::StartNode(Seq::empty())
    } else if s == "StopNode"@ {
        EventSpec::StopNode(Seq::empty())
    } else if s == "OpenChannel"@ {
        EventSpec::OpenChannel(Seq::empty(), Seq::empty(), 0, 0, 0)
    } else if s == "CloseChannel"@ {
        EventSpec::CloseChannel(Seq::empty(), 0)
    } else {
        EventSpec::NoEvent
    }
}

/// How many arguments an event of this kind takes.
pub open spec fn spec_num_fields(e: EventSpec) -> nat {
    match e {
        EventSpec::StartNode(_) => 1,
        EventSpec::StopNode(_) => 1,
        EventSpec::OpenChannel(_, _, _, _, _) => 5,
        EventSpec::CloseChannel(_, _) => 2,
        EventSpec::NoEvent => 0,
    }
}

/// The text an event prints as.
pub open spec fn spec_event_text(e: EventSpec) -> Seq<char> {
    match e {
        EventSpec::StartNode(a) => "StartNodeEvent: "@ + a,
        EventSpec::StopNode(a) => "StopNodeEvent: "@ + a,
        EventSpec::OpenChannel(a, b, c, d, f) => "OpenChannelEvent: "@ + a + " "@ + b + " "@
            + dec_int(c as int) + " "@ + dec_int(d as int) + " "@ + dec_int(f as int),
        EventSpec::CloseChannel(a, b) => "CloseChannelEvent: "@ + a + " "@ + dec_int(b as int),
        EventSpec::NoEvent => "NoEvent"@,
    }
}

impl BlastEvent {
    /// The event kind named by `s` ("StartNode", "StopNode", "OpenChannel",
    /// "CloseChannel"), with empty fields; any other name gives `NoEvent`.
    pub fn from_str(s: &str) -> (e: BlastEvent)
        ensures
            e@ == spec_event_from_name(s@),
    {
        if str_eq(s, "StartNode") {
            BlastEvent::StartNodeEvent(String::new())
        } else if str_eq(s, "StopNode") {
            BlastEvent::StopNodeEvent(String::new())
        } else if str_eq(s, "OpenChannel") {
            BlastEvent::OpenChannelEvent(String::new(), String::new(), 0, 0, 0)
        } else if str_eq(s, "CloseChannel") {
            BlastEvent::CloseChannelEvent(String::new(), 0)
        } else {
            BlastEvent::NoEvent
        }
    }

    /// How many arguments an event of this kind takes.
    pub fn num_fields(&self) -> (n: usize)
        ensures
            n == spec_num_fields(self@),
    {
        match self {
            BlastEvent::StartNodeEvent(_) => 1,
            BlastEvent::StopNodeEvent(_) => 1,
            BlastEvent::OpenChannelEvent(_, _, _, _, _) => 5,
            BlastEvent::CloseChannelEvent(_, _) => 2,
            BlastEvent::NoEvent => 0,
        }
    }

    /// The text this event prints as.
    pub fn to_text(&self) -> (t: String)
        ensures
            t@ == spec_event_text(self@),
    {
        match self {
            BlastEvent::StartNodeEvent(a) => join_str("StartNodeEvent: ", a.as_str()),
            BlastEvent::StopNodeEvent(a) => join_str("StopNodeEvent: ", a.as_str()),
            BlastEvent::OpenChannelEvent(a, b, c, d, e) => {
                let mut t = join_str("OpenChannelEvent: ", a.as_str());
                t.append(" ");
                t.append(b.as_str());
                t.append(" ");
                push_signed(&mut t, *c);
                t.append(" ");
                push_signed(&mut t, *d);
                t.append(" ");
                push_signed(&mut t, *e);
                t
            },
            BlastEvent::CloseChannelEvent(a, b) => {
                let mut t = join_str("CloseChannelEvent: ", a.as_str());
                t.append(" ");
                push_signed(&mut t, *b);
                t
            },
            BlastEvent::NoEvent => String::from_str("NoEvent"),
        }
    }

    /// A copy of this event.
    pub fn duplicate(&self) -> (e: BlastEvent)
        ensures
            e@ == self@,
    {
        match self {
            BlastEvent::StartNodeEvent(a) => BlastEvent::StartNodeEvent(a.clone()),
            BlastEvent::StopNodeEvent(a) => BlastEvent::StopNodeEvent(a.clone()),
            BlastEvent::OpenChannelEvent(a, b, c, d, e) => BlastEvent::OpenChannelEvent(
                a.clone(),
                b.clone(),
                *c,
                *d,
                *e,
            ),
            BlastEvent::CloseChannelEvent(a, b) => BlastEvent::CloseChannelEvent(a.clone(), *b),
            BlastEvent::NoEvent => BlastEvent::NoEvent,
        }
    }
}

/// Mapping over a sequence commutes with appending one element.
pub proof fn lemma_map_values_push<A, B>(s: Seq<A>, x: A, f: spec_fn(A) -> B)
    ensures
        s.push(x).map_values(f) == s.map_values(f).push(f(x)),
{
    assert(s.push(x).map_values(f) =~= s.map_values(f).push(f(x)));
}

/// The character view of an optional list of string arguments.
pub open spec fn args_view(args: Option<Vec<String>>) -> Option<Seq<Seq<char>>> {
    match args {
        Some(v) => Some(v@.map_values(|a: String| a@)),
        None => None,
    }
}

/// The message for an argument that is not a number.
pub open spec fn spec_arg_error(k: crate::number::IntErrorKind) -> Seq<char> {
    "Error parsing argument: "@ + spec_int_error_message(k)
}

/// The event that `add_event` schedules for the event name `name` and the
/// arguments `args`, or the message it refuses them with.
pub open spec fn spec_build_event(name: Seq<char>, args: Option<Seq<Seq<char>>>) -> Result<EventSpec, Seq<char>> {
    let e = spec_event_from_name(name);
    if e is NoEvent {
        Err("Error parsing BlastEvent"@)
    } else {
        match args {
            None => Err("No args given for "@ + spec_event_text(e) + "."@),
            Some(a) => if a.len() != spec_num_fields(e) {
                Err("Not the correct number of args for "@ + spec_event_text(e) + "."@)
            } else {
                match e {
                    EventSpec::StartNode(_) => Ok(EventSpec::StartNode(a[0])),
                    EventSpec::StopNode(_) => Ok(EventSpec::StopNode(a[0])),
                    EventSpec::OpenChannel(_, _, _, _, _) => match spec_parse_i64(a[2]) {
                        Err(k) => Err(spec_arg_error(k)),
                        Ok(amount) => match spec_parse_i64(a[3]) {
                            Err(k) => Err(spec_arg_error(k)),
                            Ok(push) => match spec_parse_i64(a[4]) {
                                Err(k) => Err(spec_arg_error(k)),
                                Ok(id) => Ok(EventSpec::OpenChannel(a[0], a[1], amount, push, id)),
                            },
                        },
                    },
                    EventSpec::CloseChannel(_, _) => match spec_parse_i64(a[1]) {
                        Err(k) => Err(spec_arg_error(k)),
                        Ok(id) => Ok(EventSpec::CloseChannel(a[0], id)),
                    },
                    EventSpec::NoEvent => Err("Error parsing BlastEvent"@),
                }
            },
        }
    }
}

/// The events scheduled at `frame` in a schedule (none when the frame has
/// no entry).
pub open spec fn scheduled_at(m: Map<u64, Seq<EventSpec>>, frame: u64) -> Seq<EventSpec> {
    if m.contains_key(frame) {
        m[frame]
    } else {
        Seq::empty()
    }
}

/// What the event thread does at one frame.
pub enum FrameAction {
    /// The simulation was stopped: leave the loop.
    Halt,
    /// Send these events, mine `BLOCKS_PER_FRAME` blocks, then wait
    /// `FRAME_RATE` seconds and go on with frame `next_frame`.
    Dispatch { events: Vec<BlastEvent>, next_frame: u64 },
}

/// The schedule of simulation events, by frame number.
pub struct BlastEventManager {
    events: HashMap<u64, Vec<BlastEvent>>,
}

impl View for BlastEventManager {
    type V = Map<u64, Seq<EventSpec>>;

    closed spec fn view(&self) -> Map<u64, Seq<EventSpec>> {
        self.events@.map_values(|v: Vec<BlastEvent>| v@.map_values(|e: BlastEvent| e@))
    }
}

impl BlastEventManager {
    /// An event manager with nothing scheduled.
    pub fn new() -> (m: Self)
        ensures
            m@ == Map::<u64, Seq<EventSpec>>::empty(),
    {
        let m = BlastEventManager { events: HashMap::new() };
        assert(m@ =~= Map::<u64, Seq<EventSpec>>::empty());
        m
    }

    /// Schedules the event named `event` with the arguments `args` at frame
    /// `frame_num`. Numbers are read as `i64`; the event is added after the
    /// ones already at that frame. On error nothing changes.
    pub fn add_event(&mut self, frame_num: u64, event: &str, args: Option<Vec<String>>) -> (r: Result<(), String>)
        ensures
            match spec_build_event(event@, args_view(args)) {
                Ok(e) => r is Ok && final(self)@ == old(self)@.insert(frame_num, scheduled_at(old(self)@, frame_num).push(e)),
                Err(msg) => r matches Err(m) && m@ == msg && final(self)@ == old(self)@,
            },
    {
        let e = BlastEvent::from_str(event);
        match e {
            BlastEvent::NoEvent => {
                return Err(String::from_str("Error parsing BlastEvent"));
            },
            _ => {},
        }
        let a = self.validate_args(args, &e)?;
        let blast_event = match e {
            BlastEvent::StartNodeEvent(_) => BlastEvent::StartNodeEvent(a[0].clone()),
            BlastEvent::StopNodeEvent(_) => BlastEvent::StopNodeEvent(a[0].clone()),
            BlastEvent::OpenChannelEvent(_, _, _, _, _) => {
                let arg2 = match parse_i64(a[2].as_str()) {
                    Ok(n) => n,
                    Err(k) => return Err(join_str("Error parsing argument: ", k.message().as_str())),
                };
                let arg3 = match parse_i64(a[3].as_str()) {
                    Ok(n) => n,
                    Err(k) => return Err(join_str("Error parsing argument: ", k.message().as_str())),
                };
                let arg4 = match parse_i64(a[4].as_str()) {
                    Ok(n) => n,
                    Err(k) => return Err(join_str("Error parsing argument: ", k.message().as_str())),
                };
                BlastEvent::OpenChannelEvent(a[0].clone(), a[1].clone(), arg2, arg3, arg4)
            },
            BlastEvent::CloseChannelEvent(_, _) => {
                let arg1 = match parse_i64(a[1].as_str()) {
                    Ok(n) => n,
                    Err(k) => return Err(join_str("Error parsing argument: ", k.message().as_str())),
                };
                BlastEvent::CloseChannelEvent(a[0].clone(), arg1)
            },
            BlastEvent::NoEvent => {
                return Err(String::from_str("Error parsing BlastEvent"));
            },
        };
        self.push_event(frame_num, blast_event);
        Ok(())
    }

    /// Checks that arguments were given, as many as the event takes.
    fn validate_args(&self, args: Option<Vec<String>>, event: &BlastEvent) -> (r: Result<Vec<String>, String>)
        ensures
            match args {
                None => r matches Err(m) && m@ == "No args given for "@ + spec_event_text(event@) + "."@,
                Some(a) => if a@.len() != spec_num_fields(event@) {
                    r matches Err(m) && m@ == "Not the correct number of args for "@ + spec_event_text(event@) + "."@
                } else {
                    r == Ok::<Vec<String>, String>(a)
                },
            },
    {
        match args {
            Some(a) => {
                if a.len() != event.num_fields() {
                    let mut m = join_str("Not the correct number of args for ", event.to_text().as_str());
                    m.append(".");
                    return Err(m);
                }
                Ok(a)
            },
            None => {
                let mut m = join_str("No args given for ", event.to_text().as_str());
                m.append(".");
                Err(m)
            },
        }
    }

    /// Appends `event` to the events of frame `frame_num`.
    fn push_event(&mut self, frame_num: u64, event: BlastEvent)
        ensures
            final(self)@ == old(self)@.insert(frame_num, scheduled_at(old(self)@, frame_num).push(event@)),
    {
        let ghost old_events = self.events@;
        let mut current_events: Vec<BlastEvent> = match self.events.remove(&frame_num) {
            Some(v) => v,
            None => Vec::new(),
        };
        let ghost before = current_events@;
        proof {
            lemma_map_values_push(before, event, |e: BlastEvent| e@);
            if old_events.contains_key(frame_num) {
                assert(before.map_values(|e: BlastEvent| e@) == scheduled_at(old(self)@, frame_num));
            } else {
                assert(before.map_values(|e: BlastEvent| e@) =~= scheduled_at(old(self)@, frame_num));
            }
        }
        current_events.push(event);
        self.events.insert(frame_num, current_events);
        proof {
            assert(self.events@ =~= old_events.insert(frame_num, current_events));
            assert(final(self)@ =~= old(self)@.insert(frame_num, scheduled_at(old(self)@, frame_num).push(event@)));
        }
    }

    /// Copies of the events scheduled at `frame_num`, in the order they were
    /// added.
    pub fn events_at(&self, frame_num: u64) -> (r: Vec<BlastEvent>)
        ensures
            r@.map_values(|e: BlastEvent| e@) == scheduled_at(self@, frame_num),
    {
        let mut r: Vec<BlastEvent> = Vec::new();
        match self.events.get(&frame_num) {
            Some(v) => {
                let mut i: usize = 0;
                while i < v.len()
                    invariant
                        i <= v@.len(),
                        r@.map_values(|e: BlastEvent| e@) == v@.take(i as int).map_values(|e: BlastEvent| e@),
                    decreases v@.len() - i,
                {
                    let e = v[i].duplicate();
                    let ghost old_r = r@;
                    r.push(e);
                    proof {
                        assert(v@.take(i + 1) =~= v@.take(i as int).push(v@[i as int]));
                        lemma_map_values_push(old_r, e, |e: BlastEvent| e@);
                        lemma_map_values_push(v@.take(i as int), v@[i as int], |e: BlastEvent| e@);
                        assert(r@.map_values(|e: BlastEvent| e@) =~= v@.take(i + 1).map_values(|e: BlastEvent| e@));
                    }
                    i = i + 1;
                }
                proof {
                    assert(v@.take(v@.len() as int) =~= v@);
                }
            },
            None => {},
        }
        proof {
            assert(r@.map_values(|e: BlastEvent| e@) =~= scheduled_at(self@, frame_num));
        }
        r
    }

    /// What the event thread does at frame `frame_num`: leave when the
    /// simulation is no longer running, else send the events of this frame
    /// and move on to the next frame.
    pub fn frame_step(&self, running: bool, frame_num: u64) -> (a: FrameAction)
        requires
            frame_num < u64::MAX,
        ensures
            !running ==> a is Halt,
            running ==> (a matches FrameAction::Dispatch { events, next_frame }
                && next_frame == frame_num + 1
                && events@.map_values(|e: BlastEvent| e@) == scheduled_at(self@, frame_num)),
    {
        if !running {
            return FrameAction::Halt;
        }
        FrameAction::Dispatch { events: self.events_at(frame_num), next_frame: frame_num + 1 }
    }
}

} // verus!
