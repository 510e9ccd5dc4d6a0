//! The channels a node model opened, by the id BLAST gave them: recorded
//! when a channel is opened, looked up and forgotten when it is closed, and
//! listed for the channel overview.

use vstd::prelude::*;
use crate::node_models::{channel_list, channel_list_text};
use crate::number::{dec_int, push_signed};

verus! {

/// A channel opened by a model: the node that opened it, the peer's key
/// (as text) and the model's own reference to the channel.
pub struct OpenChannel {
    pub source: String,
    pub peer: String,
    pub channel: String,
}

/// The value of an open channel.
pub struct ChannelView {
    pub source: Seq<char>,
    pub peer: Seq<char>,
    pub channel: Seq<char>,
}

/// The value of an open channel.
pub open spec fn channel_view(c: OpenChannel) -> ChannelView {
    ChannelView { source: c.source@, peer: c.peer@, channel: c.channel@ }
}

/// The registry of a model's open channels.
pub struct OpenChannels {
    entries: Vec<(i64, OpenChannel)>,
}

/// Some entry has this id.
spec fn has_id(s: Seq<(i64, OpenChannel)>, k: i64) -> bool {
    exists|i: int| 0 <= i < s.len() && s[i].0 == k
}

/// The channels by id.
spec fn map_of(s: Seq<(i64, OpenChannel)>) -> Map<i64, ChannelView> {
    Map::new(
        |k: i64| has_id(s, k),
        |k: i64| channel_view(s[choose|i: int| 0 <= i < s.len() && s[i].0 == k].1),
    )
}

/// No id occurs twice.
spec fn ids_distinct(s: Seq<(i64, OpenChannel)>) -> bool {
    forall|a: int, b: int| 0 <= a < b < s.len() ==> s[a].0 != s[b].0
}

proof fn lemma_entry_in_map(s: Seq<(i64, OpenChannel)>, i: int)
    requires
        ids_distinct(s),
        0 <= i < s.len(),
    ensures
        map_of(s).contains_key(s[i].0),
        map_of(s)[s[i].0] == channel_view(s[i].1),
{
    assert(has_id(s, s[i].0));
    let j = choose|j: int| 0 <= j < s.len() && s[j].0 == s[i].0;
    if j != i {
        if j < i {
            assert(s[j].0 != s[i].0);
        } else {
            assert(s[i].0 != s[j].0);
        }
    }
}

impl View for OpenChannels {
    type V = Map<i64, ChannelView>;

    closed spec fn view(&self) -> Map<i64, ChannelView> {
        map_of(self.entries@)
    }
}

/// The line of the channel overview for one channel: id, opening node and
/// peer key.
pub open spec fn listing_entry(id: i64, c: ChannelView) -> (i64, Seq<char>, Seq<char>) {
    (id, c.source, c.peer)
}

impl OpenChannels {
    /// No id is recorded twice.
    pub closed spec fn wf(&self) -> bool {
        ids_distinct(self.entries@)
    }

    /// The channels in the order the overview lists them.
    pub closed spec fn listing(&self) -> Seq<(i64, Seq<char>, Seq<char>)> {
        self.entries@.map_values(|e: (i64, OpenChannel)| listing_entry(e.0, channel_view(e.1)))
    }

    /// No channel recorded.
    pub fn new() -> (r: Self)
        ensures
            r.wf(),
            r@ == Map::<i64, ChannelView>::empty(),
    {
        let r = OpenChannels { entries: Vec::new() };
        assert(r@ =~= Map::<i64, ChannelView>::empty());
        r
    }

    fn find(&self, id: i64) -> (r: Option<usize>)
        requires
            self.wf(),
        ensures
            match r {
                Some(i) => i < self.entries@.len() && self.entries@[i as int].0 == id,
                None => !self@.contains_key(id),
            },
    {
        let mut i: usize = 0;
        while i < self.entries.len()
            invariant
                i <= self.entries@.len(),
                forall|j: int| 0 <= j < i ==> self.entries@[j].0 != id,
            decreases self.entries@.len() - i,
        {
            if self.entries[i].0 == id {
                return Some(i);
            }
            i = i + 1;
        }
        None
    }

    /// Records the channel opened under `id` (replacing one recorded under
    /// the same id).
    pub fn record(&mut self, id: i64, channel: OpenChannel)
        requires
            old(self).wf(),
        ensures
            final(self).wf(),
            final(self)@ == old(self)@.insert(id, channel_view(channel)),
    {
        let ghost s = self.entries@;
        let ghost v = channel_view(channel);
        match self.find(id) {
            Some(i) => {
                self.entries.set(i, (id, channel));
                let ghost u = self.entries@;
                proof {
                    assert(ids_distinct(u)) by {
                        assert forall|a: int, b: int| 0 <= a < b < u.len() implies u[a].0 != u[b].0 by {
                            assert(s[a].0 != s[b].0);
                        }
                    }
                    assert forall|k: i64| #[trigger] map_of(u).contains_key(k) == s_insert_has(s, id, k) by {
                        if has_id(u, k) {
                            let j = choose|j: int| 0 <= j < u.len() && u[j].0 == k;
                            if j != i {
                                assert(s[j].0 == k);
                            }
                        }
                        if has_id(s, k) {
                            let j = choose|j: int| 0 <= j < s.len() && s[j].0 == k;
                            assert(u[j].0 == k);
                        }
                        if k == id {
                            assert(u[i as int].0 == k);
                        }
                    }
                    assert(map_of(u) =~= map_of(s).insert(id, v)) by {
                        assert forall|k: i64| #[trigger] map_of(u).contains_key(k) implies map_of(u)[k] == map_of(s).insert(id, v)[k] by {
                            let j = choose|j: int| 0 <= j < u.len() && u[j].0 == k;
                            lemma_entry_in_map(u, j);
                            if j != i {
                                lemma_entry_in_map(s, j);
                            }
                        }
                    }
                }
            },
            None => {
                self.entries.push((id, channel));
                let ghost u = self.entries@;
                proof {
                    assert(ids_distinct(u)) by {
                        assert forall|a: int, b: int| 0 <= a < b < u.len() implies u[a].0 != u[b].0 by {
                            if b == s.len() {
                                assert(!has_id(s, id));
                                assert(s[a].0 != id);
                            } else {
                                assert(s[a].0 != s[b].0);
                            }
                        }
                    }
                    assert forall|k: i64| #[trigger] map_of(u).contains_key(k) == s_insert_has(s, id, k) by {
                        if has_id(u, k) {
                            let j = choose|j: int| 0 <= j < u.len() && u[j].0 == k;
                            if j < s.len() {
                                assert(s[j].0 == k);
                            }
                        }
                        if has_id(s, k) {
                            let j = choose|j: int| 0 <= j < s.len() && s[j].0 == k;
                            assert(u[j].0 == k);
                        }
                        if k == id {
                            assert(u[s.len() as int].0 == k);
                        }
                    }
                    assert(map_of(u) =~= map_of(s).insert(id, v)) by {
                        assert forall|k: i64| #[trigger] map_of(u).contains_key(k) implies map_of(u)[k] == map_of(s).insert(id, v)[k] by {
                            let j = choose|j: int| 0 <= j < u.len() && u[j].0 == k;
                            lemma_entry_in_map(u, j);
                            if j < s.len() {
                                lemma_entry_in_map(s, j);
                            }
                        }
                    }
                }
            },
        }
    }

    /// The channel recorded under `id`, if any.
    pub fn get(&self, id: i64) -> (r: Option<OpenChannel>)
        requires
            self.wf(),
        ensures
            self@.contains_key(id) <==> r is Some,
            r matches Some(c) ==> channel_view(c) == self@[id],
    {
        match self.find(id) {
            Some(i) => {
                proof {
                    lemma_entry_in_map(self.entries@, i as int);
                }
                let e = &self.entries[i].1;
                Some(OpenChannel { source: e.source.clone(), peer: e.peer.clone(), channel: e.channel.clone() })
            },
            None => None,
        }
    }

    /// Forgets the channel recorded under `id` (after it was closed).
    pub fn forget(&mut self, id: i64)
        requires
            old(self).wf(),
        ensures
            final(self).wf(),
            final(self)@ == old(self)@.remove(id),
    {
        let ghost s = self.entries@;
        match self.find(id) {
            Some(i) => {
                self.entries.remove(i);
                let ghost u = self.entries@;
                proof {
                    assert(u =~= s.take(i as int) + s.skip(i + 1));
                    assert forall|j: int| 0 <= j < u.len() implies #[trigger] u[j] == s[if j < i { j } else { j + 1 }] by {}
                    assert(ids_distinct(u)) by {
                        assert forall|a: int, b: int| 0 <= a < b < u.len() implies u[a].0 != u[b].0 by {
                            assert(u[a] == s[if a < i { a } else { a + 1 }]);
                            assert(u[b] == s[if b < i { b } else { b + 1 }]);
                        }
                    }
                    assert(map_of(u) =~= map_of(s).remove(id)) by {
                        assert forall|k: i64| #[trigger] map_of(u).contains_key(k) == map_of(s).remove(id).contains_key(k) by {
                            if has_id(u, k) {
                                let j = choose|j: int| 0 <= j < u.len() && u[j].0 == k;
                                let jj = if j < i { j } else { j + 1 };
                                assert(u[j] == s[jj]);
                                assert(s[jj].0 == k);
                                assert(jj != i);
                                if k == id {
                                    if jj < i {
                                        assert(s[jj].0 != s[i as int].0);
                                    } else {
                                        assert(s[i as int].0 != s[jj].0);
                                    }
                                }
                            }
                            if has_id(s, k) && k != id {
                                let j = choose|j: int| 0 <= j < s.len() && s[j].0 == k;
                                assert(j != i);
                                let jj = if j < i { j } else { j - 1 };
                                assert(u[jj] == s[j]);
                            }
                        }
                        assert forall|k: i64| #[trigger] map_of(u).contains_key(k) implies map_of(u)[k] == map_of(s)[k] by {
                            let j = choose|j: int| 0 <= j < u.len() && u[j].0 == k;
                            let jj = if j < i { j } else { j + 1 };
                            assert(u[j] == s[jj]);
                            lemma_entry_in_map(u, j);
                            lemma_entry_in_map(s, jj);
                        }
                    }
                }
            },
            None => {
                proof {
                    assert(map_of(s) =~= map_of(s).remove(id));
                }
            },
        }
    }

    /// The overview of the channels: `id: node -> peer` for each, separated
    /// by commas.
    pub fn summary(&self) -> (t: String)
        requires
            self.wf(),
        ensures
            t@ == channel_list_text(self.listing()),
            forall|k: i64| self@.contains_key(k) <==> exists|i: int| 0 <= i < self.listing().len() && #[trigger] self.listing()[i].0 == k,
            forall|i: int| 0 <= i < self.listing().len() ==> #[trigger] self.listing()[i] == listing_entry(self.listing()[i].0, self@[self.listing()[i].0]),
            self.listing().len() == self@.dom().len(),
    {
        let mut rows: Vec<(i64, String, String)> = Vec::new();
        let mut i: usize = 0;
        while i < self.entries.len()
            invariant
                i <= self.entries@.len(),
                rows@.map_values(|c: (i64, String, String)| crate::node_models::entry_view(c)) == self.listing().take(i as int),
            decreases self.entries@.len() - i,
        {
            let e = &self.entries[i];
            let row = (e.0, e.1.source.clone(), e.1.peer.clone());
            let ghost r0 = rows@;
            rows.push(row);
            proof {
                crate::event::lemma_map_values_push(r0, row, |c: (i64, String, String)| crate::node_models::entry_view(c));
                assert(self.listing().take(i + 1) =~= self.listing().take(i as int).push(self.listing()[i as int]));
            }
            i = i + 1;
        }
        proof {
            assert(self.listing().take(self.entries@.len() as int) =~= self.listing());
            let s = self.entries@;
            assert forall|k: i64| self@.contains_key(k) <==> exists|i: int| 0 <= i < self.listing().len() && #[trigger] self.listing()[i].0 == k by {
                if self@.contains_key(k) {
                    let j = choose|j: int| 0 <= j < s.len() && s[j].0 == k;
                    assert(self.listing()[j].0 == k);
                }
                if exists|i: int| 0 <= i < self.listing().len() && #[trigger] self.listing()[i].0 == k {
                    let j = choose|j: int| 0 <= j < self.listing().len() && #[trigger] self.listing()[j].0 == k;
                    assert(s[j].0 == k);
                }
            }
            assert forall|i: int| 0 <= i < self.listing().len() implies #[trigger] self.listing()[i] == listing_entry(self.listing()[i].0, self@[self.listing()[i].0]) by {
                lemma_entry_in_map(s, i);
            }
            lemma_dom_len(s);
        }
        channel_list(&rows)
    }
}

/// Whether `k` is a key after inserting `id` into the map of `s`.
spec fn s_insert_has(s: Seq<(i64, OpenChannel)>, id: i64, k: i64) -> bool {
    has_id(s, k) || k == id
}

proof fn lemma_dom_len(s: Seq<(i64, OpenChannel)>)
    requires
        ids_distinct(s),
    ensures
        map_of(s).dom().finite(),
        map_of(s).dom().len() == s.len(),
    decreases s.len(),
{
    if s.len() == 0 {
        assert(map_of(s).dom() =~= Set::<i64>::empty());
    } else {
        let t = s.drop_last();
        assert(ids_distinct(t));
        lemma_dom_len(t);
        assert(map_of(s).dom() =~= map_of(t).dom().insert(s.last().0)) by {
            assert forall|k: i64| map_of(s).dom().contains(k) == map_of(t).dom().insert(s.last().0).contains(k) by {
                if has_id(s, k) {
                    let j = choose|j: int| 0 <= j < s.len() && s[j].0 == k;
                    if j < t.len() {
                        assert(t[j].0 == k);
                    }
                }
                if has_id(t, k) {
                    let j = choose|j: int| 0 <= j < t.len() && t[j].0 == k;
                    assert(s[j].0 == k);
                }
                if k == s.last().0 {
                    assert(s[s.len() - 1].0 == k);
                }
            }
        }
        assert(!map_of(t).dom().contains(s.last().0)) by {
            if has_id(t, s.last().0) {
                let j = choose|j: int| 0 <= j < t.len() && t[j].0 == s.last().0;
                assert(s[j].0 != s[s.len() - 1].0);
            }
        }
    }
}

/// The error of a CLN model asked to close a channel it has not recorded.
pub fn cln_channel_missing(id: i64) -> (e: String)
    ensures
        e@ == "Could not get channel from id: "@ + dec_int(id as int),
{
    let mut e = String::from_str("Could not get channel from id: ");
    push_signed(&mut e, id);
    e
}

} // verus!
