//! The payment-activity side of a simulation: the Lightning nodes that the
//! payment generator drives, the payments the user defined, and the checks
//! made before a payment simulation is built.

use vstd::prelude::*;
use crate::number::{dec, push_decimal};
use crate::text::{chars_of, join_str, str_eq, string_from_chars};
use crate::tui::strings_view;

verus! {

/// The expected payment amount of the generated random activity (msat).
pub const EXPECTED_PAYMENT_AMOUNT: u64 = 3_800_000;

/// Where the payment results are written, under the home directory.
pub const RESULTS_DIR: &'static str = ".blast/blast_results";

/// A node named by its public key (kept as its hex text) or its alias.
pub enum NodeId {
    PublicKey(String),
    Alias(String),
}

/// The value of a node name: which kind, and the text.
pub open spec fn node_id_view(n: NodeId) -> (bool, Seq<char>) {
    match n {
        NodeId::PublicKey(k) => (true, k@),
        NodeId::Alias(a) => (false, a@),
    }
}

/// A hex letter in lower case (other characters unchanged).
pub open spec fn hex_lower_char(c: char) -> char {
    if c == 'A' {
        'a'
    } else if c == 'B' {
        'b'
    } else if c == 'C' {
        'c'
    } else if c == 'D' {
        'd'
    } else if c == 'E' {
        'e'
    } else if c == 'F' {
        'f'
    } else {
        c
    }
}

/// A text with its hex letters in lower case.
pub open spec fn hex_lower_text(k: Seq<char>) -> Seq<char> {
    k.map_values(|c: char| hex_lower_char(c))
}

/// A lower-case hex digit of an odd value.
pub open spec fn is_odd_hex(c: char) -> bool {
    c == '1' || c == '3' || c == '5' || c == '7' || c == '9' || c == 'b' || c == 'd' || c == 'f'
}

/// Lower-case hex of a key in its long (65-byte) form: `04`, or the hybrid
/// `06`/`07`, then the two coordinates.
pub open spec fn is_long_key(l: Seq<char>) -> bool {
    l.len() == 130 && l[0] == '0' && (l[1] == '4' || l[1] == '6' || l[1] == '7')
}

/// The text a public key prints as: its compressed form in lower-case hex.
/// A key in long form becomes `02` or `03` (by the parity of its second
/// coordinate) and its first coordinate; hex letters are read in either
/// case. Two texts of the same key have the same key text.
pub open spec fn key_text(k: Seq<char>) -> Seq<char> {
    let l = hex_lower_text(k);
    if is_long_key(l) {
        seq!['0', if is_odd_hex(l[129]) { '3' } else { '2' }] + l.subrange(2, 66)
    } else {
        l
    }
}

/// The text a node name prints as: the key in lower-case hex, or the alias.
pub open spec fn node_id_text(n: NodeId) -> Seq<char> {
    match n {
        NodeId::PublicKey(k) => key_text(k@),
        NodeId::Alias(a) => a@,
    }
}

fn hex_lower(c: char) -> (r: char)
    ensures
        r == hex_lower_char(c),
{
    if c == 'A' {
        'a'
    } else if c == 'B' {
        'b'
    } else if c == 'C' {
        'c'
    } else if c == 'D' {
        'd'
    } else if c == 'E' {
        'e'
    } else if c == 'F' {
        'f'
    } else {
        c
    }
}

/// The text a public key given as hex (either letter case, compressed or
/// long form) prints as.
pub fn canonical_key(k: &str) -> (r: String)
    ensures
        r@ == key_text(k@),
{
    let cs = chars_of(k);
    let mut out: Vec<char> = Vec::new();
    let mut i: usize = 0;
    while i < cs.len()
        invariant
            cs@ == k@,
            i <= cs@.len(),
            out@ == hex_lower_text(cs@.take(i as int)),
        decreases cs@.len() - i,
    {
        out.push(hex_lower(cs[i]));
        assert(out@ =~= hex_lower_text(cs@.take(i + 1)));
        i = i + 1;
    }
    assert(cs@.take(cs@.len() as int) =~= cs@);
    if out.len() == 130 && out[0] == '0' && (out[1] == '4' || out[1] == '6' || out[1] == '7') {
        let last = out[129];
        let odd = last == '1' || last == '3' || last == '5' || last == '7' || last == '9' || last == 'b'
            || last == 'd' || last == 'f';
        let mut short: Vec<char> = Vec::new();
        short.push('0');
        short.push(if odd { '3' } else { '2' });
        let mut j: usize = 2;
        while j < 66
            invariant
                out@.len() == 130,
                2 <= j <= 66,
                short@ == seq!['0', if odd { '3' } else { '2' }] + out@.subrange(2, j as int),
            decreases 66 - j,
        {
            short.push(out[j]);
            assert(short@ =~= seq!['0', if odd { '3' } else { '2' }] + out@.subrange(2, j + 1));
            j = j + 1;
        }
        string_from_chars(short.as_slice())
    } else {
        string_from_chars(out.as_slice())
    }
}

impl NodeId {
    /// The text this node name prints as.
    pub fn to_text(&self) -> (t: String)
        ensures
            t@ == node_id_text(*self),
    {
        match self {
            NodeId::PublicKey(k) => canonical_key(k.as_str()),
            NodeId::Alias(a) => a.clone(),
        }
    }
}

/// A fixed value or a range of values (printed `x` or `(x-y)`).
pub enum ValueOrRange {
    Value(u64),
    Range(u64, u64),
}

/// The text a value or range prints as.
pub open spec fn value_or_range_text(v: ValueOrRange) -> Seq<char> {
    match v {
        ValueOrRange::Value(x) => dec(x as nat),
        ValueOrRange::Range(x, y) => "("@ + dec(x as nat) + "-"@ + dec(y as nat) + ")"@,
    }
}

fn push_value_or_range(out: &mut String, v: &ValueOrRange)
    ensures
        final(out)@ == old(out)@ + value_or_range_text(*v),
{
    match v {
        ValueOrRange::Value(x) => {
            push_decimal(out, *x);
        },
        ValueOrRange::Range(x, y) => {
            out.append("(");
            push_decimal(out, *x);
            out.append("-");
            push_decimal(out, *y);
            out.append(")");
        },
    }
    assert(final(out)@ =~= old(out)@ + value_or_range_text(*v));
}

/// A payment activity: who pays whom, from when, how many times, how often
/// (seconds) and how much (msat).
pub struct ActivityParser {
    pub source: NodeId,
    pub destination: NodeId,
    pub start_secs: Option<u16>,
    pub count: Option<u64>,
    pub interval_secs: ValueOrRange,
    pub amount_msat: ValueOrRange,
}

/// How to reach a node that the payment generator drives.
pub enum NodeConnection {
    Lnd { id: NodeId, address: String, macaroon: String, cert: String },
    Cln { id: NodeId, address: String, ca_cert: String, client_cert: String, client_key: String },
    Eclair { id: NodeId, base_url: String, api_username: String, api_password: String },
}

/// The name of the node a connection reaches.
pub open spec fn connection_id(c: NodeConnection) -> NodeId {
    match c {
        NodeConnection::Lnd { id, .. } => id,
        NodeConnection::Cln { id, .. } => id,
        NodeConnection::Eclair { id, .. } => id,
    }
}

/// The text an optional number prints as in the activity list.
pub open spec fn optional_text(v: Option<u64>) -> Seq<char> {
    match v {
        Some(x) => dec(x as nat),
        None => "None"@,
    }
}

/// The line an activity is listed as: source, destination, start, count,
/// interval and amount, separated by spaces.
pub open spec fn activity_text(a: ActivityParser) -> Seq<char> {
    node_id_text(a.source) + " "@ + node_id_text(a.destination) + " "@
        + optional_text(match a.start_secs { Some(s) => Some(s as u64), None => None }) + " "@
        + optional_text(a.count) + " "@ + value_or_range_text(a.interval_secs) + " "@
        + value_or_range_text(a.amount_msat)
}

fn push_optional(out: &mut String, v: Option<u64>)
    ensures
        final(out)@ == old(out)@ + optional_text(v),
{
    match v {
        Some(x) => push_decimal(out, x),
        None => out.append("None"),
    }
}

/// The nodes and payments of a payment simulation.
pub struct BlastSimLnData {
    pub nodes: Vec<NodeConnection>,
    pub activity: Vec<ActivityParser>,
}

/// The payment-activity side of a simulation.
pub struct BlastSimLnManager {
    pub data: BlastSimLnData,
}

impl BlastSimLnManager {
    /// A manager with no nodes and no activity.
    pub fn new() -> (m: Self)
        ensures
            m.data.nodes@.len() == 0,
            m.data.activity@.len() == 0,
    {
        BlastSimLnManager { data: BlastSimLnData { activity: Vec::new(), nodes: Vec::new() } }
    }

    /// Adds a payment from the node with alias `source` to the node with
    /// alias `destination`, `amount_msat` every `interval_secs` seconds.
    pub fn add_activity(
        &mut self,
        source: &str,
        destination: &str,
        start_secs: Option<u16>,
        count: Option<u64>,
        interval_secs: u16,
        amount_msat: u64,
    )
        ensures
            final(self).data.nodes@ == old(self).data.nodes@,
            final(self).data.activity@.len() == old(self).data.activity@.len() + 1,
            forall|i: int| 0 <= i < old(self).data.activity@.len() ==> final(self).data.activity@[i] == old(self).data.activity@[i],
            ({
                let a = final(self).data.activity@.last();
                &&& node_id_view(a.source) == (false, source@)
                &&& node_id_view(a.destination) == (false, destination@)
                &&& a.start_secs == start_secs
                &&& a.count == count
                &&& a.interval_secs == ValueOrRange::Value(interval_secs as u64)
                &&& a.amount_msat == ValueOrRange::Value(amount_msat)
            }),
    {
        let a = ActivityParser {
            source: NodeId::Alias(String::from_str(source)),
            destination: NodeId::Alias(String::from_str(destination)),
            start_secs,
            count,
            interval_secs: ValueOrRange::Value(interval_secs as u64),
            amount_msat: ValueOrRange::Value(amount_msat),
        };
        self.data.activity.push(a);
    }

    /// One line per activity, in the order they were added.
    pub fn get_activity(&self) -> (v: Vec<String>)
        ensures
            strings_view(v@) == self.data.activity@.map_values(|a: ActivityParser| activity_text(a)),
    {
        let mut act: Vec<String> = Vec::new();
        let mut i: usize = 0;
        while i < self.data.activity.len()
            invariant
                i <= self.data.activity@.len(),
                strings_view(act@) == self.data.activity@.take(i as int).map_values(|a: ActivityParser| activity_text(a)),
            decreases self.data.activity@.len() - i,
        {
            let a = &self.data.activity[i];
            let mut line = a.source.to_text();
            line.append(" ");
            line.append(a.destination.to_text().as_str());
            line.append(" ");
            let start: Option<u64> = match a.start_secs {
                Some(s) => Some(s as u64),
                None => None,
            };
            push_optional(&mut line, start);
            line.append(" ");
            push_optional(&mut line, a.count);
            line.append(" ");
            push_value_or_range(&mut line, &a.interval_secs);
            line.append(" ");
            push_value_or_range(&mut line, &a.amount_msat);
            let ghost a0 = act@;
            proof {
                assert(line@ =~= activity_text(*a));
            }
            act.push(line);
            proof {
                crate::event::lemma_map_values_push(a0, line, |s: String| s@);
                assert(self.data.activity@.take(i + 1) =~= self.data.activity@.take(i as int).push(*a));
                crate::event::lemma_map_values_push(self.data.activity@.take(i as int), *a, |a: ActivityParser| activity_text(a));
            }
            i = i + 1;
        }
        assert(self.data.activity@.take(self.data.activity@.len() as int) =~= self.data.activity@);
        act
    }

    /// Appends the nodes a model reported after starting them.
    pub fn add_nodes(&mut self, nodes: Vec<NodeConnection>)
        ensures
            final(self).data.nodes@ == old(self).data.nodes@ + nodes@,
            final(self).data.activity@ == old(self).data.activity@,
    {
        let mut nodes = nodes;
        self.data.nodes.append(&mut nodes);
    }

    /// Forgets all nodes and activity (when the network is shut down).
    pub fn reset(&mut self)
        ensures
            final(self).data.nodes@.len() == 0,
            final(self).data.activity@.len() == 0,
    {
        self.data.activity.clear();
        self.data.nodes.clear();
    }

    /// The names of all nodes, in order.
    pub fn get_nodes(&self) -> (v: Vec<String>)
        ensures
            strings_view(v@) == self.data.nodes@.map_values(|c: NodeConnection| node_id_text(connection_id(c))),
    {
        let mut ids: Vec<String> = Vec::new();
        let mut i: usize = 0;
        while i < self.data.nodes.len()
            invariant
                i <= self.data.nodes@.len(),
                strings_view(ids@) == self.data.nodes@.take(i as int).map_values(|c: NodeConnection| node_id_text(connection_id(c))),
            decreases self.data.nodes@.len() - i,
        {
            let n = &self.data.nodes[i];
            let id = match n {
                NodeConnection::Lnd { id, .. } => id.to_text(),
                NodeConnection::Cln { id, .. } => id.to_text(),
                NodeConnection::Eclair { id, .. } => id.to_text(),
            };
            let ghost i0 = ids@;
            ids.push(id);
            proof {
                crate::event::lemma_map_values_push(i0, id, |s: String| s@);
                assert(self.data.nodes@.take(i + 1) =~= self.data.nodes@.take(i as int).push(*n));
                crate::event::lemma_map_values_push(self.data.nodes@.take(i as int), *n, |c: NodeConnection| node_id_text(connection_id(c)));
            }
            i = i + 1;
        }
        assert(self.data.nodes@.take(self.data.nodes@.len() as int) =~= self.data.nodes@);
        ids
    }
}

/// What the payment generator knows of a connected node.
pub struct NodeInfo {
    pub pubkey: String,
    pub alias: String,
}

/// The value of a node's information: key text and alias.
pub open spec fn info_view(i: NodeInfo) -> (Seq<char>, Seq<char>) {
    (i.pubkey@, i.alias@)
}

/// The last registered node with this key, keys compared as keys (by their
/// key text); a later node with the same key replaces an earlier one.
pub open spec fn find_key(s: Seq<(Seq<char>, Seq<char>)>, key: Seq<char>) -> Option<int>
    decreases s.len(),
{
    if s.len() == 0 {
        None
    } else if key_text(s.last().0) == key_text(key) {
        Some(s.len() - 1)
    } else {
        find_key(s.drop_last(), key)
    }
}

proof fn lemma_find_key(s: Seq<(Seq<char>, Seq<char>)>, key: Seq<char>)
    ensures
        find_key(s, key) matches Some(j) ==> 0 <= j < s.len() && key_text(s[j].0) == key_text(key),
    decreases s.len(),
{
    if s.len() > 0 && key_text(s.last().0) != key_text(key) {
        lemma_find_key(s.drop_last(), key);
    }
}

/// Some registered node has this alias.
pub open spec fn has_alias(s: Seq<(Seq<char>, Seq<char>)>, alias: Seq<char>) -> bool {
    exists|i: int| 0 <= i < s.len() && s[i].1 == alias
}

/// The activity's source names a connected node.
pub open spec fn source_found(s: Seq<(Seq<char>, Seq<char>)>, n: NodeId) -> bool {
    match n {
        NodeId::PublicKey(k) => find_key(s, k@) is Some,
        NodeId::Alias(a) => has_alias(s, a@),
    }
}

/// `info` is the connected node that the name `n` stands for: the node
/// registered last with that key, or a node with that alias.
pub open spec fn is_source(s: Seq<(Seq<char>, Seq<char>)>, n: NodeId, info: NodeInfo) -> bool {
    match n {
        NodeId::PublicKey(k) => find_key(s, k@) matches Some(j) && info_view(info) == s[j],
        NodeId::Alias(a) => s.contains(info_view(info)) && info.alias@ == a@,
    }
}

/// A connection that is not used: an LND node without an address.
pub open spec fn spec_skip_connection(c: NodeConnection) -> bool {
    c matches NodeConnection::Lnd { address, .. } && address@.len() == 0
}

/// Whether this connection is left out of the payment simulation (an LND
/// node without an address).
pub fn skip_connection(c: &NodeConnection) -> (b: bool)
    ensures
        b == spec_skip_connection(*c),
{
    match c {
        NodeConnection::Lnd { address, .. } => address.as_str().unicode_len() == 0,
        _ => false,
    }
}

/// How an activity's two ends were found among the connected nodes.
pub enum Resolution {
    /// Both ends are known.
    Ready { source: NodeInfo, destination: NodeInfo },
    /// The source is known; the destination, named by key, must be looked up
    /// through the source node.
    LookUp { source: NodeInfo, destination_key: String },
    /// The activity cannot run (the validation message).
    Fail(String),
}

/// The connected nodes of a payment simulation being set up.
pub struct SimSetup {
    nodes: Vec<NodeInfo>,
}

impl View for SimSetup {
    type V = Seq<(Seq<char>, Seq<char>)>;

    closed spec fn view(&self) -> Seq<(Seq<char>, Seq<char>)> {
        self.nodes@.map_values(|i: NodeInfo| info_view(i))
    }
}

fn copy_info(i: &NodeInfo) -> (r: NodeInfo)
    ensures
        info_view(r) == info_view(*i),
{
    NodeInfo { pubkey: i.pubkey.clone(), alias: i.alias.clone() }
}

impl SimSetup {
    /// No node connected yet.
    pub fn new() -> (s: Self)
        ensures
            s@ == Seq::<(Seq<char>, Seq<char>)>::empty(),
    {
        let s = SimSetup { nodes: Vec::new() };
        assert(s@ =~= Seq::<(Seq<char>, Seq<char>)>::empty());
        s
    }

    /// Adds a connected node; a second node with an alias already used is
    /// refused.
    pub fn register(&mut self, info: NodeInfo) -> (r: Result<(), String>)
        ensures
            has_alias(old(self)@, info.alias@) ==> (r matches Err(e) && e@ == "duplicated node: "@ + info.alias@ + "."@
                && final(self)@ == old(self)@),
            !has_alias(old(self)@, info.alias@) ==> (r is Ok && final(self)@ == old(self)@.push(info_view(info))),
    {
        let mut i: usize = 0;
        while i < self.nodes.len()
            invariant
                i <= self.nodes@.len(),
                forall|j: int| 0 <= j < i ==> self.nodes@[j].alias@ != info.alias@,
            decreases self.nodes@.len() - i,
        {
            if str_eq(self.nodes[i].alias.as_str(), info.alias.as_str()) {
                proof {
                    assert(self@[i as int].1 == info.alias@);
                }
                let mut e = join_str("duplicated node: ", info.alias.as_str());
                e.append(".");
                return Err(e);
            }
            i = i + 1;
        }
        proof {
            assert forall|j: int| 0 <= j < self@.len() implies self@[j].1 != info.alias@ by {
                assert(self@[j] == info_view(self.nodes@[j]));
            }
        }
        let ghost n0 = self.nodes@;
        let ghost v = info_view(info);
        self.nodes.push(info);
        proof {
            crate::event::lemma_map_values_push(n0, info, |i: NodeInfo| info_view(i));
        }
        Ok(())
    }

    /// The node registered last with this key, if any.
    fn by_key(&self, key: &str) -> (r: Option<usize>)
        ensures
            r matches Some(i) ==> find_key(self@, key@) == Some(i as int),
            r is None ==> find_key(self@, key@) is None,
            r matches Some(i) ==> i < self.nodes@.len(),
    {
        let wanted = canonical_key(key);
        let mut i = self.nodes.len();
        assert(self@.take(i as int) =~= self@);
        while i > 0
            invariant
                i <= self.nodes@.len(),
                find_key(self@, key@) == find_key(self@.take(i as int), key@),
                wanted@ == key_text(key@),
            decreases i,
        {
            let ghost t = self@.take(i as int);
            proof {
                assert(t.drop_last() =~= self@.take(i - 1));
                assert(t.last() == info_view(self.nodes@[i - 1]));
            }
            if str_eq(canonical_key(self.nodes[i - 1].pubkey.as_str()).as_str(), wanted.as_str()) {
                return Some(i - 1);
            }
            i = i - 1;
        }
        None
    }

    /// The node with this alias, if any.
    fn by_alias(&self, alias: &str) -> (r: Option<usize>)
        ensures
            r matches Some(j) ==> j < self.nodes@.len() && j < self@.len() && self@[j as int].1 == alias@,
            r is None ==> !has_alias(self@, alias@),
    {
        let mut i: usize = 0;
        while i < self.nodes.len()
            invariant
                i <= self.nodes@.len(),
                forall|j: int| 0 <= j < i ==> self.nodes@[j].alias@ != alias@,
            decreases self.nodes@.len() - i,
        {
            if str_eq(self.nodes[i].alias.as_str(), alias) {
                return Some(i);
            }
            i = i + 1;
        }
        proof {
            assert forall|j: int| 0 <= j < self@.len() implies self@[j].1 != alias@ by {
                assert(self@[j] == info_view(self.nodes@[j]));
            }
        }
        None
    }

    /// Finds an activity's source and destination among the connected nodes
    /// (a name by key finds the node registered last with that key, keys
    /// compared by their key text: either letter case, compressed or long
    /// form).
    pub fn resolve(&self, act: &ActivityParser) -> (r: Resolution)
        ensures
            !source_found(self@, act.source) ==> (r matches Resolution::Fail(e) && e@ == "activity source "@
                + node_id_text(act.source) + " not found in nodes."@),
            source_found(self@, act.source) ==> match act.destination {
                NodeId::Alias(a) => if has_alias(self@, a@) {
                    r matches Resolution::Ready { source, destination } && is_source(self@, act.source, source)
                        && self@.contains(info_view(destination)) && destination.alias@ == a@
                } else {
                    r matches Resolution::Fail(e) && e@ == "unknown activity destination: "@ + a@ + "."@
                },
                NodeId::PublicKey(k) => match find_key(self@, k@) {
                    Some(j) => r matches Resolution::Ready { source, destination } && is_source(self@, act.source, source)
                        && info_view(destination) == self@[j],
                    None => r matches Resolution::LookUp { source, destination_key } && is_source(self@, act.source, source)
                        && destination_key@ == k@,
                },
            },
    {
        let src = match &act.source {
            NodeId::PublicKey(k) => {
                let ks = k.as_str();
                let r = self.by_key(ks);
                proof {
                    lemma_find_key(self@, k@);
                }
                r
            },
            NodeId::Alias(a) => self.by_alias(a.as_str()),
        };
        let s = match src {
            Some(j) => j,
            None => {
                let mut e = join_str("activity source ", act.source.to_text().as_str());
                e.append(" not found in nodes.");
                return Resolution::Fail(e);
            },
        };
        proof {
            assert(self@[s as int] == info_view(self.nodes@[s as int]));
            assert(self@.contains(self@[s as int]));
            match &act.source {
                NodeId::PublicKey(k) => lemma_find_key(self@, k@),
                NodeId::Alias(a) => {},
            }
            match &act.destination {
                NodeId::PublicKey(k) => lemma_find_key(self@, k@),
                NodeId::Alias(a) => {},
            }
        }
        let source = copy_info(&self.nodes[s]);
        assert(is_source(self@, act.source, source));
        match &act.destination {
            NodeId::Alias(a) => match self.by_alias(a.as_str()) {
                Some(d) => {
                    proof {
                        assert(self@[d as int] == info_view(self.nodes@[d as int]));
                        assert(self@.contains(self@[d as int]));
                    }
                    Resolution::Ready { source, destination: copy_info(&self.nodes[d]) }
                },
                None => {
                    let mut e = join_str("unknown activity destination: ", a.as_str());
                    e.append(".");
                    Resolution::Fail(e)
                },
            },
            NodeId::PublicKey(k) => match self.by_key(k.as_str()) {
                Some(d) => {
                    proof {
                        assert(self@[d as int] == info_view(self.nodes@[d as int]));
                    }
                    Resolution::Ready { source, destination: copy_info(&self.nodes[d]) }
                },
                None => Resolution::LookUp { source, destination_key: k.clone() },
            },
        }
    }
}

/// The message when a destination named by key could not be looked up.
pub fn destination_lookup_failed(key: &str) -> (e: String)
    ensures
        e@ == "Destination node unknown or invalid: "@ + key@ + "."@,
{
    let mut e = join_str("Destination node unknown or invalid: ", key);
    e.append(".");
    e
}

} // verus!
