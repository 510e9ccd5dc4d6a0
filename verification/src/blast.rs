//! The simulation as a whole: the network of models and node counts, the
//! three managers, where saved simulations live, and the messages shown for
//! failed operations.

use vstd::prelude::*;
use crate::event::{BlastEventManager, EventSpec, args_view, scheduled_at, spec_build_event};
use crate::model::{BlastModelManager, ModelConfig, config_view, configs_map};
use crate::simln::BlastSimLnManager;
use crate::text::{join_str, str_eq};
use crate::tui::{Model, strings_view};
use crate::command::{CliCommand, CommandView, help_lines, help_text, parse_command, spec_parse_command};

verus! {

/// The RPC address of the bitcoind instance.
pub const BITCOIND_RPC: &'static str = "http://127.0.0.1:18443/";

/// The bitcoind RPC user.
pub const BITCOIND_USER: &'static str = "user";

/// The bitcoind RPC password.
pub const BITCOIND_PASS: &'static str = "pass";

/// The directory saved simulations are kept in.
pub const BLAST_SIM_DIR: &'static str = "/home/blast_sims";

/// How many nodes are run for each model, under a network name.
pub struct BlastNetwork {
    name: String,
    model_map: Vec<(String, i32)>,
}

/// The node count of each model, by name, built by inserting the pairs in
/// order (a later pair for the same model replaces an earlier one).
pub open spec fn pairs_map(s: Seq<(Seq<char>, i32)>) -> Map<Seq<char>, i32>
    decreases s.len(),
{
    if s.len() == 0 {
        Map::empty()
    } else {
        pairs_map(s.drop_last()).insert(s.last().0, s.last().1)
    }
}

/// The value of a list of model names with counts.
pub open spec fn pairs_view(s: Seq<(String, i32)>) -> Seq<(Seq<char>, i32)> {
    s.map_values(|p: (String, i32)| (p.0@, p.1))
}

/// No model is listed twice.
pub open spec fn keys_distinct(s: Seq<(Seq<char>, i32)>) -> bool {
    forall|i: int, j: int| 0 <= i < j < s.len() ==> s[i].0 != s[j].0
}

proof fn lemma_pairs_map_distinct(s: Seq<(Seq<char>, i32)>)
    requires
        keys_distinct(s),
    ensures
        pairs_map(s).dom().len() == s.len(),
        pairs_map(s).dom().finite(),
        forall|i: int| 0 <= i < s.len() ==> #[trigger] pairs_map(s).contains_key(s[i].0) && pairs_map(s)[s[i].0] == s[i].1,
        forall|k: Seq<char>| #[trigger] pairs_map(s).contains_key(k) ==> exists|i: int| 0 <= i < s.len() && s[i].0 == k,
    decreases s.len(),
{
    if s.len() > 0 {
        let t = s.drop_last();
        assert(keys_distinct(t));
        lemma_pairs_map_distinct(t);
        assert(!pairs_map(t).contains_key(s.last().0)) by {
            if pairs_map(t).contains_key(s.last().0) {
                let i = choose|i: int| 0 <= i < t.len() && t[i].0 == s.last().0;
                assert(s[i].0 != s[s.len() - 1].0);
            }
        }
        assert forall|i: int| 0 <= i < s.len() implies #[trigger] pairs_map(s).contains_key(s[i].0) && pairs_map(s)[s[i].0] == s[i].1 by {
            if i < s.len() - 1 {
                assert(t[i] == s[i]);
                assert(pairs_map(t).contains_key(t[i].0));
                assert(s[i].0 != s[s.len() - 1].0);
            }
        }
        assert forall|k: Seq<char>| #[trigger] pairs_map(s).contains_key(k) implies exists|i: int| 0 <= i < s.len() && s[i].0 == k by {
            if k == s.last().0 {
                assert(s[s.len() - 1].0 == k);
            } else {
                assert(pairs_map(t).contains_key(k));
                let i = choose|i: int| 0 <= i < t.len() && t[i].0 == k;
                assert(s[i] == t[i]);
            }
        }
    }
}

impl BlastNetwork {
    /// The network's name.
    pub closed spec fn spec_name(&self) -> Seq<char> {
        self.name@
    }

    /// The node count of each model in the network.
    pub closed spec fn spec_models(&self) -> Map<Seq<char>, i32> {
        pairs_map(pairs_view(self.model_map@))
    }

    /// Each model is listed once.
    pub closed spec fn wf(&self) -> bool {
        keys_distinct(pairs_view(self.model_map@))
    }

    /// A network named `name` that runs, for each model whose count is above
    /// zero, that many nodes (the last entry of a model name counts).
    pub fn from_models(name: &str, models: &Vec<Model>) -> (n: Self)
        ensures
            n.wf(),
            n.spec_name() == name@,
            forall|k: Seq<char>| #[trigger] n.spec_models().contains_key(k) <==> picked(models@, k) is Some,
            forall|k: Seq<char>| #[trigger] n.spec_models().contains_key(k) ==> n.spec_models()[k] == picked(models@, k).unwrap(),
    {
        let mut pairs: Vec<(String, i32)> = Vec::new();
        let mut i: usize = 0;
        while i < models.len()
            invariant
                i <= models@.len(),
                keys_distinct(pairs_view(pairs@)),
                forall|k: Seq<char>| #[trigger] pairs_map(pairs_view(pairs@)).contains_key(k) <==> picked(models@.take(i as int), k) is Some,
                forall|k: Seq<char>| #[trigger] pairs_map(pairs_view(pairs@)).contains_key(k) ==> pairs_map(pairs_view(pairs@))[k] == picked(models@.take(i as int), k).unwrap(),
            decreases models@.len() - i,
        {
            let m = &models[i];
            proof {
                assert(models@.take(i + 1).drop_last() =~= models@.take(i as int));
                assert(models@.take(i + 1).last() == models@[i as int]);
            }
            if m.num_nodes > 0 {
                set_pair(&mut pairs, m.name.clone(), m.num_nodes);
            }
            i = i + 1;
        }
        proof {
            assert(models@.take(models@.len() as int) =~= models@);
        }
        BlastNetwork { name: String::from_str(name), model_map: pairs }
    }

    /// The models of the network with their node counts.
    pub fn models(&self) -> (v: Vec<(String, i32)>)
        requires
            self.wf(),
        ensures
            keys_distinct(pairs_view(v@)),
            pairs_map(pairs_view(v@)) == self.spec_models(),
    {
        let mut v: Vec<(String, i32)> = Vec::new();
        let mut i: usize = 0;
        while i < self.model_map.len()
            invariant
                i <= self.model_map@.len(),
                pairs_view(v@) == pairs_view(self.model_map@).take(i as int),
            decreases self.model_map@.len() - i,
        {
            let p = (self.model_map[i].0.clone(), self.model_map[i].1);
            let ghost v0 = v@;
            v.push(p);
            proof {
                crate::event::lemma_map_values_push(v0, p, |p: (String, i32)| (p.0@, p.1));
                assert(pairs_view(self.model_map@).take(i + 1) =~= pairs_view(self.model_map@).take(i as int).push((p.0@, p.1)));
            }
            i = i + 1;
        }
        proof {
            assert(pairs_view(self.model_map@).take(self.model_map@.len() as int) =~= pairs_view(self.model_map@));
        }
        v
    }

    /// The network's name.
    pub fn name(&self) -> (s: String)
        ensures
            s@ == self.spec_name(),
    {
        self.name.clone()
    }

    /// A network with the given name and model counts (each model once).
    pub fn new(name: String, model_map: Vec<(String, i32)>) -> (n: Self)
        requires
            keys_distinct(pairs_view(model_map@)),
        ensures
            n.wf(),
            n.spec_name() == name@,
            n.spec_models() == pairs_map(pairs_view(model_map@)),
    {
        BlastNetwork { name, model_map }
    }
}

/// The node count that the New tab's list gives a model: the count of its
/// last entry with a count above zero, if any.
pub open spec fn picked(models: Seq<Model>, k: Seq<char>) -> Option<i32>
    decreases models.len(),
{
    if models.len() == 0 {
        None
    } else if models.last().name@ == k && models.last().num_nodes > 0 {
        Some(models.last().num_nodes)
    } else {
        picked(models.drop_last(), k)
    }
}

/// Sets the count of model `name` (replacing its entry, or adding one).
fn set_pair(pairs: &mut Vec<(String, i32)>, name: String, count: i32)
    requires
        keys_distinct(pairs_view(old(pairs)@)),
    ensures
        keys_distinct(pairs_view(final(pairs)@)),
        forall|k: Seq<char>| #[trigger] pairs_map(pairs_view(final(pairs)@)).contains_key(k) <==> (k == name@ || pairs_map(pairs_view(old(pairs)@)).contains_key(k)),
        forall|k: Seq<char>| #[trigger] pairs_map(pairs_view(final(pairs)@)).contains_key(k) ==> pairs_map(pairs_view(final(pairs)@))[k] == if k == name@ { count } else { pairs_map(pairs_view(old(pairs)@))[k] },
{
    let ghost s0 = pairs_view(pairs@);
    proof {
        lemma_pairs_map_distinct(s0);
    }
    let mut i: usize = 0;
    while i < pairs.len()
        invariant
            pairs@ == old(pairs)@,
            i <= pairs@.len(),
            s0 == pairs_view(pairs@),
            keys_distinct(s0),
            forall|j: int| 0 <= j < i ==> pairs@[j].0@ != name@,
        decreases pairs@.len() - i,
    {
        if str_eq(pairs[i].0.as_str(), name.as_str()) {
            let ghost nv = (name@, count);
            pairs.set(i, (name, count));
            proof {
                lemma_pairs_map_distinct(s0);
                let s1 = pairs_view(pairs@);
                assert(s1 =~= s0.update(i as int, nv));
                assert(keys_distinct(s1)) by {
                    assert forall|a: int, b: int| 0 <= a < b < s1.len() implies s1[a].0 != s1[b].0 by {
                        assert(s0[a].0 != s0[b].0);
                    }
                }
                lemma_pairs_map_distinct(s1);
                assert forall|k: Seq<char>| #[trigger] pairs_map(s1).contains_key(k) <==> (k == name@ || pairs_map(s0).contains_key(k)) by {
                    if pairs_map(s0).contains_key(k) {
                        let j = choose|j: int| 0 <= j < s0.len() && s0[j].0 == k;
                        assert(s1[j].0 == k);
                    }
                    if pairs_map(s1).contains_key(k) {
                        let j = choose|j: int| 0 <= j < s1.len() && s1[j].0 == k;
                        assert(s0[j].0 == k);
                    }
                    if k == name@ {
                        assert(s1[i as int].0 == k);
                    }
                }
                assert forall|k: Seq<char>| #[trigger] pairs_map(s1).contains_key(k) implies pairs_map(s1)[k] == if k == name@ { count } else { pairs_map(s0)[k] } by {
                    let j = choose|j: int| 0 <= j < s1.len() && s1[j].0 == k;
                    assert(pairs_map(s1).contains_key(s1[j].0));
                    if j != i {
                        assert(s0[j] == s1[j]);
                        assert(pairs_map(s0).contains_key(s0[j].0));
                        if j < i {
                            assert(s1[j].0 != s1[i as int].0);
                        } else {
                            assert(s1[i as int].0 != s1[j].0);
                        }
                    }
                }
            }
            return;
        }
        i = i + 1;
    }
    let ghost nv = (name@, count);
    pairs.push((name, count));
    proof {
        let s1 = pairs_view(pairs@);
        assert(s1 =~= s0.push(nv));
        assert(keys_distinct(s1)) by {
            assert forall|a: int, b: int| 0 <= a < b < s1.len() implies s1[a].0 != s1[b].0 by {
                if b < s0.len() {
                    assert(s0[a].0 != s0[b].0);
                } else {
                    assert(pairs@[a].0@ != name@);
                }
            }
        }
        assert(s1.drop_last() =~= s0);
    }
}

/// The operations whose failures the simulation reports with a prefix.
#[derive(PartialEq, Eq, Structural, Clone, Copy, Debug)]
pub enum BlastOp {
    GetPubKey,
    ListPeers,
    WalletBalance,
    ChannelBalance,
    ListChannels,
    OpenChannel,
    CloseChannel,
    ConnectPeer,
    DisconnectPeer,
    GetAddress,
    StartNodes,
    CreateNetwork,
}

/// The prefix of the message for a failed operation.
pub open spec fn blast_error_prefix(op: BlastOp) -> Seq<char> {
    match op {
        BlastOp::GetPubKey => "Error getting pub key: "@,
        BlastOp::ListPeers => "Error getting peers: "@,
        BlastOp::WalletBalance => "Error getting wallet balance: "@,
        BlastOp::ChannelBalance => "Error getting channel balance: "@,
        BlastOp::ListChannels => "Error getting channels: "@,
        BlastOp::OpenChannel => "Error opening a channel: "@,
        BlastOp::CloseChannel => "Error closing a channel: "@,
        BlastOp::ConnectPeer => "Error connecting to peer: "@,
        BlastOp::DisconnectPeer => "Error disconnecting from peer: "@,
        BlastOp::GetAddress => "Error getting address: "@,
        BlastOp::StartNodes => "Error starting nodes: "@,
        BlastOp::CreateNetwork => "Unable to start nodes: "@,
    }
}

/// The message for a failed operation: its prefix, then the cause.
pub fn blast_error(op: BlastOp, e: &str) -> (m: String)
    ensures
        m@ == blast_error_prefix(op) + e@,
{
    let prefix = match op {
        BlastOp::GetPubKey => "Error getting pub key: ",
        BlastOp::ListPeers => "Error getting peers: ",
        BlastOp::WalletBalance => "Error getting wallet balance: ",
        BlastOp::ChannelBalance => "Error getting channel balance: ",
        BlastOp::ListChannels => "Error getting channels: ",
        BlastOp::OpenChannel => "Error opening a channel: ",
        BlastOp::CloseChannel => "Error closing a channel: ",
        BlastOp::ConnectPeer => "Error connecting to peer: ",
        BlastOp::DisconnectPeer => "Error disconnecting from peer: ",
        BlastOp::GetAddress => "Error getting address: ",
        BlastOp::StartNodes => "Error starting nodes: ",
        BlastOp::CreateNetwork => "Unable to start nodes: ",
    };
    join_str(prefix, e)
}

/// What came of the last request while a network comes up.
pub enum StartEvent {
    /// Nothing was asked yet.
    Begin,
    /// The model's program runs and its RPC server answers.
    ModelStarted,
    /// The model could not be started (its error).
    ModelFailed(String),
    /// The model started its nodes.
    NodesStarted,
    /// The model could not start its nodes (its error).
    NodesFailed(String),
}

/// What to do next while a network comes up.
pub enum StartAction {
    /// Start the program of this model.
    StartModel(String),
    /// Ask this model to start this many nodes.
    StartNodes(String, i32),
    /// Every model runs with its nodes.
    Done,
    /// Stop here with this error; later models are not started.
    Fail(String),
}

/// One step of bringing a network up: the models to start are taken in
/// order, each model started and then asked for its nodes; the first failure
/// ends it. `at` is the position of the model the event is about; the
/// position of the model the action is about is returned with the action.
pub fn network_start_step(to_start: &Vec<(String, i32)>, at: usize, event: StartEvent) -> (r: (usize, StartAction))
    requires
        event is ModelStarted ==> at < to_start@.len(),
        event is NodesStarted ==> at < to_start@.len(),
    ensures
        match event {
            StartEvent::Begin => if to_start@.len() == 0 {
                r.0 == 0 && r.1 is Done
            } else {
                r.1 matches StartAction::StartModel(m) && m@ == to_start@[0].0@ && r.0 == 0
            },
            StartEvent::ModelStarted => r.1 matches StartAction::StartNodes(m, n)
                && m@ == to_start@[at as int].0@ && n == to_start@[at as int].1 && r.0 == at,
            StartEvent::ModelFailed(e) => r.1 matches StartAction::Fail(f) && f@ == e@ && r.0 == at,
            StartEvent::NodesStarted => if at + 1 < to_start@.len() {
                r.1 matches StartAction::StartModel(m) && m@ == to_start@[at + 1].0@ && r.0 == at + 1
            } else {
                r.0 == at && r.1 is Done
            },
            StartEvent::NodesFailed(e) => r.1 matches StartAction::Fail(f)
                && f@ == blast_error_prefix(BlastOp::CreateNetwork) + e@ && r.0 == at,
        },
{
    match event {
        StartEvent::Begin => {
            if to_start.len() == 0 {
                (0, StartAction::Done)
            } else {
                (0, StartAction::StartModel(to_start[0].0.clone()))
            }
        },
        StartEvent::ModelStarted => (at, StartAction::StartNodes(to_start[at].0.clone(), to_start[at].1)),
        StartEvent::ModelFailed(e) => (at, StartAction::Fail(e)),
        StartEvent::NodesStarted => {
            if at < to_start.len() - 1 {
                (at + 1, StartAction::StartModel(to_start[at + 1].0.clone()))
            } else {
                (at, StartAction::Done)
            }
        },
        StartEvent::NodesFailed(e) => (at, StartAction::Fail(blast_error(BlastOp::CreateNetwork, e.as_str()))),
    }
}

/// The path of a directory or file of the saved simulation `sim_name`
/// (`file` empty for the directory itself, which ends with `/`).
pub fn sim_path(sim_name: &str, file: &str) -> (p: String)
    ensures
        p@ == "/home/blast_sims"@ + "/"@ + sim_name@ + "/"@ + file@,
{
    let mut p = String::from_str(BLAST_SIM_DIR);
    p.append("/");
    p.append(sim_name);
    p.append("/");
    p.append(file);
    proof {
        reveal_strlit("/home/blast_sims");
    }
    p
}

/// The simulation: its network, models, events and payment activity.
pub struct Blast {
    blast_model_manager: BlastModelManager,
    blast_event_manager: BlastEventManager,
    blast_simln_manager: BlastSimLnManager,
    network: Option<BlastNetwork>,
}

impl Blast {
    /// The parts are consistent: the model registry and the network are
    /// well formed.
    pub closed spec fn wf(&self) -> bool {
        &&& self.blast_model_manager.wf()
        &&& self.network matches Some(n) ==> n.wf()
    }

    /// The known models.
    pub closed spec fn models(&self) -> Map<Seq<char>, crate::model::ModelEntry> {
        self.blast_model_manager@
    }

    /// The scheduled events.
    pub closed spec fn events(&self) -> Map<u64, Seq<EventSpec>> {
        self.blast_event_manager@
    }

    /// The payment-activity side.
    pub closed spec fn simln(&self) -> BlastSimLnManager {
        self.blast_simln_manager
    }

    /// The current network, if one was created or loaded.
    pub closed spec fn network(&self) -> Option<BlastNetwork> {
        self.network
    }

    /// A simulation over the models described by `configs` (none connected),
    /// with no network, events, nodes or activity.
    pub fn new(configs: Vec<ModelConfig>) -> (b: Self)
        ensures
            b.wf(),
            b.models() == configs_map(configs@.map_values(|c: ModelConfig| config_view(c))),
            b.events() == Map::<u64, Seq<EventSpec>>::empty(),
            b.simln().data.nodes@.len() == 0,
            b.simln().data.activity@.len() == 0,
            b.network() is None,
    {
        Blast {
            blast_model_manager: BlastModelManager::from_configs(configs),
            blast_event_manager: BlastEventManager::new(),
            blast_simln_manager: BlastSimLnManager::new(),
            network: None,
        }
    }

    /// The model registry.
    pub fn model_manager(&self) -> (m: &BlastModelManager)
        ensures
            m@ == self.models(),
            self.wf() ==> m.wf(),
    {
        &self.blast_model_manager
    }

    /// Records that the RPC connection to the model named `model` is open.
    pub fn set_model_connected(&mut self, model: &str)
        requires
            old(self).wf(),
            old(self).models().contains_key(model@),
        ensures
            final(self).wf(),
            final(self).models() == old(self).models().insert(
                model@,
                crate::model::ModelEntry { connected: true, ..old(self).models()[model@] },
            ),
            final(self).events() == old(self).events(),
            final(self).simln() == old(self).simln(),
            final(self).network() == old(self).network(),
    {
        self.blast_model_manager.set_connected(model);
    }

    /// The event schedule.
    pub fn event_manager(&self) -> (m: &BlastEventManager)
        ensures
            m@ == self.events(),
    {
        &self.blast_event_manager
    }

    /// The payment-activity side.
    pub fn simln_manager(&self) -> (m: &BlastSimLnManager)
        ensures
            *m == self.simln(),
    {
        &self.blast_simln_manager
    }

    /// Records a new network: its name and the node count of each model. The
    /// models to start, with their counts, are returned; they are brought up
    /// one by one with `network_start_step`. The network stays recorded
    /// when starting fails.
    pub fn create_network(&mut self, name: &str, model_map: Vec<(String, i32)>) -> (to_start: Vec<(String, i32)>)
        requires
            old(self).wf(),
            keys_distinct(pairs_view(model_map@)),
        ensures
            final(self).wf(),
            final(self).network() matches Some(n) && n.spec_name() == name@ && n.spec_models() == pairs_map(pairs_view(model_map@)),
            pairs_map(pairs_view(to_start@)) == pairs_map(pairs_view(model_map@)),
            keys_distinct(pairs_view(to_start@)),
            final(self).models() == old(self).models(),
            final(self).events() == old(self).events(),
            final(self).simln() == old(self).simln(),
    {
        let net = BlastNetwork::new(String::from_str(name), model_map);
        let to_start = net.models();
        self.network = Some(net);
        to_start
    }

    /// Records the network of a loaded simulation.
    pub fn set_network(&mut self, net: BlastNetwork)
        requires
            old(self).wf(),
            net.wf(),
        ensures
            final(self).wf(),
            final(self).network() == Some(net),
            final(self).models() == old(self).models(),
            final(self).events() == old(self).events(),
            final(self).simln() == old(self).simln(),
    {
        self.network = Some(net);
    }

    /// The models of the current network with their node counts, or an
    /// error when there is no network.
    pub fn network_models(&self) -> (r: Result<Vec<(String, i32)>, String>)
        requires
            self.wf(),
        ensures
            self.network() is None ==> (r matches Err(e) && e@ == "No network found"@),
            self.network() matches Some(n) ==> (r matches Ok(v) && pairs_map(pairs_view(v@)) == n.spec_models()
                && keys_distinct(pairs_view(v@))),
    {
        match &self.network {
            Some(n) => Ok(n.models()),
            None => Err(String::from_str("No network found")),
        }
    }

    /// The name of the current network, or an error when there is none.
    pub fn network_name(&self) -> (r: Result<String, String>)
        ensures
            self.network() is None ==> (r matches Err(e) && e@ == "No network found"@),
            self.network() matches Some(n) ==> (r matches Ok(s) && s@ == n.spec_name()),
    {
        match &self.network {
            Some(n) => Ok(n.name()),
            None => Err(String::from_str("No network found")),
        }
    }

    /// Adds the nodes a model reported after starting them.
    pub fn add_started_nodes(&mut self, nodes: Vec<crate::simln::NodeConnection>)
        requires
            old(self).wf(),
        ensures
            final(self).wf(),
            final(self).simln().data.nodes@ == old(self).simln().data.nodes@ + nodes@,
            final(self).simln().data.activity@ == old(self).simln().data.activity@,
            final(self).models() == old(self).models(),
            final(self).events() == old(self).events(),
            final(self).network() == old(self).network(),
    {
        self.blast_simln_manager.add_nodes(nodes);
    }

    /// Forgets the nodes and activity of the payment simulation.
    pub fn reset_simln(&mut self)
        requires
            old(self).wf(),
        ensures
            final(self).wf(),
            final(self).simln().data.nodes@.len() == 0,
            final(self).simln().data.activity@.len() == 0,
            final(self).models() == old(self).models(),
            final(self).events() == old(self).events(),
            final(self).network() == old(self).network(),
    {
        self.blast_simln_manager.reset();
    }

    /// Replaces the payment simulation's nodes and activity (a loaded
    /// simulation's data).
    pub fn set_simln_data(&mut self, data: crate::simln::BlastSimLnData)
        requires
            old(self).wf(),
        ensures
            final(self).wf(),
            final(self).simln().data == data,
            final(self).models() == old(self).models(),
            final(self).events() == old(self).events(),
            final(self).network() == old(self).network(),
    {
        self.blast_simln_manager.data = data;
    }

    /// Adds a payment activity between two nodes named by alias.
    pub fn add_activity(
        &mut self,
        source: &str,
        destination: &str,
        start_secs: Option<u16>,
        count: Option<u64>,
        interval_secs: u16,
        amount_msat: u64,
    )
        requires
            old(self).wf(),
        ensures
            final(self).wf(),
            final(self).simln().data.nodes@ == old(self).simln().data.nodes@,
            final(self).simln().data.activity@.len() == old(self).simln().data.activity@.len() + 1,
            forall|i: int| 0 <= i < old(self).simln().data.activity@.len() ==> final(self).simln().data.activity@[i] == old(self).simln().data.activity@[i],
            ({
                let a = final(self).simln().data.activity@.last();
                &&& crate::simln::node_id_view(a.source) == (false, source@)
                &&& crate::simln::node_id_view(a.destination) == (false, destination@)
                &&& a.start_secs == start_secs
                &&& a.count == count
                &&& a.interval_secs == crate::simln::ValueOrRange::Value(interval_secs as u64)
                &&& a.amount_msat == crate::simln::ValueOrRange::Value(amount_msat)
            }),
            final(self).models() == old(self).models(),
            final(self).events() == old(self).events(),
            final(self).network() == old(self).network(),
    {
        self.blast_simln_manager.add_activity(source, destination, start_secs, count, interval_secs, amount_msat);
    }

    /// Schedules an event (see `BlastEventManager::add_event`).
    pub fn add_event(&mut self, frame_num: u64, event: &str, args: Option<Vec<String>>) -> (r: Result<(), String>)
        requires
            old(self).wf(),
        ensures
            final(self).wf(),
            match spec_build_event(event@, args_view(args)) {
                Ok(e) => r is Ok && final(self).events() == old(self).events().insert(frame_num, scheduled_at(old(self).events(), frame_num).push(e)),
                Err(msg) => r matches Err(m) && m@ == msg && final(self).events() == old(self).events(),
            },
            final(self).models() == old(self).models(),
            final(self).simln() == old(self).simln(),
            final(self).network() == old(self).network(),
    {
        self.blast_event_manager.add_event(frame_num, event, args)
    }

    /// The names of all nodes of the payment simulation.
    pub fn get_nodes(&self) -> (v: Vec<String>)
        ensures
            strings_view(v@) == self.simln().data.nodes@.map_values(|c: crate::simln::NodeConnection| crate::simln::node_id_text(crate::simln::connection_id(c))),
    {
        self.blast_simln_manager.get_nodes()
    }

    /// One line per payment activity.
    pub fn get_activity(&self) -> (v: Vec<String>)
        ensures
            strings_view(v@) == self.simln().data.activity@.map_values(|a: crate::simln::ActivityParser| crate::simln::activity_text(a)),
    {
        self.blast_simln_manager.get_activity()
    }

    /// All channels of all models (none are tracked yet).
    pub fn get_channels(&self) -> (v: Vec<String>)
        ensures
            v@.len() == 0,
    {
        self.blast_model_manager.get_channels()
    }

    /// The names of the available models, or an error when there are none.
    pub fn get_available_models(&self) -> (r: Result<Vec<String>, String>)
        requires
            self.wf(),
        ensures
            self.models().dom().is_empty() <==> r is Err,
            r matches Err(e) ==> e@ == "No models available"@,
            r matches Ok(v) ==> (forall|k: Seq<char>| self.models().contains_key(k) <==> strings_view(v@).contains(k)),
            r matches Ok(v) ==> strings_view(v@).no_duplicates(),
    {
        self.blast_model_manager.get_models()
    }
}

/// What the front end does after a command line was read: show lines, or
/// run a command that talks to the network and report it with
/// `command_report`.
pub enum CommandStep {
    Output(Vec<String>),
    Pending(CliCommand),
}

impl Blast {
    /// Runs a typed command line: `help`, `add_activity`, `add_event` and
    /// `get_nodes` are done here; commands that talk to the network are
    /// handed back to be run; an empty line shows nothing and any other
    /// first word shows "Unknown command".
    pub fn run_command(&mut self, line: &str) -> (r: CommandStep)
        requires
            old(self).wf(),
        ensures
            final(self).wf(),
            final(self).models() == old(self).models(),
            final(self).network() == old(self).network(),
            match spec_parse_command(line@) {
                CommandView::Nothing => r matches CommandStep::Output(v) && v@.len() == 0
                    && final(self).events() == old(self).events() && final(self).simln() == old(self).simln(),
                CommandView::Help => r matches CommandStep::Output(v) && strings_view(v@) == help_text()
                    && final(self).events() == old(self).events() && final(self).simln() == old(self).simln(),
                CommandView::AddActivity { source, dest, start_secs, count, interval, amount_msat } =>
                    r matches CommandStep::Output(v) && strings_view(v@) == seq!["Successfully added activity."@]
                    && final(self).events() == old(self).events()
                    && final(self).simln().data.nodes@ == old(self).simln().data.nodes@
                    && final(self).simln().data.activity@.len() == old(self).simln().data.activity@.len() + 1
                    && final(self).simln().data.activity@.drop_last() == old(self).simln().data.activity@
                    && crate::simln::node_id_view(final(self).simln().data.activity@.last().source) == (false, source)
                    && crate::simln::node_id_view(final(self).simln().data.activity@.last().destination) == (false, dest)
                    && final(self).simln().data.activity@.last().start_secs == start_secs
                    && final(self).simln().data.activity@.last().count == count
                    && final(self).simln().data.activity@.last().interval_secs == crate::simln::ValueOrRange::Value(interval as u64)
                    && final(self).simln().data.activity@.last().amount_msat == crate::simln::ValueOrRange::Value(amount_msat),
                CommandView::AddEvent { frame, event, args } => final(self).simln() == old(self).simln()
                    && match spec_build_event(event, args) {
                        Ok(e) => r matches CommandStep::Output(v) && strings_view(v@) == seq!["Successfully added event."@]
                            && final(self).events() == old(self).events().insert(frame, scheduled_at(old(self).events(), frame).push(e)),
                        Err(msg) => r matches CommandStep::Output(v) && strings_view(v@) == seq![msg]
                            && final(self).events() == old(self).events(),
                    },
                CommandView::GetNodes => r matches CommandStep::Output(v)
                    && strings_view(v@) == old(self).simln().data.nodes@.map_values(|c: crate::simln::NodeConnection| crate::simln::node_id_text(crate::simln::connection_id(c)))
                    && final(self).events() == old(self).events() && final(self).simln() == old(self).simln(),
                CommandView::Unknown => r matches CommandStep::Output(v) && strings_view(v@) == seq!["Unknown command"@]
                    && final(self).events() == old(self).events() && final(self).simln() == old(self).simln(),
                c => r matches CommandStep::Pending(p) && p@ == c
                    && final(self).events() == old(self).events() && final(self).simln() == old(self).simln(),
            },
    {
        let cmd = parse_command(line);
        let ghost cv = cmd@;
        match cmd {
            CliCommand::Nothing => CommandStep::Output(Vec::new()),
            CliCommand::Help => CommandStep::Output(help_lines()),
            CliCommand::AddActivity { source, dest, start_secs, count, interval, amount_msat } => {
                self.add_activity(source.as_str(), dest.as_str(), start_secs, count, interval, amount_msat);
                let mut v: Vec<String> = Vec::new();
                v.push(String::from_str("Successfully added activity."));
                proof {
                    assert(strings_view(v@) =~= seq!["Successfully added activity."@]);
                    assert(self.simln().data.activity@.drop_last() =~= old(self).simln().data.activity@);
                }
                CommandStep::Output(v)
            },
            CliCommand::AddEvent { frame, event, args } => {
                let mut v: Vec<String> = Vec::new();
                match self.add_event(frame, event.as_str(), args) {
                    Ok(()) => {
                        v.push(String::from_str("Successfully added event."));
                    },
                    Err(e) => {
                        v.push(e);
                    },
                }
                assert(strings_view(v@) =~= seq![v@[0]@]);
                CommandStep::Output(v)
            },
            CliCommand::GetNodes => CommandStep::Output(self.get_nodes()),
            CliCommand::Unknown => {
                let mut v: Vec<String> = Vec::new();
                v.push(String::from_str("Unknown command"));
                assert(strings_view(v@) =~= seq!["Unknown command"@]);
                CommandStep::Output(v)
            },
            other => CommandStep::Pending(other),
        }
    }
}

} // verus!
