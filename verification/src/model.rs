//! The registry of node models (programs that run Lightning nodes of one
//! implementation and answer BLAST's RPC calls), and the rules for talking
//! to them.

use vstd::prelude::*;
use crate::text::{chars_of, join_str, str_eq, string_from_chars};

verus! {

/// Where saved simulation logs of the models go, under the home directory.
pub const BLAST_MODEL_LOG_DIR: &'static str = ".blast/";

/// A model as described by its `model.json` file.
pub struct ModelConfig {
    pub name: String,
    pub rpc: String,
    pub start: String,
}

/// A model known to the manager: its description and whether an RPC
/// connection to it is open.
struct BlastModel {
    connected: bool,
    config: ModelConfig,
}

/// What the manager knows of one model.
pub struct ModelEntry {
    pub rpc: Seq<char>,
    pub start: Seq<char>,
    pub connected: bool,
}

spec fn entry_of(m: BlastModel) -> ModelEntry {
    ModelEntry { rpc: m.config.rpc@, start: m.config.start@, connected: m.connected }
}

/// The map from model names to what is known of them, built by inserting
/// the models in order (a later model of the same name replaces an earlier).
spec fn to_map(s: Seq<BlastModel>) -> Map<Seq<char>, ModelEntry>
    decreases s.len(),
{
    if s.len() == 0 {
        Map::empty()
    } else {
        to_map(s.drop_last()).insert(s.last().config.name@, entry_of(s.last()))
    }
}

/// The models that `model.json` files describe, inserted in the order they
/// were found, none connected yet.
pub open spec fn configs_map(s: Seq<(Seq<char>, Seq<char>, Seq<char>)>) -> Map<Seq<char>, ModelEntry>
    decreases s.len(),
{
    if s.len() == 0 {
        Map::empty()
    } else {
        configs_map(s.drop_last()).insert(
            s.last().0,
            ModelEntry { rpc: s.last().1, start: s.last().2, connected: false },
        )
    }
}

/// The value of a model description: name, RPC address, start program.
pub open spec fn config_view(c: ModelConfig) -> (Seq<char>, Seq<char>, Seq<char>) {
    (c.name@, c.rpc@, c.start@)
}

/// The registry of models, by name.
pub struct BlastModelManager {
    models: Vec<BlastModel>,
}

impl View for BlastModelManager {
    type V = Map<Seq<char>, ModelEntry>;

    closed spec fn view(&self) -> Map<Seq<char>, ModelEntry> {
        to_map(self.models@)
    }
}

/// The model name in a node id: the text before the first `-` (node ids
/// look like `blast_lnd-0000`), or the whole id when it has none.
pub open spec fn spec_model_of_node(id: Seq<char>) -> Seq<char> {
    if exists|i: int| 0 <= i < id.len() && id[i] == '-' {
        id.take(choose|i: int| 0 <= i < id.len() && id[i] == '-' && forall|j: int| 0 <= j < i ==> id[j] != '-')
    } else {
        id
    }
}

/// The model name in a node id: the text before the first `-` (node ids look
/// like `blast_lnd-0000`), or the whole id when it has none.
pub fn get_model_from_node(node_id: String) -> (m: String)
    ensures
        m@ == spec_model_of_node(node_id@),
        forall|j: int| 0 <= j < m@.len() ==> m@[j] != '-',
        m@ == node_id@.take(m@.len() as int),
        m@.len() == node_id@.len() || node_id@[m@.len() as int] == '-',
{
    let cs = chars_of(node_id.as_str());
    let mut i: usize = 0;
    while i < cs.len() && cs[i] != '-'
        invariant
            cs@ == node_id@,
            i <= cs@.len(),
            forall|j: int| 0 <= j < i ==> cs@[j] != '-',
        decreases cs@.len() - i,
    {
        i = i + 1;
    }
    let ghost id = node_id@;
    let m = string_from_chars(slice_prefix(&cs, i).as_slice());
    proof {
        if i < cs@.len() {
            assert(cs@[i as int] == '-');
        }
        if exists|k: int| 0 <= k < id.len() && id[k] == '-' {
            let c = choose|k: int| 0 <= k < id.len() && id[k] == '-' && forall|j: int| 0 <= j < k ==> id[j] != '-';
            assert(0 <= i < id.len() && id[i as int] == '-' && forall|j: int| 0 <= j < i ==> id[j] != '-');
            if c < i {
                assert(id[c] != '-');
            }
            if c > i {
                assert(id[i as int] != '-');
            }
        } else {
            assert(id.take(i as int) =~= id);
        }
    }
    m
}

/// The first `n` characters of `v`.
fn slice_prefix(v: &Vec<char>, n: usize) -> (r: Vec<char>)
    requires
        n <= v@.len(),
    ensures
        r@ == v@.take(n as int),
{
    let mut r: Vec<char> = Vec::new();
    let mut i: usize = 0;
    while i < n
        invariant
            n <= v@.len(),
            i <= n,
            r@ == v@.take(i as int),
        decreases n - i,
    {
        r.push(v[i]);
        assert(v@.take(i as int).push(v@[i as int]) =~= v@.take(i + 1));
        i = i + 1;
    }
    r
}

/// No two models share a name.
spec fn names_distinct(s: Seq<BlastModel>) -> bool {
    forall|i: int, j: int| 0 <= i < j < s.len() ==> s[i].config.name@ != s[j].config.name@
}

proof fn lemma_to_map_contents(s: Seq<BlastModel>)
    requires
        names_distinct(s),
    ensures
        forall|k: Seq<char>| #[trigger] to_map(s).contains_key(k) <==> exists|i: int| 0 <= i < s.len() && s[i].config.name@ == k,
        forall|i: int| 0 <= i < s.len() ==> #[trigger] to_map(s)[s[i].config.name@] == entry_of(s[i]),
    decreases s.len(),
{
    if s.len() > 0 {
        let t = s.drop_last();
        assert(names_distinct(t));
        lemma_to_map_contents(t);
        assert forall|k: Seq<char>| #[trigger] to_map(s).contains_key(k) <==> exists|i: int| 0 <= i < s.len() && s[i].config.name@ == k by {
            let last = s.len() - 1;
            if to_map(s).contains_key(k) {
                if k == s.last().config.name@ {
                    assert(0 <= last < s.len() && s[last].config.name@ == k);
                } else {
                    assert(to_map(t).contains_key(k));
                    let i = choose|i: int| 0 <= i < t.len() && t[i].config.name@ == k;
                    assert(s[i] == t[i]);
                    assert(0 <= i < s.len() && s[i].config.name@ == k);
                }
            }
            if exists|i: int| 0 <= i < s.len() && s[i].config.name@ == k {
                let i = choose|i: int| 0 <= i < s.len() && s[i].config.name@ == k;
                if i < last {
                    assert(t[i] == s[i]);
                    assert(0 <= i < t.len() && t[i].config.name@ == k);
                    assert(to_map(t).contains_key(k));
                }
            }
        }
        assert forall|i: int| 0 <= i < s.len() implies #[trigger] to_map(s)[s[i].config.name@] == entry_of(s[i]) by {
            if i < s.len() - 1 {
                assert(t[i] == s[i]);
                assert(s[i].config.name@ != s.last().config.name@);
                assert(to_map(t)[t[i].config.name@] == entry_of(t[i]));
            }
        }
    }
}

proof fn lemma_to_map_update(s: Seq<BlastModel>, i: int, m: BlastModel)
    requires
        names_distinct(s),
        0 <= i < s.len(),
        m.config.name@ == s[i].config.name@,
    ensures
        names_distinct(s.update(i, m)),
        to_map(s.update(i, m)) == to_map(s).insert(m.config.name@, entry_of(m)),
    decreases s.len(),
{
    let u = s.update(i, m);
    assert(names_distinct(u)) by {
        assert forall|a: int, b: int| 0 <= a < b < u.len() implies u[a].config.name@ != u[b].config.name@ by {
            assert(s[a].config.name@ != s[b].config.name@);
        }
    }
    if i == s.len() - 1 {
        assert(u.drop_last() =~= s.drop_last());
        lemma_to_map_contents(s);
        let t = s.drop_last();
        assert(names_distinct(t));
        lemma_to_map_contents(t);
        assert(!to_map(t).contains_key(m.config.name@)) by {
            if to_map(t).contains_key(m.config.name@) {
                let j = choose|j: int| 0 <= j < t.len() && t[j].config.name@ == m.config.name@;
                assert(s[j].config.name@ != s[i].config.name@);
            }
        }
        assert(to_map(u) =~= to_map(s).insert(m.config.name@, entry_of(m)));
    } else {
        let t = s.drop_last();
        assert(names_distinct(t));
        lemma_to_map_update(t, i, m);
        assert(u.drop_last() =~= t.update(i, m));
        assert(u.last() == s.last());
        assert(s.last().config.name@ != m.config.name@);
        assert(to_map(u) =~= to_map(s).insert(m.config.name@, entry_of(m)));
    }
}

impl BlastModelManager {
    /// The registry is well formed: no two models share a name.
    pub closed spec fn wf(&self) -> bool {
        names_distinct(self.models@)
    }

    /// A registry of the models described by `configs`, inserted in order (a
    /// later description of the same name replaces an earlier), none
    /// connected.
    pub fn from_configs(configs: Vec<ModelConfig>) -> (m: Self)
        ensures
            m.wf(),
            m@ == configs_map(configs@.map_values(|c: ModelConfig| config_view(c))),
    {
        let mut m = BlastModelManager { models: Vec::new() };
        let mut configs = configs;
        let ghost all = configs@;
        let mut rest: Vec<ModelConfig> = Vec::new();
        // take the descriptions in order
        let n = configs.len();
        let mut i: usize = 0;
        proof {
            assert(m@ =~= configs_map(all.take(0).map_values(|c: ModelConfig| config_view(c))));
        }
        while configs.len() > 0
            invariant
                m.wf(),
                all.len() == n,
                configs@ =~= all.skip(i as int),
                i <= n,
                m@ == configs_map(all.take(i as int).map_values(|c: ModelConfig| config_view(c))),
            decreases configs@.len(),
        {
            let c = configs.remove(0);
            proof {
                assert(c == all[i as int]);
                assert(all.take(i + 1).map_values(|c: ModelConfig| config_view(c))
                    =~= all.take(i as int).map_values(|c: ModelConfig| config_view(c)).push(config_view(c)));
            }
            let ghost before = all.take(i as int).map_values(|c: ModelConfig| config_view(c));
            proof {
                assert(before.push(config_view(c)).drop_last() =~= before);
            }
            m.insert_config(c);
            i = i + 1;
        }
        proof {
            assert(all.take(n as int) =~= all);
        }
        m
    }

    /// Adds (or replaces) the model of this description, not connected.
    fn insert_config(&mut self, c: ModelConfig)
        requires
            old(self).wf(),
        ensures
            final(self).wf(),
            final(self)@ == old(self)@.insert(c.name@, ModelEntry { rpc: c.rpc@, start: c.start@, connected: false }),
    {
        let idx = self.find(c.name.as_str());
        let m = BlastModel { connected: false, config: c };
        match idx {
            Some(i) => {
                proof {
                    lemma_to_map_update(self.models@, i as int, m);
                }
                self.models.set(i, m);
            },
            None => {
                let ghost s = self.models@;
                proof {
                    lemma_to_map_contents(s);
                }
                self.models.push(m);
                proof {
                    assert(self.models@.drop_last() =~= s);
                    assert(names_distinct(self.models@)) by {
                        assert forall|a: int, b: int| 0 <= a < b < self.models@.len() implies
                            self.models@[a].config.name@ != self.models@[b].config.name@ by {
                            if b == s.len() {
                                assert(s[a].config.name@ != m.config.name@);
                            } else {
                                assert(s[a].config.name@ != s[b].config.name@);
                            }
                        }
                    }
                }
            },
        }
    }

    /// The position of the model named `name`, if there is one.
    fn find(&self, name: &str) -> (r: Option<usize>)
        requires
            self.wf(),
        ensures
            match r {
                Some(i) => i < self.models@.len() && self.models@[i as int].config.name@ == name@
                    && self@.contains_key(name@)
                    && self@[name@] == entry_of(self.models@[i as int]),
                None => !self@.contains_key(name@),
            },
    {
        proof {
            lemma_to_map_contents(self.models@);
        }
        let mut i: usize = 0;
        while i < self.models.len()
            invariant
                i <= self.models@.len(),
                names_distinct(self.models@),
                forall|j: int| 0 <= j < i ==> self.models@[j].config.name@ != name@,
            decreases self.models@.len() - i,
        {
            if str_eq(self.models[i].config.name.as_str(), name) {
                proof {
                    lemma_to_map_contents(self.models@);
                    assert(to_map(self.models@)[self.models@[i as int].config.name@] == entry_of(self.models@[i as int]));
                }
                return Some(i);
            }
            i = i + 1;
        }
        None
    }

    /// The names of all known models (in no promised order), or an error
    /// when there are none.
    pub fn get_models(&self) -> (r: Result<Vec<String>, String>)
        requires
            self.wf(),
        ensures
            self@.dom().is_empty() <==> r is Err,
            r matches Err(e) ==> e@ == "No models available"@,
            r matches Ok(v) ==> (forall|k: Seq<char>| self@.contains_key(k)
                <==> crate::tui::strings_view(v@).contains(k)),
            r matches Ok(v) ==> crate::tui::strings_view(v@).no_duplicates(),
    {
        proof {
            lemma_to_map_contents(self.models@);
        }
        let mut keys: Vec<String> = Vec::new();
        let mut i: usize = 0;
        while i < self.models.len()
            invariant
                i <= self.models@.len(),
                names_distinct(self.models@),
                keys@.len() == i,
                forall|j: int| 0 <= j < i ==> #[trigger] keys@[j]@ == self.models@[j].config.name@,
            decreases self.models@.len() - i,
        {
            keys.push(self.models[i].config.name.clone());
            i = i + 1;
        }
        let ghost ks = crate::tui::strings_view(keys@);
        assert forall|k: Seq<char>| self@.contains_key(k) <==> ks.contains(k) by {
            if self@.contains_key(k) {
                let j = choose|j: int| 0 <= j < self.models@.len() && self.models@[j].config.name@ == k;
                assert(ks[j] == k);
            }
            if ks.contains(k) {
                let j = choose|j: int| 0 <= j < ks.len() && ks[j] == k;
                assert(keys@[j]@ == k);
            }
        }
        if keys.len() == 0 {
            assert(self@.dom() =~= Set::<Seq<char>>::empty());
            Err(String::from_str("No models available"))
        } else {
            assert(self@.contains_key(self.models@[0].config.name@));
            assert(ks.no_duplicates()) by {
                assert forall|a: int, b: int| 0 <= a < ks.len() && 0 <= b < ks.len() && a != b implies ks[a] != ks[b] by {
                    assert(keys@[a]@ == self.models@[a].config.name@);
                    assert(keys@[b]@ == self.models@[b].config.name@);
                }
            }
            Ok(keys)
        }
    }

    /// Checks that a connection to the model named `model` is open.
    pub fn get_model_client(&self, model: &str) -> (r: Result<(), String>)
        requires
            self.wf(),
        ensures
            !self@.contains_key(model@) ==> (r matches Err(e) && e@ == "Could not get model"@),
            self@.contains_key(model@) && !self@[model@].connected ==> (r matches Err(e) && e@
                == "Could not get model connection"@),
            self@.contains_key(model@) && self@[model@].connected ==> r is Ok,
    {
        match self.find(model) {
            None => Err(String::from_str("Could not get model")),
            Some(i) => {
                if self.models[i].connected {
                    Ok(())
                } else {
                    Err(String::from_str("Could not get model connection"))
                }
            },
        }
    }

    /// Records that the RPC connection to the model named `model` is open.
    pub fn set_connected(&mut self, model: &str)
        requires
            old(self).wf(),
            old(self)@.contains_key(model@),
        ensures
            final(self).wf(),
            final(self)@ == old(self)@.insert(model@, ModelEntry { connected: true, ..old(self)@[model@] }),
    {
        match self.find(model) {
            Some(i) => {
                let c = ModelConfig {
                    name: self.models[i].config.name.clone(),
                    rpc: self.models[i].config.rpc.clone(),
                    start: self.models[i].config.start.clone(),
                };
                let m = BlastModel { connected: true, config: c };
                proof {
                    lemma_to_map_update(self.models@, i as int, m);
                }
                self.models.set(i, m);
            },
            None => {},
        }
    }
}

/// What to run to start a model, where its output goes, and where its RPC
/// server listens.
pub struct ModelLaunch {
    /// The model's start program, relative to the working directory.
    pub exe: String,
    /// The log file name, under the BLAST log directory.
    pub log_file: String,
    /// The address of the model's RPC server.
    pub address: String,
}

/// Keep trying to reach a model while the simulation runs; give up once it
/// is stopped.
pub fn connection_retry(running: bool) -> (r: Result<(), String>)
    ensures
        running <==> r is Ok,
        r matches Err(e) ==> e@ == "Could not connect to model"@,
{
    if running {
        Ok(())
    } else {
        Err(String::from_str("Could not connect to model"))
    }
}

/// The RPC calls a model answers.
#[derive(PartialEq, Eq, Structural, Clone, Copy, Debug)]
pub enum ModelRpc {
    StopModel,
    Load,
    Save,
    StartNodes,
    GetSimLn,
    GetPubKey,
    ListPeers,
    WalletBalance,
    ChannelBalance,
    ListChannels,
    OpenChannel,
    CloseChannel,
    ConnectPeer,
    DisconnectPeer,
    GetBtcAddress,
    GetListenAddress,
}

/// The name of an RPC call in error messages.
pub open spec fn rpc_name(rpc: ModelRpc) -> Seq<char> {
    match rpc {
        ModelRpc::StopModel => "stop_model"@,
        ModelRpc::Load => "load"@,
        ModelRpc::Save => "save"@,
        ModelRpc::StartNodes => "start nodes"@,
        ModelRpc::GetSimLn => "get_sim_ln"@,
        ModelRpc::GetPubKey => "get_pub_key"@,
        ModelRpc::ListPeers => "list_peers"@,
        ModelRpc::WalletBalance => "wallet_balance"@,
        ModelRpc::ChannelBalance => "channel_balance"@,
        ModelRpc::ListChannels => "list_channels"@,
        ModelRpc::OpenChannel => "open_channel"@,
        ModelRpc::CloseChannel => "close_channel"@,
        ModelRpc::ConnectPeer => "connect_peer"@,
        ModelRpc::DisconnectPeer => "disconnect_peer"@,
        ModelRpc::GetBtcAddress => "get_btc_address"@,
        ModelRpc::GetListenAddress => "get_listen_address"@,
    }
}

/// The message for a call that did not get through: the transport error's
/// text is shown, except for the calls that report it plainly.
pub open spec fn rpc_failure_message(rpc: ModelRpc, detail: Seq<char>) -> Seq<char> {
    match rpc {
        ModelRpc::StopModel | ModelRpc::StartNodes | ModelRpc::GetSimLn => "RPC "@ + rpc_name(rpc) + " failed"@,
        _ => "RPC "@ + rpc_name(rpc) + " failed: "@ + detail,
    }
}

/// The message for a call that the model answered with "not done".
pub open spec fn rpc_refusal_message(rpc: ModelRpc) -> Seq<char> {
    match rpc {
        ModelRpc::StopModel => "Model did not shutdown successfully"@,
        ModelRpc::Load => "Model did not load successfully"@,
        ModelRpc::Save => "Model did not save successfully"@,
        ModelRpc::StartNodes => "Could not get simln data"@,
        ModelRpc::OpenChannel => "Error opening channel"@,
        ModelRpc::CloseChannel => "Error closing channel"@,
        ModelRpc::ConnectPeer => "Error connecting to peer"@,
        ModelRpc::DisconnectPeer => "Error disconnecting from peer"@,
        _ => "RPC "@ + rpc_name(rpc) + " failed"@,
    }
}

fn rpc_name_text(rpc: ModelRpc) -> (t: String)
    ensures
        t@ == rpc_name(rpc),
{
    match rpc {
        ModelRpc::StopModel => String::from_str("stop_model"),
        ModelRpc::Load => String::from_str("load"),
        ModelRpc::Save => String::from_str("save"),
        ModelRpc::StartNodes => String::from_str("start nodes"),
        ModelRpc::GetSimLn => String::from_str("get_sim_ln"),
        ModelRpc::GetPubKey => String::from_str("get_pub_key"),
        ModelRpc::ListPeers => String::from_str("list_peers"),
        ModelRpc::WalletBalance => String::from_str("wallet_balance"),
        ModelRpc::ChannelBalance => String::from_str("channel_balance"),
        ModelRpc::ListChannels => String::from_str("list_channels"),
        ModelRpc::OpenChannel => String::from_str("open_channel"),
        ModelRpc::CloseChannel => String::from_str("close_channel"),
        ModelRpc::ConnectPeer => String::from_str("connect_peer"),
        ModelRpc::DisconnectPeer => String::from_str("disconnect_peer"),
        ModelRpc::GetBtcAddress => String::from_str("get_btc_address"),
        ModelRpc::GetListenAddress => String::from_str("get_listen_address"),
    }
}

/// The message for a call that did not get through.
pub fn rpc_failure(rpc: ModelRpc, detail: &str) -> (m: String)
    ensures
        m@ == rpc_failure_message(rpc, detail@),
{
    let mut m = join_str("RPC ", rpc_name_text(rpc).as_str());
    match rpc {
        ModelRpc::StopModel | ModelRpc::StartNodes | ModelRpc::GetSimLn => {
            m.append(" failed");
        },
        _ => {
            m.append(" failed: ");
            m.append(detail);
        },
    }
    m
}

/// The message for a call that the model answered with "not done".
pub fn rpc_refusal(rpc: ModelRpc) -> (m: String)
    ensures
        m@ == rpc_refusal_message(rpc),
{
    match rpc {
        ModelRpc::StopModel => String::from_str("Model did not shutdown successfully"),
        ModelRpc::Load => String::from_str("Model did not load successfully"),
        ModelRpc::Save => String::from_str("Model did not save successfully"),
        ModelRpc::StartNodes => String::from_str("Could not get simln data"),
        ModelRpc::OpenChannel => String::from_str("Error opening channel"),
        ModelRpc::CloseChannel => String::from_str("Error closing channel"),
        ModelRpc::ConnectPeer => String::from_str("Error connecting to peer"),
        ModelRpc::DisconnectPeer => String::from_str("Error disconnecting from peer"),
        _ => {
            let mut m = join_str("RPC ", rpc_name_text(rpc).as_str());
            m.append(" failed");
            m
        },
    }
}

/// The outcome of a call answered with a success flag: done, refused, or
/// not got through (with the transport error's text).
pub fn flag_reply(rpc: ModelRpc, reply: Result<bool, String>) -> (r: Result<(), String>)
    ensures
        match reply {
            Ok(true) => r is Ok,
            Ok(false) => r matches Err(e) && e@ == rpc_refusal_message(rpc),
            Err(d) => r matches Err(e) && e@ == rpc_failure_message(rpc, d@),
        },
{
    match reply {
        Ok(true) => Ok(()),
        Ok(false) => Err(rpc_refusal(rpc)),
        Err(d) => Err(rpc_failure(rpc, d.as_str())),
    }
}

/// The outcome of a call answered with a text.
pub fn text_reply(rpc: ModelRpc, reply: Result<String, String>) -> (r: Result<String, String>)
    ensures
        match reply {
            Ok(t) => r matches Ok(u) && u@ == t@,
            Err(d) => r matches Err(e) && e@ == rpc_failure_message(rpc, d@),
        },
{
    match reply {
        Ok(t) => Ok(t),
        Err(d) => Err(rpc_failure(rpc, d.as_str())),
    }
}

/// Reads UTF-8 bytes as text.
///
/// Trusted: calls std `str::from_utf8`, which succeeds exactly on valid UTF-8
/// and then holds the decoded characters; the contract says so in vstd's
/// terms (`valid_utf8`, `decode_utf8`).
#[verifier::external_body]
fn str_from_utf8(bytes: &[u8]) -> (r: Option<&str>)
    ensures
        r is Some <==> vstd::utf8::valid_utf8(bytes@),
        r matches Some(s) ==> s@ == vstd::utf8::decode_utf8(bytes@),
{
    std::str::from_utf8(bytes).ok()
}

/// The node data a model sends after starting its nodes: its text, or an
/// error when the call failed or the bytes are not UTF-8.
pub fn simln_reply(reply: Result<Vec<u8>, String>) -> (r: Result<String, String>)
    ensures
        match reply {
            Ok(b) => if vstd::utf8::valid_utf8(b@) {
                r matches Ok(t) && t@ == vstd::utf8::decode_utf8(b@)
            } else {
                r matches Err(e) && e@ == "Invalid UTF-8 sequence"@
            },
            Err(d) => r matches Err(e) && e@ == rpc_failure_message(ModelRpc::GetSimLn, d@),
        },
{
    match reply {
        Ok(b) => match str_from_utf8(b.as_slice()) {
            Some(t) => Ok(String::from_str(t)),
            None => Err(String::from_str("Invalid UTF-8 sequence")),
        },
        Err(d) => Err(rpc_failure(ModelRpc::GetSimLn, d.as_str())),
    }
}

/// What the model manager does with a simulation event.
pub enum EventAction {
    /// Nothing yet (starting and stopping nodes are not done by events).
    Nothing,
    /// Open a channel from `source` to `dest`.
    OpenChannel { source: String, dest: String, amount: i64, push: i64, chan_id: i64 },
    /// Close channel `chan_id` of `source`.
    CloseChannel { source: String, chan_id: i64 },
}

/// What the model manager does with a simulation event.
pub fn event_action(event: crate::event::BlastEvent) -> (a: EventAction)
    ensures
        match event@ {
            crate::event::EventSpec::OpenChannel(s, d, am, p, id) => a matches EventAction::OpenChannel {
                source,
                dest,
                amount,
                push,
                chan_id,
            } && source@ == s && dest@ == d && amount == am && push == p && chan_id == id,
            crate::event::EventSpec::CloseChannel(s, id) => a matches EventAction::CloseChannel { source, chan_id }
                && source@ == s && chan_id == id,
            _ => a is Nothing,
        },
{
    match event {
        crate::event::BlastEvent::OpenChannelEvent(source, dest, amount, push, chan_id) => EventAction::OpenChannel {
            source,
            dest,
            amount,
            push,
            chan_id,
        },
        crate::event::BlastEvent::CloseChannelEvent(source, chan_id) => EventAction::CloseChannel { source, chan_id },
        _ => EventAction::Nothing,
    }
}

/// Whether a directory at this depth below the models directory is searched
/// for model descriptions (the directory itself and its subdirectories).
pub fn scan_depth_allowed(current_depth: usize) -> (b: bool)
    ensures
        b == (current_depth <= 1),
{
    current_depth <= 1
}

/// Whether a file is a model description.
pub fn is_model_file(file_name: &str) -> (b: bool)
    ensures
        b == (file_name@ == "model.json"@),
{
    str_eq(file_name, "model.json")
}

impl BlastModelManager {
    /// How to start the model named `model`.
    pub fn launch_plan(&self, model: &str) -> (r: Result<ModelLaunch, String>)
        requires
            self.wf(),
        ensures
            !self@.contains_key(model@) ==> (r matches Err(e) && e@ == "Failed to get the model"@),
            self@.contains_key(model@) ==> (r matches Ok(l)
                && l.exe@ == "../blast_models/"@ + model@ + "/"@ + self@[model@].start
                && l.log_file@ == model@ + ".log"@
                && l.address@ == "http://"@ + self@[model@].rpc),
    {
        match self.find(model) {
            None => Err(String::from_str("Failed to get the model")),
            Some(i) => {
                let c = &self.models[i].config;
                let mut exe = join_str("../blast_models/", c.name.as_str());
                exe.append("/");
                exe.append(c.start.as_str());
                let log_file = join_str(c.name.as_str(), ".log");
                let address = join_str("http://", c.rpc.as_str());
                Ok(ModelLaunch { exe, log_file, address })
            },
        }
    }

    /// The model that runs node `node_id` (the part of the id before the
    /// first `-`), once its connection is open.
    pub fn route(&self, node_id: &str) -> (r: Result<String, String>)
        requires
            self.wf(),
        ensures
            ({
                let m = spec_model_of_node(node_id@);
                &&& !self@.contains_key(m) ==> (r matches Err(e) && e@ == "Could not get model"@)
                &&& self@.contains_key(m) && !self@[m].connected ==> (r matches Err(e) && e@
                    == "Could not get model connection"@)
                &&& self@.contains_key(m) && self@[m].connected ==> (r matches Ok(name) && name@ == m)
            }),
    {
        let model_name = get_model_from_node(String::from_str(node_id));
        self.get_model_client(model_name.as_str())?;
        Ok(model_name)
    }

    /// All channels of all models (none are tracked yet).
    pub fn get_channels(&self) -> (v: Vec<String>)
        ensures
            v@.len() == 0,
    {
        Vec::new()
    }
}

} // verus!
