//! Port management for sandbox portals.
//!
//! Each sandbox is assigned one host port for its portal. The assignment is kept
//! as a bidirectional mapping, so that a port is found from a sandbox and a
//! sandbox from a port, and no port is ever held by two sandboxes.

use std::collections::HashMap;
use vstd::hash_map::StringHashMap;
use vstd::prelude::*;
use vstd::std_specs::hash::spec_hash_map_iter;
use vstd::std_specs::iter::IteratorSpec;

use vstd::string::StringExecFns;

use crate::server::error::ServerError;
use crate::text::{decimal_string, decimal_text, keys_distinct, str_equal};

verus! {

broadcast use vstd::std_specs::hash::group_hash_axioms;

//--------------------------------------------------------------------------------------------------
// Specifications
//--------------------------------------------------------------------------------------------------

/// No two sandboxes hold the same port.
pub open spec fn ports_unique(m: Map<Seq<char>, u16>) -> bool {
    forall|a: Seq<char>, b: Seq<char>|
        #![trigger m[a], m[b]]
        m.contains_key(a) && m.contains_key(b) && m[a] == m[b] ==> a == b
}

/// Some sandbox holds the port.
pub open spec fn port_taken(m: Map<Seq<char>, u16>, p: u16) -> bool {
    exists|k: Seq<char>| m.contains_key(k) && m[k] == p
}

/// The mapping after `k` is assigned `p`: whichever other sandbox held `p`
/// loses it, and `k` gives up the port it held before.
pub open spec fn assign(m: Map<Seq<char>, u16>, k: Seq<char>, p: u16) -> Map<Seq<char>, u16> {
    Map::new(|s: Seq<char>| m.contains_key(s) && m[s] != p, |s: Seq<char>| m[s]).insert(k, p)
}

/// The mapping after the sandbox holding `p`, if any, is removed.
pub open spec fn release_port_of(m: Map<Seq<char>, u16>, p: u16) -> Map<Seq<char>, u16> {
    Map::new(|s: Seq<char>| m.contains_key(s) && m[s] != p, |s: Seq<char>| m[s])
}


/// The mapping built by inserting every entry, in order, into `m`.
pub open spec fn assign_all(m: Map<Seq<char>, u16>, entries: Seq<(String, u16)>) -> Map<
    Seq<char>,
    u16,
>
    decreases entries.len(),
{
    if entries.len() == 0 {
        m
    } else {
        let last = entries.last();
        assign(assign_all(m, entries.drop_last()), last.0@, last.1)
    }
}

/// The entries list the mapping `m` exactly: each entry is a sandbox of `m` with
/// its port, each sandbox of `m` has an entry, and no sandbox has two.
pub open spec fn lists_exactly(entries: Seq<(String, u16)>, m: Map<Seq<char>, u16>) -> bool {
    &&& forall|i: int|
        0 <= i < entries.len() ==> m.contains_key(#[trigger] entries[i].0@) && m[entries[i].0@]
            == entries[i].1
    &&& forall|k: Seq<char>|
        #[trigger] m.contains_key(k) ==> exists|i: int| 0 <= i < entries.len() && entries[i].0@ == k
    &&& forall|i: int, j: int|
        0 <= i < entries.len() && 0 <= j < entries.len() && i != j ==> #[trigger] entries[i].0@
            != #[trigger] entries[j].0@
}

/// The map whose keys and values the entries list, later entries winning.
pub open spec fn entries_map(entries: Seq<(String, u16)>) -> Map<Seq<char>, u16>
    decreases entries.len(),
{
    if entries.len() == 0 {
        Map::empty()
    } else {
        let last = entries.last();
        entries_map(entries.drop_last()).insert(last.0@, last.1)
    }
}

//--------------------------------------------------------------------------------------------------
// Types
//--------------------------------------------------------------------------------------------------

/// Port mapping for sandbox instances - bidirectional for fast lookups
pub struct BiPortMapping {
    /// Maps sandbox names to assigned port numbers
    sandbox_to_port: StringHashMap<u16>,
    /// Maps port numbers to sandbox identifiers for fast reverse lookup
    port_to_sandbox: HashMap<u16, String>,
}

/// Serializable version of the port mapping for file storage: the list of
/// (sandbox, port) entries.
pub struct PortMapping {
    /// Maps sandbox names to assigned port numbers
    pub mappings: Vec<(String, u16)>,
}

impl View for BiPortMapping {
    type V = Map<Seq<char>, u16>;

    closed spec fn view(&self) -> Map<Seq<char>, u16> {
        self.sandbox_to_port@
    }
}

impl BiPortMapping {
    /// The two directions of the mapping agree.
    pub closed spec fn wf(&self) -> bool {
        let s2p = self.sandbox_to_port@;
        let p2s = self.port_to_sandbox@;
        &&& forall|k: Seq<char>|
            #[trigger] s2p.contains_key(k) ==> p2s.contains_key(s2p[k]) && p2s[s2p[k]]@ == k
        &&& forall|p: u16|
            #[trigger] p2s.contains_key(p) ==> s2p.contains_key(p2s[p]@) && s2p[p2s[p]@] == p
    }

    /// A well-formed mapping gives each port to at most one sandbox.
    pub proof fn lemma_wf_ports_unique(&self)
        requires
            self.wf(),
        ensures
            ports_unique(self@),
    {
    }

    /// Create a new bidirectional port mapping
    pub fn new() -> (r: Self)
        ensures
            r.wf(),
            r@ == Map::<Seq<char>, u16>::empty(),
    {
        BiPortMapping { sandbox_to_port: StringHashMap::new(), port_to_sandbox: HashMap::new() }
    }

    /// Insert a mapping, handling any existing mappings for the port or sandbox
    pub fn insert(&mut self, sandbox_key: String, port: u16)
        requires
            old(self).wf(),
        ensures
            final(self).wf(),
            final(self)@ == assign(old(self)@, sandbox_key@, port),
    {
        let ghost old_s2p = self.sandbox_to_port@;
        let ghost old_p2s = self.port_to_sandbox@;

        // Check if this port is already assigned to a different sandbox
        let mut owner_removed = false;
        if let Some(existing_sandbox) = self.port_to_sandbox.get(&port) {
            if !str_equal(existing_sandbox.as_str(), sandbox_key.as_str()) {
                // Port is already assigned to a different sandbox - remove that mapping
                self.sandbox_to_port.remove(existing_sandbox.as_str());
                owner_removed = true;
            }
        }
        let ghost mid_s2p = self.sandbox_to_port@;
        assert(mid_s2p =~= Map::new(
            |s: Seq<char>| old_s2p.contains_key(s) && (s == sandbox_key@ || old_s2p[s] != port),
            |s: Seq<char>| old_s2p[s],
        ));

        // Check if this sandbox already has a different port
        if let Some(existing_port) = self.sandbox_to_port.get(sandbox_key.as_str()) {
            let existing_port: u16 = *existing_port;
            if existing_port != port {
                // Sandbox had a different port - remove that mapping
                self.port_to_sandbox.remove(&existing_port);
            }
        }

        // Insert the new mapping in both directions
        self.sandbox_to_port.insert(sandbox_key.clone(), port);
        self.port_to_sandbox.insert(port, sandbox_key);

        assert(self.sandbox_to_port@ =~= assign(old_s2p, sandbox_key@, port));
    }

    /// Remove a mapping by sandbox key
    pub fn remove_by_sandbox(&mut self, sandbox_key: &str) -> (r: Option<u16>)
        requires
            old(self).wf(),
        ensures
            final(self).wf(),
            final(self)@ == old(self)@.remove(sandbox_key@),
            r == (if old(self)@.contains_key(sandbox_key@) {
                Some(old(self)@[sandbox_key@])
            } else {
                None
            }),
    {
        match self.sandbox_to_port.get(sandbox_key) {
            Some(port) => {
                let port: u16 = *port;
                self.sandbox_to_port.remove(sandbox_key);
                self.port_to_sandbox.remove(&port);
                Some(port)
            },
            None => None,
        }
    }

    /// Remove a mapping by port
    pub fn remove_by_port(&mut self, port: u16) -> (r: Option<String>)
        requires
            old(self).wf(),
        ensures
            final(self).wf(),
            final(self)@ == release_port_of(old(self)@, port),
            r is Some <==> port_taken(old(self)@, port),
            r matches Some(s) ==> old(self)@.contains_key(s@) && old(self)@[s@] == port,
    {
        let ghost old_s2p = self.sandbox_to_port@;
        match self.port_to_sandbox.remove(&port) {
            Some(sandbox_key) => {
                self.sandbox_to_port.remove(sandbox_key.as_str());
                assert(self.sandbox_to_port@ =~= release_port_of(old_s2p, port));
                Some(sandbox_key)
            },
            None => {
                assert(self.sandbox_to_port@ =~= release_port_of(old_s2p, port));
                None
            },
        }
    }

    /// Convert to serializable format
    pub fn to_port_mapping(&self) -> (r: PortMapping)
        requires
            self.wf(),
        ensures
            lists_exactly(r.mappings@, self@),
            keys_distinct(r.mappings@),
    {
        let ghost s2p = self.sandbox_to_port@;
        let ghost p2s = self.port_to_sandbox@;
        let mut mappings: Vec<(String, u16)> = Vec::new();
        for x in it: self.port_to_sandbox.iter()
            invariant
                mappings@.len() == it.index(),
                forall|j: int|
                    0 <= j < mappings@.len() ==> #[trigger] mappings@[j] == (
                        *it.seq()[j].1,
                        *it.seq()[j].0,
                    ),
        {
            let (port, sandbox) = x;
            mappings.push((sandbox.clone(), *port));
        }
        let ghost v = mappings@;
        let ghost sq = spec_hash_map_iter(&self.port_to_sandbox).remaining();
        assert(lists_exactly(v, s2p)) by {
            assert forall|i: int| 0 <= i < v.len() implies s2p.contains_key(#[trigger] v[i].0@)
                && s2p[v[i].0@] == v[i].1 by {
                assert(p2s.contains_key(*sq[i].0));
            }
            assert forall|k: Seq<char>| #[trigger] s2p.contains_key(k) implies exists|i: int|
                0 <= i < v.len() && v[i].0@ == k by {
                let p = s2p[k];
                assert(p2s.contains_key(p));
                assert(sq.contains((&p, &p2s[p])));
                let i = choose|i: int| 0 <= i < sq.len() && sq[i] == (&p, &p2s[p]);
                assert(v[i].0@ == k);
            }
            assert forall|i: int, j: int|
                0 <= i < v.len() && 0 <= j < v.len() && i != j implies #[trigger] v[i].0@
                != #[trigger] v[j].0@ by {
                assert(p2s.contains_key(*sq[i].0));
                assert(p2s.contains_key(*sq[j].0));
                if v[i].0@ == v[j].0@ {
                    assert(sq[i] == sq[j]);
                }
            }
        }
        PortMapping { mappings }
    }

    /// Load from serializable format: the saved mapping lists each sandbox once,
    /// as the map it stands for.
    pub fn from_port_mapping(mapping: PortMapping) -> (r: Self)
        requires
            keys_distinct(mapping.mappings@),
        ensures
            r.wf(),
            r@ == assign_all(Map::empty(), mapping.mappings@),
            (forall|i: int, j: int|
                0 <= i < mapping.mappings@.len() && 0 <= j < mapping.mappings@.len() && i != j
                    ==> #[trigger] mapping.mappings@[i].1 != #[trigger] mapping.mappings@[j].1)
                ==> r@ == entries_map(mapping.mappings@),
    {
        let mut result = Self::new();
        let ghost entries = mapping.mappings@;
        let mut i: usize = 0;
        let n = mapping.mappings.len();
        while i < n
            invariant
                n == entries.len(),
                entries == mapping.mappings@,
                i <= n,
                result.wf(),
                result@ == assign_all(Map::empty(), entries.take(i as int)),
            decreases n - i,
        {
            let sandbox_key = mapping.mappings[i].0.clone();
            let port = mapping.mappings[i].1;
            assert(entries.take(i + 1).drop_last() =~= entries.take(i as int));
            result.insert(sandbox_key, port);
            i = i + 1;
        }
        assert(entries.take(n as int) =~= entries);
        proof {
            if forall|i: int, j: int|
                0 <= i < entries.len() && 0 <= j < entries.len() && i != j
                    ==> #[trigger] entries[i].1 != #[trigger] entries[j].1 {
                lemma_assign_all_distinct(entries);
            }
        }
        result
    }

    /// Get port by sandbox key
    pub fn get_port(&self, sandbox_key: &str) -> (r: Option<u16>)
        ensures
            r == (if self@.contains_key(sandbox_key@) {
                Some(self@[sandbox_key@])
            } else {
                None
            }),
    {
        match self.sandbox_to_port.get(sandbox_key) {
            Some(port) => Some(*port),
            None => None,
        }
    }

    /// Get sandbox key by port
    pub fn get_sandbox(&self, port: u16) -> (r: Option<&String>)
        requires
            self.wf(),
        ensures
            r is Some <==> port_taken(self@, port),
            r matches Some(s) ==> self@.contains_key(s@) && self@[s@] == port,
    {
        self.port_to_sandbox.get(&port)
    }
}

//--------------------------------------------------------------------------------------------------
// Port manager
//--------------------------------------------------------------------------------------------------

/// Manager for portal ports: the assignment of host ports to sandboxes and the
/// file it is kept in. Reading and writing that file, and asking the operating
/// system which ports are free, is done by the caller: each method says what it
/// changed, and the caller saves `port_mapping()` after a change.
pub struct PortManager {
    /// Current port assignments
    mappings: BiPortMapping,
    /// Path to the port mappings file
    file_path: String,
}

impl View for PortManager {
    type V = Map<Seq<char>, u16>;

    closed spec fn view(&self) -> Map<Seq<char>, u16> {
        self.mappings@
    }
}

/// The address of a sandbox's portal on the loopback interface.
pub open spec fn portal_url(port: u16) -> Seq<char> {
    "http://127.0.0.1:"@ + decimal_text(port as nat)
}

impl PortManager {
    /// The assignments are consistent in both directions.
    pub closed spec fn wf(&self) -> bool {
        self.mappings.wf()
    }

    /// The path of the file the assignments are kept in.
    pub closed spec fn path(&self) -> Seq<char> {
        self.file_path@
    }

    /// Create a port manager over the mappings file at `file_path`, with the
    /// mapping read from it, or none where the file does not exist yet. The saved
    /// mapping lists each sandbox once, as the map it stands for.
    pub fn new(file_path: String, saved: Option<PortMapping>) -> (r: Self)
        requires
            saved matches Some(m) ==> keys_distinct(m.mappings@),
        ensures
            r.wf(),
            r.path() == file_path@,
            r@ == match saved {
                Some(m) => assign_all(Map::empty(), m.mappings@),
                None => Map::empty(),
            },
    {
        let mappings = match saved {
            Some(m) => BiPortMapping::from_port_mapping(m),
            None => BiPortMapping::new(),
        };
        PortManager { mappings, file_path }
    }

    /// The path of the port mappings file.
    pub fn file_path(&self) -> (r: &str)
        ensures
            r@ == self.path(),
    {
        self.file_path.as_str()
    }

    /// The first step of assigning a port to a sandbox: keep the port it holds
    /// where that port is still free (`held_port_free`, which the caller finds
    /// out by binding the port); drop it where it is not. Returns the port that
    /// was kept; where `None` comes back, the caller asks the system for a free
    /// port and calls `record_assigned_port`.
    pub fn keep_assigned_port(&mut self, key: &str, held_port_free: bool) -> (r: Option<u16>)
        requires
            old(self).wf(),
        ensures
            final(self).wf(),
            final(self).path() == old(self).path(),
            old(self)@.contains_key(key@) && held_port_free ==> r == Some(old(self)@[key@])
                && final(self)@ == old(self)@,
            old(self)@.contains_key(key@) && !held_port_free ==> r is None && final(self)@ == old(
                self,
            )@.remove(key@),
            !old(self)@.contains_key(key@) ==> r is None && final(self)@ == old(self)@,
    {
        match self.mappings.get_port(key) {
            Some(port) => {
                if held_port_free {
                    Some(port)
                } else {
                    self.mappings.remove_by_sandbox(key);
                    None
                }
            },
            None => None,
        }
    }

    /// The last step of assigning a port: record that `key` now holds `port`.
    pub fn record_assigned_port(&mut self, key: String, port: u16)
        requires
            old(self).wf(),
        ensures
            final(self).wf(),
            final(self).path() == old(self).path(),
            final(self)@ == assign(old(self)@, key@, port),
    {
        self.mappings.insert(key, port);
    }

    /// Release a port assignment. Returns whether there was one, in which case
    /// the caller saves the mappings.
    pub fn release_port(&mut self, key: &str) -> (r: bool)
        requires
            old(self).wf(),
        ensures
            final(self).wf(),
            final(self).path() == old(self).path(),
            final(self)@ == old(self)@.remove(key@),
            r == old(self)@.contains_key(key@),
    {
        self.mappings.remove_by_sandbox(key).is_some()
    }

    /// Get a port for a sandbox if assigned
    pub fn get_port(&self, key: &str) -> (r: Option<u16>)
        ensures
            r == (if self@.contains_key(key@) {
                Some(self@[key@])
            } else {
                None
            }),
    {
        self.mappings.get_port(key)
    }

    /// The mapping in the form it is saved in.
    pub fn port_mapping(&self) -> (r: PortMapping)
        requires
            self.wf(),
        ensures
            lists_exactly(r.mappings@, self@),
            keys_distinct(r.mappings@),
    {
        self.mappings.to_port_mapping()
    }

    /// Get a sandbox's portal URL
    ///
    /// Returns an error if no port is assigned for the given sandbox
    pub fn get_portal_url_for_sandbox(&self, sandbox_name: &str) -> (r: Result<String, ServerError>)
        ensures
            self@.contains_key(sandbox_name@) ==> (r matches Ok(u) && u@ == portal_url(
                self@[sandbox_name@],
            )),
            !self@.contains_key(sandbox_name@) ==> (r matches Err(ServerError::InternalError(m))
                && m@ == "No portal port assigned for sandbox "@ + sandbox_name@),
    {
        match self.get_port(sandbox_name) {
            Some(port) => Ok(String::from_str("http://127.0.0.1:").concat(
                decimal_string(port as u64).as_str(),
            )),
            None => Err(
                ServerError::InternalError(
                    String::from_str("No portal port assigned for sandbox ").concat(sandbox_name),
                ),
            ),
        }
    }
}

//--------------------------------------------------------------------------------------------------
// Laws
//--------------------------------------------------------------------------------------------------

/// After a sandbox is assigned a port it holds that port, the port has no other
/// holder, every other sandbox keeps its port unless it held that one, and ports
/// stay unique.
pub proof fn lemma_assign_then_lookup(m: Map<Seq<char>, u16>, k: Seq<char>, p: u16)
    ensures
        assign(m, k, p).contains_key(k),
        assign(m, k, p)[k] == p,
        forall|s: Seq<char>|
            s != k && #[trigger] assign(m, k, p).contains_key(s) ==> assign(m, k, p)[s] != p,
        forall|s: Seq<char>|
            s != k ==> (#[trigger] assign(m, k, p).contains_key(s) <==> m.contains_key(s) && m[s]
                != p),
        forall|s: Seq<char>| s != k && #[trigger] assign(m, k, p).contains_key(s) ==> assign(m, k, p)[s] == m[s],
        ports_unique(m) ==> ports_unique(assign(m, k, p)),
{
}

/// Assigning the same port to the same sandbox twice is the same as once.
pub proof fn lemma_assign_idempotent(m: Map<Seq<char>, u16>, k: Seq<char>, p: u16)
    ensures
        assign(assign(m, k, p), k, p) == assign(m, k, p),
{
    assert(assign(assign(m, k, p), k, p) =~= assign(m, k, p));
}

/// After a sandbox's port is released it holds none, and every other sandbox
/// keeps the port it held.
pub proof fn lemma_release_then_lookup(m: Map<Seq<char>, u16>, k: Seq<char>)
    ensures
        !m.remove(k).contains_key(k),
        forall|s: Seq<char>|
            s != k ==> (#[trigger] m.remove(k).contains_key(s) <==> m.contains_key(s)),
        forall|s: Seq<char>| s != k && #[trigger] m.remove(k).contains_key(s) ==> m.remove(k)[s] == m[s],
        ports_unique(m) ==> ports_unique(m.remove(k)),
{
}

/// Inserting entries with distinct sandboxes and distinct ports builds exactly
/// the map that they list.
proof fn lemma_assign_all_distinct(entries: Seq<(String, u16)>)
    requires
        forall|i: int, j: int|
            0 <= i < entries.len() && 0 <= j < entries.len() && i != j ==> #[trigger] entries[i].0@
                != #[trigger] entries[j].0@ && entries[i].1 != entries[j].1,
    ensures
        assign_all(Map::empty(), entries) == entries_map(entries),
        forall|k: Seq<char>|
            #[trigger] entries_map(entries).contains_key(k) <==> exists|i: int|
                0 <= i < entries.len() && entries[i].0@ == k,
        forall|i: int|
            0 <= i < entries.len() ==> #[trigger] entries_map(entries)[entries[i].0@]
                == entries[i].1,
    decreases entries.len(),
{
    if entries.len() > 0 {
        let d = entries.drop_last();
        let last = entries.last();
        assert forall|i: int, j: int|
            0 <= i < d.len() && 0 <= j < d.len() && i != j implies #[trigger] d[i].0@
            != #[trigger] d[j].0@ && d[i].1 != d[j].1 by {
            assert(d[i] == entries[i] && d[j] == entries[j]);
        }
        lemma_assign_all_distinct(d);
        let before = entries_map(d);
        assert forall|s: Seq<char>| #[trigger] before.contains_key(s) implies before[s] != last.1
            && s != last.0@ by {
            let i = choose|i: int| 0 <= i < d.len() && d[i].0@ == s;
            assert(entries[i] == d[i]);
            assert(before[d[i].0@] == d[i].1);
            let j = entries.len() - 1;
            assert(entries[j] == last);
            assert(entries[i].0@ != entries[j].0@ && entries[i].1 != entries[j].1);
        }
        assert(Map::new(
            |s: Seq<char>| before.contains_key(s) && before[s] != last.1,
            |s: Seq<char>| before[s],
        ) =~= before);
        assert forall|k: Seq<char>|
            #[trigger] entries_map(entries).contains_key(k) <==> exists|i: int|
                0 <= i < entries.len() && entries[i].0@ == k by {
            if entries_map(entries).contains_key(k) && k != last.0@ {
                let i = choose|i: int| 0 <= i < d.len() && d[i].0@ == k;
                assert(entries[i] == d[i]);
            }
            if exists|i: int| 0 <= i < entries.len() && entries[i].0@ == k {
                let i = choose|i: int| 0 <= i < entries.len() && entries[i].0@ == k;
                if i < entries.len() - 1 {
                    assert(d[i] == entries[i]);
                }
            }
        }
        assert forall|i: int| 0 <= i < entries.len() implies #[trigger] entries_map(
            entries,
        )[entries[i].0@] == entries[i].1 by {
            if i < entries.len() - 1 {
                assert(d[i] == entries[i]);
                assert(entries[i].0@ != last.0@);
            }
        }
    }
}

/// Saving a well-formed mapping as entries and loading them back gives the same
/// mapping, whatever order the entries come in.
pub proof fn lemma_port_mapping_round_trip(entries: Seq<(String, u16)>, m: Map<Seq<char>, u16>)
    requires
        lists_exactly(entries, m),
        ports_unique(m),
    ensures
        assign_all(Map::empty(), entries) == m,
{
    assert forall|i: int, j: int|
        0 <= i < entries.len() && 0 <= j < entries.len() && i != j implies #[trigger] entries[i].0@
        != #[trigger] entries[j].0@ && entries[i].1 != entries[j].1 by {
        if entries[i].1 == entries[j].1 {
            assert(m[entries[i].0@] == m[entries[j].0@]);
        }
    }
    lemma_assign_all_distinct(entries);
    assert forall|k: Seq<char>| #[trigger] m.contains_key(k) implies entries_map(entries).contains_key(k)
        && entries_map(entries)[k] == m[k] by {
        let i = choose|i: int| 0 <= i < entries.len() && entries[i].0@ == k;
        assert(entries_map(entries)[entries[i].0@] == entries[i].1);
    }
    assert(entries_map(entries) =~= m);
}

/// Loading the entries that `to_port_mapping` lists rebuilds the mapping they came from.
pub proof fn lemma_bi_port_mapping_round_trip(mapping: &BiPortMapping, saved: &PortMapping)
    requires
        mapping.wf(),
        lists_exactly(saved.mappings@, mapping@),
    ensures
        assign_all(Map::empty(), saved.mappings@) == mapping@,
{
    mapping.lemma_wf_ports_unique();
    lemma_port_mapping_round_trip(saved.mappings@, mapping@);
}

/// A port manager made over the mapping that another one saved holds the same
/// assignments.
pub proof fn lemma_port_manager_reload(manager: &PortManager, saved: &PortMapping)
    requires
        manager.wf(),
        lists_exactly(saved.mappings@, manager@),
    ensures
        assign_all(Map::empty(), saved.mappings@) == manager@,
{
    lemma_bi_port_mapping_round_trip(&manager.mappings, saved);
}

} // verus!
