//! The agents connected to a server, each under its own identifier.

use vstd::prelude::*;
use crate::sdk::server::agent_connection::AgentConnection;
use dashmap::DashMap;

verus! {

/// Why an agent could not be added.
#[derive(Debug)]
pub enum AddAgentConnectionError {
    /// An agent with this identifier is already connected.
    AgentAlreadyExists(String),
}

/// Why an agent could not be removed.
#[derive(Debug)]
pub enum RemoveAgentConnectionError {
    /// No agent with this identifier is connected.
    AgentNotFound(String),
}

/// For each key under which a map holds a connection, the identifier of
/// the connection held there.
pub uninterp spec fn stored_identifiers(map: DashMap<String, AgentConnection>) -> Map<Seq<char>, Seq<char>>;

/// Calls `DashMap::new`: a map that holds no connection.
#[verifier::external_body]
fn connection_map_new() -> (map: DashMap<String, AgentConnection>)
    ensures
        stored_identifiers(map).dom() == Set::<Seq<char>>::empty(),
{
    DashMap::new()
}

/// Calls `DashMap::contains_key`: whether the map holds a connection
/// under `key`.
#[verifier::external_body]
fn connection_map_contains(map: &DashMap<String, AgentConnection>, key: &str) -> (r: bool)
    ensures
        r == stored_identifiers(*map).dom().contains(key@),
{
    map.contains_key(key)
}

/// Calls `DashMap::insert`: afterwards the map holds `value` under `key`,
/// in place of what it held there before, and keeps every other entry.
#[verifier::external_body]
fn connection_map_insert(
    map: &mut DashMap<String, AgentConnection>,
    key: String,
    value: AgentConnection,
)
    ensures
        stored_identifiers(*final(map)) == stored_identifiers(*old(map)).insert(
            key@,
            value.spec_identifier(),
        ),
{
    map.insert(key, value);
}

/// Calls `DashMap::remove`: afterwards the map holds nothing under `key`
/// and keeps every other entry.
#[verifier::external_body]
fn connection_map_remove(map: &mut DashMap<String, AgentConnection>, key: &str)
    ensures
        stored_identifiers(*final(map)) == stored_identifiers(*old(map)).remove(key@),
{
    map.remove(key);
}

/// Calls `DashMap::len`: the number of entries, one per key held.
#[verifier::external_body]
fn connection_map_len(map: &DashMap<String, AgentConnection>) -> (n: usize)
    ensures
        n == stored_identifiers(*map).dom().len(),
{
    map.len()
}

/// No agent at all.
pub open spec fn no_agents() -> Map<Seq<char>, Seq<char>> {
    Map::empty()
}

/// Finitely many agents, each stored under its own identifier.
pub open spec fn keyed_by_identifier(agents: Map<Seq<char>, Seq<char>>) -> bool {
    &&& agents.dom().finite()
    &&& forall|k: Seq<char>| #[trigger] agents.dom().contains(k) ==> agents[k] == k
}

/// The connected agents, at most one per identifier.
pub struct AgentConnectionManager {
    connections: DashMap<String, AgentConnection>,
}

impl View for AgentConnectionManager {
    type V = Map<Seq<char>, Seq<char>>;

    /// For each identifier under which an agent is stored, the identifier
    /// of the connection stored there.
    closed spec fn view(&self) -> Map<Seq<char>, Seq<char>> {
        stored_identifiers(self.connections)
    }
}

impl AgentConnectionManager {
    /// Every manager holds finitely many agents, each under its own
    /// identifier.
    #[verifier::type_invariant]
    pub open spec fn well_keyed(&self) -> bool {
        keyed_by_identifier(self@)
    }

    /// A manager with no agent.
    pub fn new() -> (m: Self)
        ensures
            m@ == no_agents(),
            keyed_by_identifier(m@),
    {
        let connections = connection_map_new();
        assert(stored_identifiers(connections) =~= no_agents());
        assert(stored_identifiers(connections).dom() =~= Set::<Seq<char>>::empty());
        AgentConnectionManager { connections }
    }

    /// Adds an agent under its identifier, unless an agent with that
    /// identifier is already connected, in which case nothing changes (the
    /// connected agent stays) and the identifier is returned in the error.
    pub fn add(&mut self, connection: AgentConnection) -> (r: Result<(), AddAgentConnectionError>)
        ensures
            old(self)@.dom().contains(connection.spec_identifier()) ==> (r matches Err(
                AddAgentConnectionError::AgentAlreadyExists(id),
            ) && id@ == connection.spec_identifier() && *final(self) == *old(self)),
            !old(self)@.dom().contains(connection.spec_identifier()) ==> (r is Ok && final(self)@
                == old(self)@.insert(connection.spec_identifier(), connection.spec_identifier())),
            r is Ok ==> final(self)@.dom().len() == old(self)@.dom().len() + 1,
            keyed_by_identifier(final(self)@),
    {
        proof {
            use_type_invariant(&*self);
        }
        let identifier = connection.identifier().to_owned();
        if connection_map_contains(&self.connections, identifier.as_str()) {
            return Err(AddAgentConnectionError::AgentAlreadyExists(identifier));
        }
        let ghost before = self@;
        let mut connections = connection_map_new();
        std::mem::swap(&mut connections, &mut self.connections);
        connection_map_insert(&mut connections, identifier, connection);
        proof {
            lemma_add_then_remove(before, connection.spec_identifier());
        }
        self.connections = connections;
        Ok(())
    }

    /// Removes the agent with the given identifier, or, where none is
    /// connected, changes nothing and returns the identifier in the error.
    pub fn remove(&mut self, identifier: &str) -> (r: Result<(), RemoveAgentConnectionError>)
        ensures
            !old(self)@.dom().contains(identifier@) ==> (r matches Err(
                RemoveAgentConnectionError::AgentNotFound(id),
            ) && id@ == identifier@ && *final(self) == *old(self)),
            old(self)@.dom().contains(identifier@) ==> (r is Ok && final(self)@ == old(
                self,
            )@.remove(identifier@)),
            r is Ok ==> final(self)@.dom().len() == old(self)@.dom().len() - 1,
            keyed_by_identifier(final(self)@),
    {
        proof {
            use_type_invariant(&*self);
        }
        if !connection_map_contains(&self.connections, identifier) {
            return Err(RemoveAgentConnectionError::AgentNotFound(identifier.to_owned()));
        }
        let ghost before = self@;
        let mut connections = connection_map_new();
        std::mem::swap(&mut connections, &mut self.connections);
        connection_map_remove(&mut connections, identifier);
        proof {
            lemma_remove_frees_identifier(before, identifier@);
        }
        self.connections = connections;
        Ok(())
    }

    /// The number of connected agents.
    pub fn count(&self) -> (n: usize)
        ensures
            n == self@.dom().len(),
            keyed_by_identifier(self@),
    {
        proof {
            use_type_invariant(self);
        }
        connection_map_len(&self.connections)
    }
}

/// Adding an agent that is not yet connected raises the count by one, and
/// removing it again gives back the agents there were before.
pub proof fn lemma_add_then_remove(agents: Map<Seq<char>, Seq<char>>, id: Seq<char>)
    requires
        keyed_by_identifier(agents),
        !agents.dom().contains(id),
    ensures
        agents.insert(id, id).dom().len() == agents.dom().len() + 1,
        agents.insert(id, id).remove(id) == agents,
        keyed_by_identifier(agents.insert(id, id)),
{
    assert(agents.insert(id, id).remove(id) =~= agents);
}

/// Removing a connected agent lowers the count by one, and the identifier
/// is free to be added again.
pub proof fn lemma_remove_frees_identifier(agents: Map<Seq<char>, Seq<char>>, id: Seq<char>)
    requires
        keyed_by_identifier(agents),
        agents.dom().contains(id),
    ensures
        agents.remove(id).dom().len() == agents.dom().len() - 1,
        !agents.remove(id).dom().contains(id),
        keyed_by_identifier(agents.remove(id)),
{
}

impl Default for AgentConnectionManager {
    fn default() -> (m: Self)
        ensures
            m@ == no_agents(),
            keyed_by_identifier(m@),
    {
        Self::new()
    }
}

} // verus!
