//! The server's state and the steps that change it: clients join and leave,
//! and the methods they send change the variables of their room.

pub mod memory;

use std::collections::HashMap;
use vstd::prelude::*;
use vstd::std_specs::iter::IteratorSpec;
use crate::client::{Auth, ClientSignal};
use crate::config::{Config, Policy};
use crate::protocol::Value;
use crate::status::ErrorKind;
use crate::table::{keys_distinct, entries_map};
use crate::laws::{
    clients_have_rooms, stored_within_policy, law_join_keeps_policy, law_join_keeps_rooms_for_clients,
    law_leave_keeps_rooms_for_clients, law_signal_keeps_policy, law_signal_keeps_rooms_for_clients,
};
use memory::{Memory, Room};

verus! {

broadcast use vstd::std_specs::hash::group_hash_axioms;

/// The registered clients, by id: how to reach each, and who it is.
pub type RegistryMap<S> = HashMap<u64, (S, Auth)>;

/// A change to a variable that a client asks for.
#[derive(Debug)]
pub enum ServerMethod {
    SetVar { name: String, value: Value },
    Rename { name: String, new_name: String },
    Delete { name: String },
}

/// What reaches the server's loop.
#[derive(Debug)]
pub enum ServerSignal {
    Stop,
    Method(u64, ServerMethod),
    Close(u64),
}

/// What the server's loop does after one signal: stop, or go on after
/// handing each listed signal to the client with the listed id.
#[derive(Debug)]
pub enum Served {
    Stopped,
    Continue(Vec<(u64, ClientSignal)>),
}

/// Each project to the variables of its room, each variable to the JSON
/// text of its value.
pub type Rooms = Map<Seq<char>, Map<Seq<char>, Seq<char>>>;

/// The project of a registered client.
pub open spec fn client_project<S>(registry: Map<u64, (S, Auth)>, id: u64) -> Seq<char> {
    registry[id].1.project_id@
}

/// A method from `id` reaches a room when `id` is registered and the room of
/// its project exists.
pub open spec fn reaches_room<S>(registry: Map<u64, (S, Auth)>, rooms: Rooms, id: u64) -> bool {
    registry.contains_key(id) && rooms.contains_key(client_project(registry, id))
}

/// Whether a method is carried out in a room: its names and value must
/// respect the policy, and a renamed or deleted variable must exist.
pub open spec fn method_accepted(
    policy: Policy,
    room: Map<Seq<char>, Seq<char>>,
    method: ServerMethod,
) -> bool {
    match method {
        ServerMethod::SetVar { name, value } => policy.var_name_ok(name@) && policy.value_ok(value@),
        ServerMethod::Rename { name, new_name } => policy.var_name_ok(name@) && policy.var_name_ok(
            new_name@,
        ) && room.contains_key(name@),
        ServerMethod::Delete { name } => policy.var_name_ok(name@) && room.contains_key(name@),
    }
}

/// A room's variables after a method: changed as the method says when it is
/// accepted, unchanged when it is refused.
pub open spec fn room_after(
    policy: Policy,
    room: Map<Seq<char>, Seq<char>>,
    method: ServerMethod,
) -> Map<Seq<char>, Seq<char>> {
    if !method_accepted(policy, room, method) {
        room
    } else {
        match method {
            ServerMethod::SetVar { name, value } => room.insert(name@, value@),
            ServerMethod::Rename { name, new_name } => room.remove(name@).insert(
                new_name@,
                room[name@],
            ),
            ServerMethod::Delete { name } => room.remove(name@),
        }
    }
}

/// The rooms after a signal: only a method that reaches a room changes
/// anything, and only in that room.
pub open spec fn rooms_after<S>(
    policy: Policy,
    registry: Map<u64, (S, Auth)>,
    rooms: Rooms,
    signal: ServerSignal,
) -> Rooms {
    match signal {
        ServerSignal::Method(id, method) => {
            if reaches_room(registry, rooms, id) {
                let p = client_project(registry, id);
                rooms.insert(p, room_after(policy, rooms[p], method))
            } else {
                rooms
            }
        },
        _ => rooms,
    }
}

/// The registry after a signal: a closing client leaves it.
pub open spec fn registry_after<S>(registry: Map<u64, (S, Auth)>, signal: ServerSignal) -> Map<
    u64,
    (S, Auth),
> {
    match signal {
        ServerSignal::Close(id) => registry.remove(id),
        _ => registry,
    }
}

/// Every other registered client, each once, is told the new value.
pub open spec fn informs_peers<S>(
    out: Seq<(u64, ClientSignal)>,
    registry: Map<u64, (S, Auth)>,
    from: u64,
    name: String,
    value: Value,
) -> bool {
    &&& forall|i: int|
        0 <= i < out.len() ==> registry.contains_key(#[trigger] out[i].0) && out[i].0 != from
            && out[i].1 == (ClientSignal::InformSet { name, value })
    &&& forall|i: int, j: int|
        0 <= i < out.len() && 0 <= j < out.len() && i != j ==> out[i].0 != out[j].0
    &&& forall|k: u64|
        registry.contains_key(k) && k != from ==> exists|i: int|
            0 <= i < out.len() && #[trigger] out[i].0 == k
}

/// What the clients are told after a signal: the peers of a client whose
/// new value was stored learn it; a client whose method was refused is
/// closed; nobody else hears anything.
pub open spec fn deliveries<S>(
    policy: Policy,
    registry: Map<u64, (S, Auth)>,
    rooms: Rooms,
    signal: ServerSignal,
    out: Seq<(u64, ClientSignal)>,
) -> bool {
    match signal {
        ServerSignal::Method(id, method) => {
            if !reaches_room(registry, rooms, id) {
                out.len() == 0
            } else if !method_accepted(policy, rooms[client_project(registry, id)], method) {
                out == seq![(id, (ClientSignal::Close { kind: ErrorKind::Generic }))]
            } else {
                match method {
                    ServerMethod::SetVar { name, value } => informs_peers(
                        out,
                        registry,
                        id,
                        name,
                        value,
                    ),
                    _ => out.len() == 0,
                }
            }
        },
        _ => out.len() == 0,
    }
}

/// The rooms after a client of `project` joins: its room is made if missing.
pub open spec fn rooms_after_join(rooms: Rooms, project: Seq<char>) -> Rooms {
    if rooms.contains_key(project) {
        rooms
    } else {
        rooms.insert(project, Map::empty())
    }
}

/// The server's shared state: the registered clients, the rooms, and the
/// settings. `S` is how the server reaches a client.
#[derive(Debug)]
pub struct ServerHandle<S> {
    pub registry: RegistryMap<S>,
    memory: Memory,
    config: Config,
}

impl<S> ServerHandle<S> {
    /// The registered clients, by id.
    pub closed spec fn clients(&self) -> Map<u64, (S, Auth)> {
        self.registry@
    }

    /// The rooms and their variables.
    pub closed spec fn rooms(&self) -> Rooms {
        self.memory@
    }

    /// The policy of the settings.
    pub closed spec fn policy(&self) -> Policy {
        self.config.policy
    }

    /// What every state of the server keeps: the stored variables respect
    /// the policy, and each registered client's project has a room.
    pub open spec fn well_kept(&self) -> bool {
        &&& stored_within_policy(self.policy(), self.rooms())
        &&& clients_have_rooms(self.clients(), self.rooms())
    }

    /// A server without clients or rooms.
    pub fn new(config: Config) -> (handle: Self)
        ensures
            handle.well_kept(),
            handle.clients() == Map::<u64, (S, Auth)>::empty(),
            handle.rooms() == Map::<Seq<char>, Map<Seq<char>, Seq<char>>>::empty(),
            handle.policy() == config.policy,
    {
        ServerHandle { registry: HashMap::new(), memory: Memory::new(), config }
    }

    fn check_username(&self, name: &str) -> (ok: bool)
        ensures
            ok == self.policy().username_ok(name@),
    {
        self.config.policy.check_username(name)
    }

    fn check_var_name(&self, name: &str) -> (ok: bool)
        ensures
            ok == self.policy().var_name_ok(name@),
    {
        self.config.policy.check_var_name(name)
    }

    fn check_value(&self, value: &Value) -> (ok: bool)
        ensures
            ok == self.policy().value_ok(value@),
    {
        self.config.policy.check_value(value.text.as_str())
    }

    /// Registers the client `id` reached by `tx`, when its user name is
    /// within the policy's bounds, and gives back the id with the variables
    /// of the client's room, which is made if it did not exist.
    pub fn register(&mut self, tx: S, auth: Auth, id: u64) -> (joined: Option<(u64, Vec<(String, Value)>)>)
        ensures
            (joined is Some) == old(self).policy().username_ok(auth.user@),
            final(self).policy() == old(self).policy(),
            old(self).well_kept() ==> final(self).well_kept(),
            match joined {
                None => final(self).clients() == old(self).clients() && final(self).rooms() == old(
                    self,
                ).rooms(),
                Some((joined_id, vars)) => {
                    &&& joined_id == id
                    &&& final(self).clients() == old(self).clients().insert(id, (tx, auth))
                    &&& final(self).rooms() == rooms_after_join(old(self).rooms(), auth.project_id@)
                    &&& keys_distinct(vars@)
                    &&& entries_map(vars@) == final(self).rooms()[auth.project_id@]
                },
            },
    {
        proof {
            if old(self).well_kept() {
                law_join_keeps_policy(old(self).policy(), old(self).rooms(), auth.project_id@);
                law_join_keeps_rooms_for_clients(old(self).clients(), old(self).rooms(), id, tx, auth);
            }
        }
        if self.check_username(auth.user.as_str()) {
            let project = auth.project_id.clone();
            self.registry.insert(id, (tx, auth));
            let inform = match self.memory.rooms.get(&project) {
                Some(room) => room.snapshot(),
                None => {
                    self.memory.rooms.insert(project, Room::new());
                    let empty: Vec<(String, Value)> = Vec::new();
                    proof {
                        assert(entries_map(empty@) =~= Map::<Seq<char>, Seq<char>>::empty());
                    }
                    empty
                },
            };
            Some((id, inform))
        } else {
            None
        }
    }

    /// Takes the client `id` out of the registry.
    pub fn unregister(&mut self, id: u64)
        ensures
            final(self).clients() == old(self).clients().remove(id),
            final(self).rooms() == old(self).rooms(),
            final(self).policy() == old(self).policy(),
            old(self).well_kept() ==> final(self).well_kept(),
    {
        proof {
            if old(self).well_kept() {
                law_leave_keeps_rooms_for_clients(old(self).clients(), old(self).rooms(), id);
            }
        }
        self.registry.remove(&id);
    }

    /// One turn of the server's loop: carries out `signal` and says what
    /// the clients are to be told.
    pub fn serve_signal(&mut self, signal: ServerSignal) -> (served: Served)
        ensures
            (served is Stopped) == (signal is Stop),
            final(self).clients() == registry_after(old(self).clients(), signal),
            final(self).rooms() == rooms_after(
                old(self).policy(),
                old(self).clients(),
                old(self).rooms(),
                signal,
            ),
            final(self).policy() == old(self).policy(),
            old(self).well_kept() ==> final(self).well_kept(),
            served matches Served::Continue(out) ==> deliveries(
                old(self).policy(),
                old(self).clients(),
                old(self).rooms(),
                signal,
                out@,
            ),
    {
        proof {
            if old(self).well_kept() {
                law_signal_keeps_policy(old(self).policy(), old(self).clients(), old(self).rooms(), signal);
                law_signal_keeps_rooms_for_clients(old(self).policy(), old(self).clients(), old(self).rooms(), signal);
            }
        }
        match signal {
            ServerSignal::Stop => Served::Stopped,
            ServerSignal::Close(id) => {
                self.unregister(id);
                Served::Continue(Vec::new())
            },
            ServerSignal::Method(id, method) => Served::Continue(self.apply_method(id, method)),
        }
    }

    fn apply_method(&mut self, id: u64, method: ServerMethod) -> (out: Vec<(u64, ClientSignal)>)
        ensures
            final(self).clients() == old(self).clients(),
            final(self).rooms() == rooms_after(
                old(self).policy(),
                old(self).clients(),
                old(self).rooms(),
                ServerSignal::Method(id, method),
            ),
            final(self).policy() == old(self).policy(),
            deliveries(
                old(self).policy(),
                old(self).clients(),
                old(self).rooms(),
                ServerSignal::Method(id, method),
                out@,
            ),
    {
        let project = match self.registry.get(&id) {
            Some(entry) => entry.1.project_id.clone(),
            None => {
                return Vec::new();
            },
        };
        let mut room = match self.memory.rooms.remove(&project) {
            Some(room) => room,
            None => {
                proof {
                    assert(self.memory@ =~= old(self).memory@);
                }
                return Vec::new();
            },
        };
        let ghost vars = room@;
        let out = match method {
            ServerMethod::SetVar { name, value } => {
                if self.check_var_name(name.as_str()) && self.check_value(&value) {
                    room.variables.insert(name.clone(), value.clone());
                    let peers = peer_ids(&self.registry, id);
                    let mut out: Vec<(u64, ClientSignal)> = Vec::new();
                    let mut i: usize = 0;
                    while i < peers.len()
                        invariant
                            i <= peers@.len(),
                            out@.len() == i,
                            forall|j: int|
                                0 <= j < i ==> (#[trigger] out@[j]).0 == peers@[j] && out@[j].1
                                    == (ClientSignal::InformSet { name, value }),
                        decreases peers@.len() - i,
                    {
                        out.push(
                            (peers[i], ClientSignal::InformSet { name: name.clone(), value: value.clone() }),
                        );
                        i = i + 1;
                    }
                    proof {
                        assert forall|k: u64| self.registry@.contains_key(k) && k != id implies exists|j: int|
                            0 <= j < out@.len() && #[trigger] out@[j].0 == k by {
                            assert(peers@.contains(k));
                            let j = choose|j: int| 0 <= j < peers@.len() && peers@[j] == k;
                            assert(out@[j].0 == k);
                        }
                        assert forall|a: int, b: int|
                            0 <= a < out@.len() && 0 <= b < out@.len() && a != b implies out@[a].0
                            != out@[b].0 by {
                            assert(out@[a].0 == peers@[a]);
                            assert(out@[b].0 == peers@[b]);
                        }
                        assert forall|a: int| 0 <= a < out@.len() implies self.registry@.contains_key(
                            #[trigger] out@[a].0,
                        ) && out@[a].0 != id by {
                            assert(out@[a].0 == peers@[a]);
                        }
                    }
                    out
                } else {
                    close_generic(id)
                }
            },
            ServerMethod::Rename { name, new_name } => {
                if self.check_var_name(name.as_str()) && self.check_var_name(new_name.as_str()) {
                    match room.variables.remove(&name) {
                        Some(value) => {
                            room.variables.insert(new_name, value);
                            Vec::new()
                        },
                        None => {
                            proof {
                                assert(room@ =~= vars);
                            }
                            close_generic(id)
                        },
                    }
                } else {
                    close_generic(id)
                }
            },
            ServerMethod::Delete { name } => {
                if self.check_var_name(name.as_str()) {
                    match room.variables.remove(&name) {
                        Some(_) => Vec::new(),
                        None => {
                            proof {
                                assert(room@ =~= vars);
                            }
                            close_generic(id)
                        },
                    }
                } else {
                    close_generic(id)
                }
            },
        };
        self.memory.rooms.insert(project, room);
        proof {
            assert(self.memory@ =~= old(self).memory@.insert(project@, room@));
        }
        out
    }
}

/// The signal that closes client `id` for breaking the protocol.
fn close_generic(id: u64) -> (out: Vec<(u64, ClientSignal)>)
    ensures
        out@ == seq![(id, (ClientSignal::Close { kind: ErrorKind::Generic }))],
{
    let mut out: Vec<(u64, ClientSignal)> = Vec::new();
    out.push((id, ClientSignal::Close { kind: ErrorKind::Generic }));
    proof {
        assert(out@ =~= seq![(id, (ClientSignal::Close { kind: ErrorKind::Generic }))]);
    }
    out
}

/// The ids of all registered clients but `id`, each once.
fn peer_ids<S>(registry: &HashMap<u64, (S, Auth)>, id: u64) -> (out: Vec<u64>)
    ensures
        forall|i: int| 0 <= i < out@.len() ==> registry@.contains_key(out@[i]) && out@[i] != id,
        forall|i: int, j: int| 0 <= i < out@.len() && 0 <= j < out@.len() && i != j ==> out@[i] != out@[j],
        forall|k: u64| registry@.contains_key(k) && k != id ==> out@.contains(k),
{
    let mut out: Vec<u64> = Vec::new();
    let ghost mut pos: Seq<int> = Seq::empty();
    for k in it: registry.keys()
        invariant
            it.seq() == registry.keys().remaining(),
            pos.len() == out@.len(),
            forall|i: int| 0 <= i < out@.len() ==> registry@.contains_key(out@[i]) && out@[i] != id,
            forall|i: int| 0 <= i < out@.len() ==> 0 <= #[trigger] pos[i] < it.index() && out@[i] == *it.seq()[pos[i]],
            forall|j: int| 0 <= j < it.index() && *it.seq()[j] != id ==> #[trigger] out@.contains(*it.seq()[j]),
            forall|i: int, j: int| 0 <= i < out@.len() && 0 <= j < out@.len() && i != j ==> out@[i] != out@[j],
    {
        let ghost before = out@;
        let ghost before_pos = pos;
        let ghost n = it.index();
        proof {
            assert(it.seq().no_duplicates());
            assert(*k == *it.seq()[n]);
        }
        if *k != id {
            out.push(*k);
            proof {
                pos = pos.push(n);
                assert forall|i: int| 0 <= i < before.len() implies before[i] != *k by {
                    assert(before[i] == *it.seq()[before_pos[i]]);
                    assert(before_pos[i] != n);
                }
            }
        }
        proof {
            assert forall|j: int| 0 <= j < n + 1 && *it.seq()[j] != id
                implies #[trigger] out@.contains(*it.seq()[j]) by {
                if j < n {
                    assert(before.contains(*it.seq()[j]));
                    let w = choose|w: int| 0 <= w < before.len() && before[w] == *it.seq()[j];
                    assert(out@[w] == *it.seq()[j]);
                } else {
                    assert(out@[out@.len() - 1] == *it.seq()[j]);
                }
            }
        }
    }
    out
}

} // verus!
