//! What holds of the server over any sequence of steps: the policy is kept,
//! rooms are never lost, a stored value is what later joiners are told, and
//! a client that has left is no longer heard.

use vstd::prelude::*;
use crate::client::{Auth, ClientSignal};
use crate::config::Policy;
use crate::protocol::Value;
use crate::server::{
    Rooms, ServerMethod, ServerSignal, client_project, deliveries, method_accepted,
    reaches_room, registry_after, room_after, rooms_after, rooms_after_join,
};

verus! {

/// Every stored variable has a name and a value that the policy accepts.
pub open spec fn stored_within_policy(policy: Policy, rooms: Rooms) -> bool {
    forall|p: Seq<char>, n: Seq<char>|
        #[trigger] rooms.contains_key(p) && #[trigger] rooms[p].contains_key(n) ==> policy.var_name_ok(n)
            && policy.value_ok(rooms[p][n])
}

/// Every registered client's project has a room.
pub open spec fn clients_have_rooms<S>(registry: Map<u64, (S, Auth)>, rooms: Rooms) -> bool {
    forall|id: u64| #[trigger]
        registry.contains_key(id) ==> rooms.contains_key(client_project(registry, id))
}

/// A method changes at most the room it reaches.
proof fn lemma_room_after_within_policy(policy: Policy, room: Map<Seq<char>, Seq<char>>, method: ServerMethod)
    requires
        forall|n: Seq<char>| #[trigger] room.contains_key(n) ==> policy.var_name_ok(n) && policy.value_ok(room[n]),
    ensures
        forall|n: Seq<char>| #[trigger] room_after(policy, room, method).contains_key(n) ==> policy.var_name_ok(n)
            && policy.value_ok(room_after(policy, room, method)[n]),
{
}

/// No signal makes the server store a name or a value that the policy
/// refuses.
pub proof fn law_signal_keeps_policy<S>(
    policy: Policy,
    registry: Map<u64, (S, Auth)>,
    rooms: Rooms,
    signal: ServerSignal,
)
    requires
        stored_within_policy(policy, rooms),
    ensures
        stored_within_policy(policy, rooms_after(policy, registry, rooms, signal)),
{
    if let ServerSignal::Method(id, method) = signal {
        if reaches_room(registry, rooms, id) {
            let p = client_project(registry, id);
            assert forall|n: Seq<char>| #[trigger] rooms[p].contains_key(n) implies policy.var_name_ok(n)
                && policy.value_ok(rooms[p][n]) by {
                assert(rooms.contains_key(p));
            }
            lemma_room_after_within_policy(policy, rooms[p], method);
        }
    }
}

/// A client joining adds at most an empty room, so the stored variables
/// still respect the policy.
pub proof fn law_join_keeps_policy(policy: Policy, rooms: Rooms, project: Seq<char>)
    requires
        stored_within_policy(policy, rooms),
    ensures
        stored_within_policy(policy, rooms_after_join(rooms, project)),
{
}

/// Every signal keeps a room for the project of each registered client.
pub proof fn law_signal_keeps_rooms_for_clients<S>(
    policy: Policy,
    registry: Map<u64, (S, Auth)>,
    rooms: Rooms,
    signal: ServerSignal,
)
    requires
        clients_have_rooms(registry, rooms),
    ensures
        clients_have_rooms(
            registry_after(registry, signal),
            rooms_after(policy, registry, rooms, signal),
        ),
{
    let after = registry_after(registry, signal);
    assert forall|id: u64| #[trigger] after.contains_key(id) implies rooms_after(
        policy,
        registry,
        rooms,
        signal,
    ).contains_key(client_project(after, id)) by {
        assert(registry.contains_key(id));
        assert(client_project(after, id) == client_project(registry, id));
    }
}

/// A joining client finds a room for its project, and the others keep
/// theirs.
pub proof fn law_join_keeps_rooms_for_clients<S>(
    registry: Map<u64, (S, Auth)>,
    rooms: Rooms,
    id: u64,
    tx: S,
    auth: Auth,
)
    requires
        clients_have_rooms(registry, rooms),
    ensures
        clients_have_rooms(
            registry.insert(id, (tx, auth)),
            rooms_after_join(rooms, auth.project_id@),
        ),
{
    let after = registry.insert(id, (tx, auth));
    assert forall|k: u64| #[trigger] after.contains_key(k) implies rooms_after_join(
        rooms,
        auth.project_id@,
    ).contains_key(client_project(after, k)) by {
        if k != id {
            assert(registry.contains_key(k));
            assert(client_project(after, k) == client_project(registry, k));
        }
    }
}

/// A client leaving keeps the rooms of the others.
pub proof fn law_leave_keeps_rooms_for_clients<S>(registry: Map<u64, (S, Auth)>, rooms: Rooms, id: u64)
    requires
        clients_have_rooms(registry, rooms),
    ensures
        clients_have_rooms(registry.remove(id), rooms),
{
    let after = registry.remove(id);
    assert forall|k: u64| #[trigger] after.contains_key(k) implies rooms.contains_key(
        client_project(after, k),
    ) by {
        assert(registry.contains_key(k));
        assert(client_project(after, k) == client_project(registry, k));
    }
}

/// No room is ever lost, whatever the signal or the joining client.
pub proof fn law_rooms_are_kept<S>(
    policy: Policy,
    registry: Map<u64, (S, Auth)>,
    rooms: Rooms,
    signal: ServerSignal,
    project: Seq<char>,
)
    ensures
        rooms.dom().subset_of(rooms_after(policy, registry, rooms, signal).dom()),
        rooms.dom().subset_of(rooms_after_join(rooms, project).dom()),
{
}

/// A method changes no room but that of the client who sent it.
pub proof fn law_other_rooms_untouched<S>(
    policy: Policy,
    registry: Map<u64, (S, Auth)>,
    rooms: Rooms,
    id: u64,
    method: ServerMethod,
    other: Seq<char>,
)
    requires
        registry.contains_key(id) ==> other != client_project(registry, id),
        rooms.contains_key(other),
    ensures
        rooms_after(policy, registry, rooms, ServerSignal::Method(id, method)).contains_key(other),
        rooms_after(policy, registry, rooms, ServerSignal::Method(id, method))[other] == rooms[other],
{
}

/// After an accepted set, a client who joins the same project finds the
/// variable with the value that was set.
pub proof fn law_set_is_read_on_join<S>(
    policy: Policy,
    registry: Map<u64, (S, Auth)>,
    rooms: Rooms,
    id: u64,
    name: String,
    value: Value,
)
    requires
        reaches_room(registry, rooms, id),
        method_accepted(
            policy,
            rooms[client_project(registry, id)],
            ServerMethod::SetVar { name, value },
        ),
    ensures
        ({
            let p = client_project(registry, id);
            let after = rooms_after_join(
                rooms_after(policy, registry, rooms, ServerSignal::Method(id, ServerMethod::SetVar { name, value })),
                p,
            );
            after[p].contains_key(name@) && after[p][name@] == value@
        }),
{
}

/// Setting a variable twice to the same value is the same as setting it
/// once.
pub proof fn law_set_is_idempotent(
    policy: Policy,
    room: Map<Seq<char>, Seq<char>>,
    name: String,
    value: Value,
)
    ensures
        room_after(
            policy,
            room_after(policy, room, ServerMethod::SetVar { name, value }),
            ServerMethod::SetVar { name, value },
        ) == room_after(policy, room, ServerMethod::SetVar { name, value }),
{
    let once = room_after(policy, room, ServerMethod::SetVar { name, value });
    let twice = room_after(policy, once, ServerMethod::SetVar { name, value });
    assert(twice =~= once);
}

/// An accepted rename moves the value to the new name, and the old name is
/// gone unless it is the new one.
pub proof fn law_rename_moves_value(
    policy: Policy,
    room: Map<Seq<char>, Seq<char>>,
    name: String,
    new_name: String,
)
    requires
        method_accepted(policy, room, ServerMethod::Rename { name, new_name }),
    ensures
        ({
            let after = room_after(policy, room, ServerMethod::Rename { name, new_name });
            &&& after.contains_key(new_name@)
            &&& after[new_name@] == room[name@]
            &&& name@ != new_name@ ==> !after.contains_key(name@)
            &&& forall|n: Seq<char>|
                n != name@ && n != new_name@ ==> after.contains_key(n) == room.contains_key(n)
                    && after[n] == room[n]
        }),
{
}

/// Once a variable is deleted, deleting it again is refused.
pub proof fn law_delete_is_final(policy: Policy, room: Map<Seq<char>, Seq<char>>, name: String)
    requires
        method_accepted(policy, room, ServerMethod::Delete { name }),
    ensures
        !room_after(policy, room, ServerMethod::Delete { name }).contains_key(name@),
        !method_accepted(
            policy,
            room_after(policy, room, ServerMethod::Delete { name }),
            ServerMethod::Delete { name },
        ),
{
}

/// A refused method changes nothing.
pub proof fn law_refused_method_changes_nothing(
    policy: Policy,
    room: Map<Seq<char>, Seq<char>>,
    method: ServerMethod,
)
    requires
        !method_accepted(policy, room, method),
    ensures
        room_after(policy, room, method) == room,
{
}

/// Once client `id` has closed, its methods change nothing and nobody is
/// told anything about them.
pub proof fn law_closed_client_is_ignored<S>(
    policy: Policy,
    registry: Map<u64, (S, Auth)>,
    rooms: Rooms,
    id: u64,
    method: ServerMethod,
    out: Seq<(u64, crate::client::ClientSignal)>,
)
    ensures
        ({
            let after = registry_after(registry, ServerSignal::Close(id));
            &&& rooms_after(policy, after, rooms, ServerSignal::Method(id, method)) == rooms
            &&& deliveries(policy, after, rooms, ServerSignal::Method(id, method), out) == (out.len() == 0)
        }),
{
}

/// A set whose name and value the policy accepts is carried out whatever the
/// room holds, even the same value again: the room then maps the name to
/// the value, no other room changes, and the sender is not closed; only the
/// other registered clients are told, and each is told the new value.
pub proof fn law_set_in_policy_is_stored<S>(
    policy: Policy,
    registry: Map<u64, (S, Auth)>,
    rooms: Rooms,
    id: u64,
    name: String,
    value: Value,
    out: Seq<(u64, ClientSignal)>,
)
    requires
        registry.contains_key(id),
        rooms.contains_key(registry[id].1.project_id@),
        policy.var_name_ok(name@),
        policy.value_ok(value@),
    ensures
        forall|room: Map<Seq<char>, Seq<char>>|
            #[trigger] method_accepted(policy, room, ServerMethod::SetVar { name, value }),
        ({
            let p = registry[id].1.project_id@;
            rooms_after(policy, registry, rooms, ServerSignal::Method(id, ServerMethod::SetVar { name, value }))
                == rooms.insert(p, rooms[p].insert(name@, value@))
        }),
        deliveries(policy, registry, rooms, ServerSignal::Method(id, ServerMethod::SetVar { name, value }), out)
            ==> forall|i: int| 0 <= i < out.len() ==> out[i].0 != id && registry.contains_key(out[i].0)
                && #[trigger] out[i].1 == (ClientSignal::InformSet { name, value }),
{
}

/// A closing client only leaves the registry: every room keeps all its
/// variables, and nobody is told anything.
pub proof fn law_close_keeps_rooms<S>(
    policy: Policy,
    registry: Map<u64, (S, Auth)>,
    rooms: Rooms,
    id: u64,
    out: Seq<(u64, ClientSignal)>,
)
    ensures
        rooms_after(policy, registry, rooms, ServerSignal::Close(id)) == rooms,
        registry_after(registry, ServerSignal::Close(id)) == registry.remove(id),
        deliveries(policy, registry, rooms, ServerSignal::Close(id), out) == (out.len() == 0),
{
}

/// Deleting a variable that exists, with a name the policy accepts, takes
/// just that variable out of the sender's room and tells nobody anything,
/// whether or not other variables are left.
pub proof fn law_delete_of_existing_is_silent<S>(
    policy: Policy,
    registry: Map<u64, (S, Auth)>,
    rooms: Rooms,
    id: u64,
    name: String,
    out: Seq<(u64, ClientSignal)>,
)
    requires
        registry.contains_key(id),
        rooms.contains_key(registry[id].1.project_id@),
        policy.var_name_ok(name@),
        rooms[registry[id].1.project_id@].contains_key(name@),
    ensures
        ({
            let p = registry[id].1.project_id@;
            rooms_after(policy, registry, rooms, ServerSignal::Method(id, ServerMethod::Delete { name }))
                == rooms.insert(p, rooms[p].remove(name@))
        }),
        deliveries(policy, registry, rooms, ServerSignal::Method(id, ServerMethod::Delete { name }), out)
            == (out.len() == 0),
{
}

/// Renaming a variable that exists, with both names accepted by the policy,
/// moves its value to the new name, whatever else the room holds, and tells
/// nobody anything.
pub proof fn law_rename_of_existing_is_carried_out<S>(
    policy: Policy,
    registry: Map<u64, (S, Auth)>,
    rooms: Rooms,
    id: u64,
    name: String,
    new_name: String,
    out: Seq<(u64, ClientSignal)>,
)
    requires
        registry.contains_key(id),
        rooms.contains_key(registry[id].1.project_id@),
        policy.var_name_ok(name@),
        policy.var_name_ok(new_name@),
        rooms[registry[id].1.project_id@].contains_key(name@),
    ensures
        ({
            let p = registry[id].1.project_id@;
            rooms_after(policy, registry, rooms, ServerSignal::Method(id, ServerMethod::Rename { name, new_name }))
                == rooms.insert(p, rooms[p].remove(name@).insert(new_name@, rooms[p][name@]))
        }),
        deliveries(policy, registry, rooms, ServerSignal::Method(id, ServerMethod::Rename { name, new_name }), out)
            == (out.len() == 0),
{
}

/// A joining client changes no room that already exists; joining a new
/// project adds just an empty room for it, and joining an existing one
/// changes nothing.
pub proof fn law_join_touches_no_other_room(rooms: Rooms, project: Seq<char>)
    ensures
        forall|other: Seq<char>|
            #[trigger] rooms.contains_key(other) ==> rooms_after_join(rooms, project).contains_key(other)
                && rooms_after_join(rooms, project)[other] == rooms[other],
        !rooms.contains_key(project) ==> rooms_after_join(rooms, project) == rooms.insert(
            project,
            Map::<Seq<char>, Seq<char>>::empty(),
        ),
        rooms.contains_key(project) ==> rooms_after_join(rooms, project) == rooms,
{
}

} // verus!
