//! What the server keeps: for each project a room, and in each room the
//! project's variables.

use vstd::prelude::*;
use crate::protocol::Value;
use crate::table::{Table, keys_distinct, entries_map};

verus! {

/// The variables of one project, by name.
#[derive(Debug)]
pub struct Room {
    pub variables: Table<Value>,
}

impl View for Room {
    /// Each variable's name to the JSON text of its value.
    type V = Map<Seq<char>, Seq<char>>;

    open spec fn view(&self) -> Self::V {
        self.variables@
    }
}

impl Room {
    /// A room without variables.
    pub fn new() -> (room: Self)
        ensures
            room@ == Map::<Seq<char>, Seq<char>>::empty(),
    {
        let variables = Table::new();
        Room { variables }
    }

    /// Copies of all variables with their values.
    pub fn snapshot(&self) -> (copy: Vec<(String, Value)>)
        ensures
            keys_distinct(copy@),
            entries_map(copy@) == self@,
    {
        let pairs = self.variables.pairs();
        let mut copy: Vec<(String, Value)> = Vec::new();
        let mut i: usize = 0;
        while i < pairs.len()
            invariant
                i <= pairs@.len(),
                copy@ == pairs@.take(i as int),
            decreases pairs@.len() - i,
        {
            let entry = (pairs[i].0.clone(), pairs[i].1.clone());
            copy.push(entry);
            i = i + 1;
            proof {
                assert(copy@ =~= pairs@.take(i as int));
            }
        }
        proof {
            assert(copy@ =~= pairs@);
        }
        copy
    }
}

/// All rooms, by project.
#[derive(Debug)]
pub struct Memory {
    pub rooms: Table<Room>,
}

impl View for Memory {
    /// Each project to the variables of its room.
    type V = Map<Seq<char>, Map<Seq<char>, Seq<char>>>;

    open spec fn view(&self) -> Self::V {
        self.rooms@
    }
}

impl Memory {
    /// A memory without rooms.
    pub fn new() -> (memory: Self)
        ensures
            memory@ == Map::<Seq<char>, Map<Seq<char>, Seq<char>>>::empty(),
    {
        let rooms = Table::new();
        Memory { rooms }
    }
}

} // verus!
