//! The messages that clients send: a handshake, then changes to variables.

use vstd::prelude::*;

verus! {

/// A variable's value, held as its compact JSON text.
#[derive(Debug)]
pub struct Value {
    pub text: String,
}

impl View for Value {
    type V = Seq<char>;

    open spec fn view(&self) -> Seq<char> {
        self.text@
    }
}

impl Clone for Value {
    fn clone(&self) -> (copy: Self)
        ensures
            copy == *self,
    {
        Value { text: self.text.clone() }
    }
}

/// One message of a client, tagged by its method.
#[derive(Debug)]
pub enum Operation {
    Handshake { project_id: String, user: String },
    SetVar { name: String, value: Value },
    Create { name: String, value: Value },
    Rename { name: String, new_name: String },
    Delete { name: String },
}

} // verus!
