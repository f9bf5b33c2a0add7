//! The fixed table of wire methods that a caller may invoke by name.

use vstd::prelude::*;
use vstd::string::StringExecFns;

verus! {

/// One of the operations that can be invoked across the dispatch boundary.
#[derive(Clone, Copy, Debug, PartialEq, Eq, Structural)]
pub enum Method {
    /// Send a message and wait for exactly one reply.
    Request,
    /// Send a message and collect replies up to a bound.
    RequestMulti,
    /// Hand a message to the broker without waiting for a consumer.
    Publish,
}

/// The method that answers to `name` on the wire, if there is one.
pub open spec fn method_named(name: Seq<char>) -> Option<Method> {
    if name == Method::Request.wire_name() {
        Some(Method::Request)
    } else if name == Method::RequestMulti.wire_name() {
        Some(Method::RequestMulti)
    } else if name == Method::Publish.wire_name() {
        Some(Method::Publish)
    } else {
        None
    }
}

/// The methods in the order in which the table lists them.
pub open spec fn method_table() -> Seq<Method> {
    seq![Method::Request, Method::RequestMulti, Method::Publish]
}

impl Method {
    /// The name under which the method travels on the wire.
    pub open spec fn wire_name(self) -> Seq<char> {
        match self {
            Method::Request => "Message.Request"@,
            Method::RequestMulti => "Message.RequestMulti"@,
            Method::Publish => "Message.Publish"@,
        }
    }

    /// The name under which the method travels on the wire.
    pub fn name(self) -> (name: &'static str)
        ensures
            name@ == self.wire_name(),
    {
        match self {
            Method::Request => "Message.Request",
            Method::RequestMulti => "Message.RequestMulti",
            Method::Publish => "Message.Publish",
        }
    }

    /// Every supported method, once each, in table order.
    pub fn all() -> (table: Vec<Method>)
        ensures
            table@ == method_table(),
    {
        let mut table: Vec<Method> = Vec::new();
        table.push(Method::Request);
        table.push(Method::RequestMulti);
        table.push(Method::Publish);
        assert(table@ =~= method_table());
        table
    }

    /// Looks `name` up in the table. The answer is `Some` exactly for the
    /// three wire names, and then it is the method that carries that name.
    pub fn from_name(name: &str) -> (found: Option<Method>)
        ensures
            found == method_named(name@),
            found matches Some(method) ==> method.wire_name() == name@,
            found is None ==> forall|method: Method| method.wire_name() != name@,
    {
        let wanted = String::from_str(name);
        let table = Method::all();
        let mut i: usize = 0;
        while i < table.len()
            invariant
                i <= table.len(),
                table@ == method_table(),
                wanted@ == name@,
                forall|k: int| 0 <= k < i ==> (#[trigger] table@[k]).wire_name() != name@,
            decreases table.len() - i,
        {
            let candidate = table[i];
            let candidate_name = String::from_str(candidate.name());
            if wanted == candidate_name {
                proof {
                    lemma_wire_names_differ();
                }
                return Some(candidate);
            }
            i = i + 1;
        }
        proof {
            assert(table@[0] == Method::Request);
            assert(table@[1] == Method::RequestMulti);
            assert(table@[2] == Method::Publish);
            assert forall|method: Method| method.wire_name() != name@ by {
                match method {
                    Method::Request => assert(table@[0].wire_name() != name@),
                    Method::RequestMulti => assert(table@[1].wire_name() != name@),
                    Method::Publish => assert(table@[2].wire_name() != name@),
                }
            }
        }
        None
    }
}

/// No two methods share a wire name.
pub proof fn lemma_wire_names_differ()
    ensures
        forall|a: Method, b: Method| a.wire_name() == b.wire_name() ==> a == b,
{
    reveal_strlit("Message.Request");
    reveal_strlit("Message.RequestMulti");
    reveal_strlit("Message.Publish");
    assert("Message.Request"@.len() == 15);
    assert("Message.RequestMulti"@.len() == 20);
    assert("Message.Publish"@.len() == 15);
    assert("Message.Request"@[8] == 'R');
    assert("Message.Publish"@[8] == 'P');
}

/// Looking a method's own wire name up in the table gives that method back.
pub proof fn lemma_table_round_trip(method: Method)
    ensures
        method_named(method.wire_name()) == Some(method),
{
    lemma_wire_names_differ();
}

} // verus!
