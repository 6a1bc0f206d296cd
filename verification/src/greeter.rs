//! The greeter: a stateless handler that answers each request with
//! `"Hello " + name + "!"`, together with the laws that make replies
//! unambiguous (the same name always gets the same message, and distinct
//! names never share one).

use vstd::prelude::*;

use crate::messages::HelloRequest;
use crate::messages::HelloReply;

verus! {

/// The greeting template: the message owed to `name` is the literal
/// concatenation `"Hello " + name + "!"`.
pub open spec fn greeting(name: Seq<char>) -> Seq<char> {
    "Hello "@ + name + "!"@
}

/// Builds the greeting message for `name`.
pub fn format_greeting(name: &str) -> (message: String)
    ensures
        message@ == greeting(name@),
{
    let mut message = String::from_str("Hello ");
    message.append(name);
    message.append("!");
    message
}

/// The greeter service. It holds no state: every reply is a function of the
/// request it answers, so concurrent calls need no coordination.
#[derive(Debug)]
pub struct MyGreeter {}

impl MyGreeter {
    /// The one remote method: answers `request.name` with the greeting
    /// message. Every request is accepted; no error is ever produced here.
    pub fn say_hello(&self, request: HelloRequest) -> (reply: HelloReply)
        ensures
            reply.message@ == greeting(request.name@),
    {
        HelloReply { message: format_greeting(request.name.as_str()) }
    }
}

impl Default for MyGreeter {
    /// A fresh greeter, ready to serve; the type has nothing to configure.
    fn default() -> (greeter: MyGreeter)
        ensures
            greeter == (MyGreeter {}),
    {
        MyGreeter {}
    }
}

/// Repeated identical calls return identical messages: any two replies that
/// meet the handler's contract for the same name carry the same message.
pub proof fn lemma_say_hello_idempotent(name: Seq<char>, first: Seq<char>, second: Seq<char>)
    requires
        first == greeting(name),
        second == greeting(name),
    ensures
        first == second,
{
}

/// The greeting determines the name: replies to distinct names are distinct,
/// so concurrent calls cannot be confused with one another.
pub proof fn lemma_greeting_injective(a: Seq<char>, b: Seq<char>)
    requires
        greeting(a) == greeting(b),
    ensures
        a == b,
{
    reveal_strlit("Hello ");
    reveal_strlit("!");
    assert(greeting(a).len() == 7 + a.len());
    assert(greeting(b).len() == 7 + b.len());
    assert(a.len() == b.len());
    assert forall|i: int| 0 <= i < a.len() implies a[i] == b[i] by {
        assert(greeting(a)[6 + i] == a[i]);
        assert(greeting(b)[6 + i] == b[i]);
    }
    assert(a =~= b);
}

} // verus!
