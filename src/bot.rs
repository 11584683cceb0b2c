//! The decisions of the chat bot: which button was pressed, what to answer,
//! and which of its old messages to keep.
use vstd::prelude::*;

use crate::authorizations::Authorization;
use crate::text::same_text;

verus! {

/// A button of the bot's messages.
#[derive(Debug, Clone, Copy, PartialEq, Eq, Structural)]
pub enum ComponentAction {
    /// The button under the greeting that opens the registration form.
    Register,
    /// The button that lets a login attempt through.
    Allow,
    /// The button that refuses a login attempt.
    Deny,
}

/// The button that carries the identifier `id`, if any.
pub open spec fn component_named(id: Seq<char>) -> Option<ComponentAction> {
    if id == "register"@ {
        Some(ComponentAction::Register)
    } else if id == "authorization/allow"@ {
        Some(ComponentAction::Allow)
    } else if id == "authorization/deny"@ {
        Some(ComponentAction::Deny)
    } else {
        None
    }
}

/// The button that a pressed component's identifier stands for; `None` for
/// an identifier the bot never sent.
pub fn component_action(custom_id: &str) -> (r: Option<ComponentAction>)
    ensures
        r == component_named(custom_id@),
{
    if same_text(custom_id, "register") {
        Some(ComponentAction::Register)
    } else if same_text(custom_id, "authorization/allow") {
        Some(ComponentAction::Allow)
    } else if same_text(custom_id, "authorization/deny") {
        Some(ComponentAction::Deny)
    } else {
        None
    }
}

/// The answer to an owner who pressed a decision button.
pub open spec fn reply_text(authorization: Authorization, delivered: bool) -> Seq<char> {
    match (authorization, delivered) {
        (Authorization::Allow, true) => "Authorization allowed! ✅"@,
        (Authorization::Allow, false) => "Error: Authorization expired or already allowed!"@,
        (Authorization::Deny, true) => "Authorization denied! ❌"@,
        (Authorization::Deny, false) => "Error: Authorization expired or already denied!"@,
    }
}

/// The answer to an owner who pressed a decision button, from the decision
/// and from whether it settled a pending request.
pub fn decision_reply(authorization: Authorization, delivered: bool) -> (r: &'static str)
    ensures
        r@ == reply_text(authorization, delivered),
{
    match (authorization, delivered) {
        (Authorization::Allow, true) => "Authorization allowed! ✅",
        (Authorization::Allow, false) => "Error: Authorization expired or already allowed!",
        (Authorization::Deny, true) => "Authorization denied! ❌",
        (Authorization::Deny, false) => "Error: Authorization expired or already denied!",
    }
}

/// The positions, in increasing order, of the messages written by `me`.
pub open spec fn own_positions(authors: Seq<u64>, me: u64) -> Seq<int>
    decreases authors.len(),
{
    if authors.len() == 0 {
        Seq::empty()
    } else if authors.last() == me {
        own_positions(authors.drop_last(), me).push(authors.len() - 1)
    } else {
        own_positions(authors.drop_last(), me)
    }
}

/// What to do with the messages of the greeting channel when the bot starts.
pub struct GreetingPlan {
    /// Positions of the bot's older messages, to be deleted.
    pub delete: Vec<usize>,
    /// Position of the bot's latest message, to be edited into the
    /// greeting; `None` when the bot has none and must send a new one.
    pub edit: Option<usize>,
}

/// Keeps the bot's latest message in the channel and marks its other
/// messages for deletion, given the author of each message in order.
pub fn greeting_plan(authors: &Vec<u64>, me: u64) -> (r: GreetingPlan)
    ensures
        own_positions(authors@, me).len() == 0 ==> r.edit is None && r.delete@.len() == 0,
        own_positions(authors@, me).len() > 0 ==> r.edit == Some(
            own_positions(authors@, me).last() as usize,
        ) && r.delete@.map_values(|p: usize| p as int) == own_positions(authors@, me).drop_last(),
{
    let mut own: Vec<usize> = Vec::new();
    let mut i: usize = 0;
    while i < authors.len()
        invariant
            i <= authors@.len(),
            own@.map_values(|p: usize| p as int) == own_positions(authors@.take(i as int), me),
        decreases authors@.len() - i,
    {
        assert(authors@.take(i + 1).drop_last() == authors@.take(i as int));
        if authors[i] == me {
            own.push(i);
            assert(own@.map_values(|p: usize| p as int) == own_positions(authors@.take(i as int), me).push(i as int));
        }
        i = i + 1;
    }
    assert(authors@.take(authors@.len() as int) == authors@);
    let ghost before = own@;
    let edit = own.pop();
    proof {
        if before.len() > 0 {
            assert(own@ == before.drop_last());
            assert(own@.map_values(|p: usize| p as int) == before.map_values(
                |p: usize| p as int,
            ).drop_last());
        }
    }
    GreetingPlan { delete: own, edit }
}

} // verus!
