//! The events of a call as the attributes under which it is logged.

use crate::msg::{Event, Response};
use vstd::prelude::*;
use vstd::string::StringExecFns;

verus! {

/// A key and a value, as a call logs them.
#[derive(Debug, PartialEq)]
pub struct Attribute {
    pub key: String,
    pub value: String,
}

/// An attribute as a pair of texts.
pub open spec fn pair_of(attribute: Attribute) -> (Seq<char>, Seq<char>) {
    (attribute.key@, attribute.value@)
}

/// A list of attributes as a list of pairs of texts.
pub open spec fn pairs_of(attributes: Seq<Attribute>) -> Seq<(Seq<char>, Seq<char>)> {
    attributes.map_values(|a: Attribute| pair_of(a))
}

/// The attribute with the given key and value.
pub fn attr(key: &str, value: &str) -> (attribute: Attribute)
    ensures
        pair_of(attribute) == (key@, value@),
{
    Attribute { key: key.to_owned(), value: value.to_owned() }
}

/// The text of one decimal digit.
pub open spec fn digit_text(digit: int) -> Seq<char> {
    if digit == 0 {
        "0"@
    } else if digit == 1 {
        "1"@
    } else if digit == 2 {
        "2"@
    } else if digit == 3 {
        "3"@
    } else if digit == 4 {
        "4"@
    } else if digit == 5 {
        "5"@
    } else if digit == 6 {
        "6"@
    } else if digit == 7 {
        "7"@
    } else if digit == 8 {
        "8"@
    } else {
        "9"@
    }
}

/// A number in decimal digits, without leading zeros.
pub open spec fn decimal_text(n: nat) -> Seq<char>
    decreases n,
{
    if n < 10 {
        digit_text(n as int)
    } else {
        decimal_text(n / 10) + digit_text((n % 10) as int)
    }
}

/// The text of a truth value.
pub open spec fn flag_text(flag: bool) -> Seq<char> {
    if flag {
        "true"@
    } else {
        "false"@
    }
}

fn digit(d: u128) -> (text: &'static str)
    requires
        d < 10,
    ensures
        text@ == digit_text(d as int),
{
    if d == 0 {
        "0"
    } else if d == 1 {
        "1"
    } else if d == 2 {
        "2"
    } else if d == 3 {
        "3"
    } else if d == 4 {
        "4"
    } else if d == 5 {
        "5"
    } else if d == 6 {
        "6"
    } else if d == 7 {
        "7"
    } else if d == 8 {
        "8"
    } else {
        "9"
    }
}

/// A number in decimal digits, without leading zeros.
pub fn decimal(n: u128) -> (text: String)
    ensures
        text@ == decimal_text(n as nat),
{
    let mut text = String::from_str(digit(n % 10));
    let mut rest = n / 10;
    while rest > 0
        invariant
            decimal_text(n as nat) == (if rest > 0 {
                decimal_text(rest as nat) + text@
            } else {
                text@
            }),
        decreases rest,
    {
        let ghost lower = text@;
        let mut longer = String::from_str(digit(rest % 10));
        longer.append(text.as_str());
        text = longer;
        proof {
            if rest >= 10 {
                assert((decimal_text((rest / 10) as nat) + digit_text((rest % 10) as int)) + lower
                    =~= decimal_text((rest / 10) as nat) + (digit_text((rest % 10) as int)
                    + lower));
            }
        }
        rest = rest / 10;
    }
    text
}

/// The text of a truth value.
pub fn flag(value: bool) -> (text: &'static str)
    ensures
        text@ == flag_text(value),
{
    if value {
        "true"
    } else {
        "false"
    }
}

/// The attributes under which each event is logged.
pub open spec fn event_pairs(event: Event) -> Seq<(Seq<char>, Seq<char>)> {
    match event {
        Event::NewRound { started_by, started_at } => seq![
            ("action"@, "new round"@),
            ("started by"@, started_by@),
            ("started at"@, decimal_text(started_at as nat)),
        ],
        Event::AnswerUpdated { current, round_id } => seq![
            ("action"@, "answer updated"@),
            ("current"@, decimal_text(current as nat)),
            ("round_id"@, decimal_text(round_id as nat)),
        ],
        Event::TransferAdmin { oracle, sender, new_admin } => seq![
            ("action"@, "transfer_admin"@),
            ("oracle"@, oracle@),
            ("sender"@, sender@),
            ("new_admin"@, new_admin@),
        ],
        Event::OracleAdminUpdated { oracle, new_admin } => seq![
            ("oracle_admin_updated"@, oracle@),
            ("new_admin"@, new_admin@),
        ],
        Event::AvailableFundsUpdated { amount } => seq![
            ("action"@, "update_available_funds"@),
            ("amount"@, decimal_text(amount as nat)),
        ],
        Event::RequesterPermissionSet { requester, authorized, delay } => seq![
            ("action"@, "set_requester_permission"@),
            ("requester"@, requester@),
            ("authorized"@, flag_text(authorized)),
            ("delay"@, decimal_text(delay as nat)),
        ],
        Event::RoundDetailsUpdated {
            payment_amount,
            min_submissions,
            max_submissions,
            restart_delay,
            timeout,
        } => seq![
            ("action"@, "round_details_updated"@),
            ("payment_amount"@, decimal_text(payment_amount as nat)),
            ("min_submissions"@, decimal_text(min_submissions as nat)),
            ("max_submissions"@, decimal_text(max_submissions as nat)),
            ("restart_delay"@, decimal_text(restart_delay as nat)),
            ("timeout"@, decimal_text(timeout as nat)),
        ],
        Event::ValidatorUpdated { previous, new } => seq![
            ("action"@, "validator_updated"@),
            ("previous"@, previous@),
            ("new"@, new@),
        ],
        Event::OwnershipTransferred { pending_owner } => seq![
            ("action"@, "ownership transferred"@),
            ("pending_owner"@, pending_owner@),
        ],
        Event::OwnershipAccepted { owner } => seq![
            ("action"@, "ownership accepted"@),
            ("owner"@, owner@),
        ],
    }
}

/// The attributes under which a list of events is logged: those of each
/// event, in the order of the events.
pub open spec fn events_pairs(events: Seq<Event>) -> Seq<(Seq<char>, Seq<char>)>
    decreases events.len(),
{
    if events.len() == 0 {
        Seq::empty()
    } else {
        events_pairs(events.drop_last()) + event_pairs(events.last())
    }
}

fn push_attr(attributes: &mut Vec<Attribute>, key: &str, value: &str)
    ensures
        pairs_of(final(attributes)@) == pairs_of(old(attributes)@).push((key@, value@)),
{
    attributes.push(attr(key, value));
    assert(pairs_of(attributes@) =~= pairs_of(old(attributes)@).push((key@, value@)));
}

/// Adds the attributes of one event to a list.
fn push_event(attributes: &mut Vec<Attribute>, event: &Event)
    ensures
        pairs_of(final(attributes)@) == pairs_of(old(attributes)@) + event_pairs(*event),
{
    let ghost before = pairs_of(attributes@);
    match event {
        Event::NewRound { started_by, started_at } => {
            push_attr(attributes, "action", "new round");
            push_attr(attributes, "started by", started_by.as_str());
            push_attr(attributes, "started at", decimal(*started_at as u128).as_str());
        },
        Event::AnswerUpdated { current, round_id } => {
            push_attr(attributes, "action", "answer updated");
            push_attr(attributes, "current", decimal(*current).as_str());
            push_attr(attributes, "round_id", decimal(*round_id as u128).as_str());
        },
        Event::TransferAdmin { oracle, sender, new_admin } => {
            push_attr(attributes, "action", "transfer_admin");
            push_attr(attributes, "oracle", oracle.as_str());
            push_attr(attributes, "sender", sender.as_str());
            push_attr(attributes, "new_admin", new_admin.as_str());
        },
        Event::OracleAdminUpdated { oracle, new_admin } => {
            push_attr(attributes, "oracle_admin_updated", oracle.as_str());
            push_attr(attributes, "new_admin", new_admin.as_str());
        },
        Event::AvailableFundsUpdated { amount } => {
            push_attr(attributes, "action", "update_available_funds");
            push_attr(attributes, "amount", decimal(*amount).as_str());
        },
        Event::RequesterPermissionSet { requester, authorized, delay } => {
            push_attr(attributes, "action", "set_requester_permission");
            push_attr(attributes, "requester", requester.as_str());
            push_attr(attributes, "authorized", flag(*authorized));
            push_attr(attributes, "delay", decimal(*delay as u128).as_str());
        },
        Event::RoundDetailsUpdated {
            payment_amount,
            min_submissions,
            max_submissions,
            restart_delay,
            timeout,
        } => {
            push_attr(attributes, "action", "round_details_updated");
            push_attr(attributes, "payment_amount", decimal(*payment_amount).as_str());
            push_attr(attributes, "min_submissions", decimal(*min_submissions as u128).as_str());
            push_attr(attributes, "max_submissions", decimal(*max_submissions as u128).as_str());
            push_attr(attributes, "restart_delay", decimal(*restart_delay as u128).as_str());
            push_attr(attributes, "timeout", decimal(*timeout as u128).as_str());
        },
        Event::ValidatorUpdated { previous, new } => {
            push_attr(attributes, "action", "validator_updated");
            push_attr(attributes, "previous", previous.as_str());
            push_attr(attributes, "new", new.as_str());
        },
        Event::OwnershipTransferred { pending_owner } => {
            push_attr(attributes, "action", "ownership transferred");
            push_attr(attributes, "pending_owner", pending_owner.as_str());
        },
        Event::OwnershipAccepted { owner } => {
            push_attr(attributes, "action", "ownership accepted");
            push_attr(attributes, "owner", owner.as_str());
        },
    }
    assert(pairs_of(attributes@) =~= before + event_pairs(*event));
}

impl Event {
    /// The attributes under which the event is logged.
    pub fn attributes(&self) -> (attributes: Vec<Attribute>)
        ensures
            pairs_of(attributes@) == event_pairs(*self),
    {
        let mut attributes: Vec<Attribute> = Vec::new();
        assert(pairs_of(attributes@) =~= Seq::empty());
        push_event(&mut attributes, self);
        assert(Seq::<(Seq<char>, Seq<char>)>::empty() + event_pairs(*self) =~= event_pairs(*self));
        attributes
    }
}

impl Response {
    /// The attributes under which the call is logged: those of its events,
    /// in order.
    pub fn attributes(&self) -> (attributes: Vec<Attribute>)
        ensures
            pairs_of(attributes@) == events_pairs(self.events@),
    {
        let mut attributes: Vec<Attribute> = Vec::new();
        assert(pairs_of(attributes@) =~= Seq::empty());
        let mut i: usize = 0;
        while i < self.events.len()
            invariant
                i <= self.events@.len(),
                pairs_of(attributes@) == events_pairs(self.events@.take(i as int)),
            decreases self.events@.len() - i,
        {
            push_event(&mut attributes, &self.events[i]);
            proof {
                let next = self.events@.take(i + 1);
                assert(next.drop_last() =~= self.events@.take(i as int));
                assert(next.last() == self.events@[i as int]);
            }
            i += 1;
        }
        assert(self.events@.take(i as int) =~= self.events@);
        attributes
    }
}

} // verus!
