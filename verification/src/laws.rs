//! What holds of every call, proved from the functions of `model`.

use crate::addr::Addr;
use crate::median::{median_is_middle_rank, median_of, ranked, ranked_is_sorted_permutation};
use crate::model::{
    add_oracle, add_oracle_fault, add_oracles, change_oracles, execute, instantiate_fault,
    instantiate_state, is_supersedable, opens_round, oracle_count, other_than, remove_oracle,
    remove_oracle_fault, remove_oracles, request_new_round, submit_base, submit_fault,
    submit_resolves, submit_state, update_future_rounds,
};
use crate::msg::{ExecuteMsg, InstantiateMsg};
use crate::state::{AggregatorView, RoundDetailsView, MAX_ORACLE_COUNT, ROUND_MAX};
use vstd::prelude::*;

verus! {

/// An accepted submission settles its round exactly when the submissions to
/// the round, this one included, have reached the quorum with which the round
/// was opened. Settling writes the median of these submissions as the answer
/// of the round and makes the round the latest one; otherwise the round and
/// the latest round stay as they were. The latest round never moves back.
pub proof fn submit_settles_at_quorum(
    s: AggregatorView,
    sender: Addr,
    round_id: u32,
    submission: u128,
    now: u64,
)
    requires
        s.wf(),
        submit_fault(s, sender, round_id, submission, now) is None,
    ensures
        ({
            let base = submit_base(s, s.oracles[sender@], round_id, now);
            let details = base.details[round_id as int]->0;
            let submissions = details.submissions.push(submission);
            let after = submit_state(s, sender, round_id, submission, now);
            &&& submit_resolves(s, sender, round_id, now) <==> submissions.len()
                >= details.min_submissions
            &&& submit_resolves(s, sender, round_id, now) ==> {
                &&& after.rounds[round_id as int].answer == Some(median_of(submissions) as u128)
                &&& after.rounds[round_id as int].updated_at == Some(now)
                &&& after.rounds[round_id as int].answered_in_round == round_id
                &&& after.latest_round_id == round_id
            }
            &&& !submit_resolves(s, sender, round_id, now) ==> {
                &&& after.rounds[round_id as int] == base.rounds[round_id as int]
                &&& after.latest_round_id == s.latest_round_id
            }
            &&& after.latest_round_id >= s.latest_round_id
            &&& after.wf()
        }),
{
}

/// The answer on which a round is settled is the middle of its submissions
/// in ascending order, or the floor of the mean of the two in the middle, and
/// lies between the smallest and the largest of them.
pub proof fn settled_answer_is_median(
    s: AggregatorView,
    sender: Addr,
    round_id: u32,
    submission: u128,
    now: u64,
)
    requires
        s.wf(),
        submit_fault(s, sender, round_id, submission, now) is None,
        submit_resolves(s, sender, round_id, now),
    ensures
        ({
            let base = submit_base(s, s.oracles[sender@], round_id, now);
            let submissions = base.details[round_id as int]->0.submissions.push(submission);
            let sorted = ranked(submissions);
            let n = submissions.len() as int;
            let answer = submit_state(s, sender, round_id, submission, now).rounds[round_id as int].answer->0;
            &&& n % 2 == 1 ==> answer == sorted[n / 2]
            &&& n % 2 == 0 ==> answer == (sorted[n / 2 - 1] + sorted[n / 2]) / 2
            &&& sorted[0] <= answer <= sorted[n - 1]
        }),
{
    let base = submit_base(s, s.oracles[sender@], round_id, now);
    let submissions = base.details[round_id as int]->0.submissions.push(submission);
    median_is_middle_rank(submissions);
    ranked_is_sorted_permutation(submissions);
}

/// An oracle whose submission is accepted had not reported to that round or
/// to a later one, and has reported to that round afterwards: the rounds to
/// which an oracle reports strictly increase.
pub proof fn submit_advances_reported_round(
    s: AggregatorView,
    sender: Addr,
    round_id: u32,
    submission: u128,
    now: u64,
)
    requires
        submit_fault(s, sender, round_id, submission, now) is None,
    ensures
        s.oracles[sender@].last_reported_round matches Some(last) ==> last < round_id,
        submit_state(s, sender, round_id, submission, now).oracles[sender@].last_reported_round
            == Some(round_id),
        submit_state(s, sender, round_id, submission, now).oracles[sender@].latest_submission
            == Some(submission),
{
}

/// A submission to a round to which the oracle has reported already, or to
/// an earlier one, is rejected whenever the oracle is enabled for the round
/// and the value is within the bounds.
pub proof fn resubmission_is_rejected(
    s: AggregatorView,
    sender: Addr,
    round_id: u32,
    submission: u128,
    now: u64,
)
    requires
        s.oracles.contains_key(sender@),
        s.oracles[sender@].last_reported_round matches Some(last) && last >= round_id,
    ensures
        submit_fault(s, sender, round_id, submission, now) is Some,
{
}

/// An accepted submission moves exactly the payment with which its round was
/// opened from the available funds to the allocated funds, and adds exactly
/// that payment to what the oracle can withdraw. The sum of the available and
/// the allocated funds stays the same.
pub proof fn submit_pays_exactly(
    s: AggregatorView,
    sender: Addr,
    round_id: u32,
    submission: u128,
    now: u64,
)
    requires
        submit_fault(s, sender, round_id, submission, now) is None,
    ensures
        ({
            let base = submit_base(s, s.oracles[sender@], round_id, now);
            let payment = base.details[round_id as int]->0.payment_amount;
            let after = submit_state(s, sender, round_id, submission, now);
            &&& s.funds.available >= payment
            &&& after.funds.allocated == s.funds.allocated + payment
            &&& after.funds.available == s.funds.available - payment
            &&& after.oracles[sender@].withdrawable == s.oracles[sender@].withdrawable + payment
            &&& after.funds.available + after.funds.allocated == s.funds.available
                + s.funds.allocated
            &&& forall|other: Seq<char>|
                other != sender@ ==> (after.oracles.contains_key(other) == s.oracles.contains_key(
                    other,
                ) && (s.oracles.contains_key(other) ==> #[trigger] after.oracles[other]
                    == s.oracles[other]))
        }),
{
}

/// New settings for future rounds are never accepted unless the available
/// funds cover the reserve under them: the new payment for every active
/// oracle, twice. The funds and the oracles are not changed, and the rounds
/// that are open keep the settings with which they were opened.
pub proof fn future_rounds_keep_reserve(
    s: AggregatorView,
    sender: Addr,
    payment_amount: u128,
    min_submissions: u32,
    max_submissions: u32,
    restart_delay: u32,
    timeout: u32,
)
    requires
        update_future_rounds(
            s,
            sender,
            payment_amount,
            min_submissions,
            max_submissions,
            restart_delay,
            timeout,
        ) is Ok,
    ensures
        ({
            let after = update_future_rounds(
                s,
                sender,
                payment_amount,
                min_submissions,
                max_submissions,
                restart_delay,
                timeout,
            )->Ok_0.state;
            &&& after.funds == s.funds
            &&& after.oracle_addresses == s.oracle_addresses
            &&& after.rounds == s.rounds
            &&& after.details == s.details
            &&& after.config.payment_amount == payment_amount
            &&& after.funds.available >= payment_amount * oracle_count(after) * 2
            &&& min_submissions <= max_submissions <= oracle_count(after)
            &&& oracle_count(after) > 0 ==> min_submissions > 0 && restart_delay < oracle_count(
                after,
            )
        }),
{
}

/// A change of the oracles is never accepted unless the available funds
/// cover the reserve for the oracles that are active after the change.
pub proof fn change_of_oracles_keeps_reserve(
    s: AggregatorView,
    sender: Addr,
    removed: Seq<Addr>,
    added: Seq<Addr>,
    added_admins: Seq<Addr>,
    min_submissions: u32,
    max_submissions: u32,
    restart_delay: u32,
)
    requires
        change_oracles(
            s,
            sender,
            removed,
            added,
            added_admins,
            min_submissions,
            max_submissions,
            restart_delay,
        ) is Ok,
    ensures
        ({
            let after = change_oracles(
                s,
                sender,
                removed,
                added,
                added_admins,
                min_submissions,
                max_submissions,
                restart_delay,
            )->Ok_0.state;
            &&& after.funds.available >= after.config.payment_amount * oracle_count(after) * 2
            &&& min_submissions <= max_submissions <= oracle_count(after)
        }),
{
    let fewer = remove_oracles(s, removed)->Ok_0;
    let more = add_oracles(fewer, added, added_admins)->Ok_0;
    future_rounds_keep_reserve(
        more,
        sender,
        more.config.payment_amount,
        min_submissions,
        max_submissions,
        restart_delay,
        more.config.timeout,
    );
}

/// Removing oracles leaves a well-formed state, with no more active oracles
/// than before and the same rounds.
proof fn removals_keep_well_formed(s: AggregatorView, removed: Seq<Addr>)
    requires
        s.wf(),
        remove_oracles(s, removed) is Ok,
    ensures
        remove_oracles(s, removed)->Ok_0.wf(),
        oracle_count(remove_oracles(s, removed)->Ok_0) <= oracle_count(s),
        remove_oracles(s, removed)->Ok_0.reporting_round_id == s.reporting_round_id,
        remove_oracles(s, removed)->Ok_0.latest_round_id == s.latest_round_id,
        remove_oracles(s, removed)->Ok_0.rounds == s.rounds,
        remove_oracles(s, removed)->Ok_0.details == s.details,
    decreases removed.len(),
{
    if removed.len() > 0 {
        s.oracle_addresses.lemma_filter_len(other_than(removed[0]));
        removals_keep_well_formed(remove_oracle(s, removed[0]), removed.drop_first());
    }
}

/// Adding oracles, as many as there is room for, leaves a well-formed state
/// with that many more active oracles and the same rounds.
proof fn additions_keep_well_formed(s: AggregatorView, added: Seq<Addr>, admins: Seq<Addr>)
    requires
        s.wf(),
        added.len() == admins.len(),
        oracle_count(s) + added.len() <= MAX_ORACLE_COUNT,
        add_oracles(s, added, admins) is Ok,
    ensures
        add_oracles(s, added, admins)->Ok_0.wf(),
        oracle_count(add_oracles(s, added, admins)->Ok_0) == oracle_count(s) + added.len(),
        add_oracles(s, added, admins)->Ok_0.reporting_round_id == s.reporting_round_id,
        add_oracles(s, added, admins)->Ok_0.latest_round_id == s.latest_round_id,
        add_oracles(s, added, admins)->Ok_0.rounds == s.rounds,
        add_oracles(s, added, admins)->Ok_0.details == s.details,
    decreases added.len(),
{
    if added.len() > 0 {
        additions_keep_well_formed(
            add_oracle(s, added[0], admins[0]),
            added.drop_first(),
            admins.drop_first(),
        );
    }
}

/// A newly created aggregator is in a well-formed state.
pub proof fn instantiate_is_well_formed(now: u64, sender: Addr, msg: InstantiateMsg)
    requires
        instantiate_fault(now, msg) is None,
    ensures
        instantiate_state(now, sender, msg).wf(),
{
}

/// Every call that succeeds on a well-formed state leaves a well-formed
/// state: there is a round for every id up to the reporting round, the latest
/// answered round is not after the reporting round, and there are no more
/// active oracles than allowed. The reporting round and the latest answered
/// round never move back.
pub proof fn execute_keeps_well_formed(
    s: AggregatorView,
    contract: Addr,
    now: u64,
    sender: Addr,
    msg: ExecuteMsg,
)
    requires
        s.wf(),
        execute(s, contract, now, sender, msg) is Ok,
    ensures
        execute(s, contract, now, sender, msg)->Ok_0.state.wf(),
        execute(s, contract, now, sender, msg)->Ok_0.state.reporting_round_id
            >= s.reporting_round_id,
        execute(s, contract, now, sender, msg)->Ok_0.state.latest_round_id >= s.latest_round_id,
{
    match msg {
        ExecuteMsg::Submit { round_id, submission } => {
            submit_settles_at_quorum(s, sender, round_id, submission, now);
        },
        ExecuteMsg::ChangeOracles {
            removed,
            added,
            added_admins,
            min_submissions,
            max_submissions,
            restart_delay,
        } => {
            removals_keep_well_formed(s, removed@);
            let fewer = remove_oracles(s, removed@)->Ok_0;
            additions_keep_well_formed(fewer, added@, added_admins@);
        },
        _ => {},
    }
}

/// A round takes submissions until their number reaches the maximum with
/// which it was opened, and none from then on, whoever submits whatever
/// value at whatever time. Until then it keeps every submission in the order
/// of arrival, and the limits and the payment with which it was opened.
pub proof fn submit_closes_full_round(
    s: AggregatorView,
    sender: Addr,
    round_id: u32,
    submission: u128,
    now: u64,
    next_sender: Addr,
    next_submission: u128,
    later: u64,
)
    requires
        s.wf(),
        submit_fault(s, sender, round_id, submission, now) is None,
    ensures
        ({
            let base = submit_base(s, s.oracles[sender@], round_id, now);
            let details = base.details[round_id as int]->0;
            let submissions = details.submissions.push(submission);
            let after = submit_state(s, sender, round_id, submission, now);
            &&& after.details[round_id as int] is None <==> submissions.len()
                >= details.max_submissions
            &&& submissions.len() < details.max_submissions ==> after.details[round_id as int]
                == Some(RoundDetailsView { submissions, ..details })
            &&& after.details[round_id as int] is None ==> submit_fault(
                after,
                next_sender,
                round_id,
                next_submission,
                later,
            ) is Some
        }),
{
}

/// A submission opens a round only once the round before it can be
/// superseded. The round it opens is the round after the reporting round; it
/// becomes the reporting round, started now, under the settings in force.
pub proof fn round_opens_after_supersedable_round(
    s: AggregatorView,
    sender: Addr,
    round_id: u32,
    submission: u128,
    now: u64,
)
    requires
        s.wf(),
        submit_fault(s, sender, round_id, submission, now) is None,
        opens_round(s, s.oracles[sender@], round_id),
    ensures
        round_id == s.reporting_round_id + 1,
        round_id == 1 || is_supersedable(s, s.reporting_round_id as int, now),
        submit_state(s, sender, round_id, submission, now).reporting_round_id == round_id,
        submit_state(s, sender, round_id, submission, now).rounds[round_id as int].started_at
            == Some(now),
        submit_state(s, sender, round_id, submission, now).oracles[sender@].last_started_round
            == Some(round_id),
{
}

/// A round is opened on request only once the reporting round can be
/// superseded. The new round is the round after it, and the answer of the
/// call is its id.
pub proof fn requested_round_follows_supersedable_round(s: AggregatorView, sender: Addr, now: u64)
    requires
        s.wf(),
        request_new_round(s, sender, now) is Ok,
    ensures
        s.requesters.contains_key(sender@) && s.requesters[sender@].authorized,
        is_supersedable(s, s.reporting_round_id as int, now),
        request_new_round(s, sender, now)->Ok_0.state.reporting_round_id == s.reporting_round_id
            + 1,
        request_new_round(s, sender, now)->Ok_0.data == Some((s.reporting_round_id + 1) as u32),
        request_new_round(s, sender, now)->Ok_0.state.requesters[sender@].last_started_round
            == s.reporting_round_id + 1,
        request_new_round(s, sender, now)->Ok_0.state.wf(),
{
}

/// An oracle that is removed keeps its record, with its earnings and its
/// admin; the reporting round is its last round, and it is no longer in the
/// roster.
pub proof fn removed_oracle_keeps_its_record(s: AggregatorView, oracle: Addr)
    requires
        remove_oracle_fault(s, oracle) is None,
    ensures
        ({
            let after = remove_oracle(s, oracle);
            &&& after.oracles.contains_key(oracle@)
            &&& after.oracles[oracle@].withdrawable == s.oracles[oracle@].withdrawable
            &&& after.oracles[oracle@].admin == s.oracles[oracle@].admin
            &&& after.oracles[oracle@].ending_round == s.reporting_round_id
            &&& forall|i: int|
                0 <= i < after.oracle_addresses.len() ==> (#[trigger] after.oracle_addresses[i])@
                    != oracle@
            &&& after.oracle_addresses.len() <= s.oracle_addresses.len()
        }),
{
    broadcast use Seq::lemma_filter_pred;

    s.oracle_addresses.lemma_filter_len(other_than(oracle));
}

/// An oracle that is added again keeps its earnings and what it has
/// reported, and can only be added with the admin it had. It stands last in
/// the roster and is active.
pub proof fn readded_oracle_keeps_its_admin(s: AggregatorView, oracle: Addr, admin: Addr)
    requires
        s.wf(),
        s.oracles.contains_key(oracle@),
        add_oracle_fault(s, oracle, admin) is None,
    ensures
        ({
            let after = add_oracle(s, oracle, admin);
            &&& s.oracles[oracle@].admin@ == admin@
            &&& s.oracles[oracle@].ending_round != ROUND_MAX
            &&& after.oracles[oracle@].admin@ == s.oracles[oracle@].admin@
            &&& after.oracles[oracle@].withdrawable == s.oracles[oracle@].withdrawable
            &&& after.oracles[oracle@].last_reported_round
                == s.oracles[oracle@].last_reported_round
            &&& after.oracles[oracle@].ending_round == ROUND_MAX
            &&& after.oracles[oracle@].index == s.oracle_addresses.len()
            &&& after.oracle_addresses.last() == oracle
            &&& after.oracles[oracle@].starting_round == (if s.reporting_round_id != 0
                && s.oracles[oracle@].ending_round == s.reporting_round_id {
                s.reporting_round_id as int
            } else {
                s.reporting_round_id + 1
            })
        }),
{
}

/// No call deletes a round, changes when a round was started, or moves back
/// the round whose answer applies to a round. A round that has been settled
/// keeps the answer of its own submissions when it times out.
pub proof fn execute_keeps_rounds(
    s: AggregatorView,
    contract: Addr,
    now: u64,
    sender: Addr,
    msg: ExecuteMsg,
    round_id: int,
)
    requires
        s.wf(),
        execute(s, contract, now, sender, msg) is Ok,
        0 <= round_id < s.rounds.len(),
    ensures
        ({
            let after = execute(s, contract, now, sender, msg)->Ok_0.state;
            &&& after.rounds.len() >= s.rounds.len()
            &&& after.rounds[round_id].answered_in_round >= s.rounds[round_id].answered_in_round
            &&& s.rounds[round_id].started_at is Some ==> after.rounds[round_id].started_at
                == s.rounds[round_id].started_at
            &&& s.rounds[round_id].updated_at is Some && !(msg is Submit) ==> after.rounds[round_id]
                == s.rounds[round_id]
        }),
{
    match msg {
        ExecuteMsg::Submit { round_id: target, submission } => {
            submit_settles_at_quorum(s, sender, target, submission, now);
        },
        ExecuteMsg::ChangeOracles {
            removed,
            added,
            added_admins,
            min_submissions,
            max_submissions,
            restart_delay,
        } => {
            removals_keep_well_formed(s, removed@);
            let fewer = remove_oracles(s, removed@)->Ok_0;
            additions_keep_well_formed(fewer, added@, added_admins@);
        },
        _ => {},
    }
}

} // verus!
