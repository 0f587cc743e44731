//! What each call does to the state, as mathematical functions on
//! `AggregatorView`. The executable functions are proved against these.

use crate::addr::Addr;
use crate::error::{add_overflow, not_found, sub_overflow, ContractError};
use crate::median::median_of;
use crate::msg::{Event, ExecuteMsg, InstantiateMsg, Message, Response};
use crate::owned;
use crate::state::{
    AggregatorView, Config, Funds, OracleStatus, Requester, Round, RoundDetailsView,
    MAX_ORACLE_COUNT, RESERVE_ROUNDS, ROUND_MAX,
};
use cosmwasm_std::StdError;
use vstd::prelude::*;

verus! {

/// How a missing oracle record is named in the error.
pub open spec fn oracle_kind() -> Seq<char> {
    "flux_aggregator::state::OracleStatus"@
}

/// How a missing round is named in the error.
pub open spec fn round_kind() -> Seq<char> {
    "flux_aggregator::state::Round"@
}

/// The whole seconds of a time given in nanoseconds.
pub open spec fn seconds_of(nanos: u64) -> u64 {
    (nanos / 1_000_000_000) as u64
}

/// What must stay available to pay every active oracle for two rounds.
pub open spec fn reserve_of(payment: u128, oracle_count: nat) -> int {
    payment * oracle_count * RESERVE_ROUNDS
}

/// The funds after a payment has been recorded: the amount moves from the
/// available to the allocated funds. Fails where the available funds do not
/// cover the amount, or where the allocated funds would leave their range.
pub open spec fn record_payment(funds: Funds, amount: u128) -> Result<Funds, StdError> {
    if funds.available < amount {
        Err(sub_overflow(funds.available, amount))
    } else if funds.allocated + amount > u128::MAX {
        Err(add_overflow(funds.allocated, amount))
    } else {
        Ok(
            Funds {
                available: (funds.available - amount) as u128,
                allocated: (funds.allocated + amount) as u128,
            },
        )
    }
}

/// The funds after a withdrawal of earnings has been recorded: the amount
/// leaves the allocated funds. Fails where they do not cover it.
pub open spec fn record_withdrawal(funds: Funds, amount: u128) -> Result<Funds, StdError> {
    if funds.allocated < amount {
        Err(sub_overflow(funds.allocated, amount))
    } else {
        Ok(Funds { allocated: (funds.allocated - amount) as u128, ..funds })
    }
}

/// The funds after they have been reconciled with the balance that the token
/// ledger reports: the available funds are the balance less the allocated
/// funds. Fails where the balance does not cover the allocated funds.
pub open spec fn refresh_available(funds: Funds, balance: u128) -> Result<Funds, StdError> {
    if balance < funds.allocated {
        Err(sub_overflow(balance, funds.allocated))
    } else {
        Ok(Funds { available: (balance - funds.allocated) as u128, ..funds })
    }
}

/// The working state of a round opened under `config`.
pub open spec fn fresh_details(config: Config) -> RoundDetailsView {
    RoundDetailsView {
        submissions: Seq::empty(),
        max_submissions: config.max_submission_count,
        min_submissions: config.min_submission_count,
        timeout: config.timeout,
        payment_amount: config.payment_amount,
    }
}

/// A round that has just been opened at `now`.
pub open spec fn fresh_round(now: u64) -> Round {
    Round { answer: None, started_at: Some(now), updated_at: None, answered_in_round: 0 }
}

/// A round has timed out when it still takes submissions, was started, has a
/// timeout other than 0, and `now` is after its start plus the timeout.
pub open spec fn timed_out(s: AggregatorView, round_id: int, now: u64) -> bool {
    &&& 0 <= round_id < s.rounds.len()
    &&& round_id < s.details.len()
    &&& s.details[round_id] matches Some(d)
    &&& s.rounds[round_id].started_at matches Some(started)
    &&& d.timeout > 0
    &&& started + d.timeout < now
}

/// A round can be superseded when it has been updated or has timed out.
pub open spec fn is_supersedable(s: AggregatorView, round_id: int, now: u64) -> bool {
    &&& 0 <= round_id < s.rounds.len()
    &&& (s.rounds[round_id].updated_at is Some || timed_out(s, round_id, now))
}

/// Why an oracle may not report to a round, if it may not. In this order:
/// the oracle was never enabled; its first round is after the round; its
/// last round is before the round; it has reported to the round or to a
/// later one; the round is neither the reporting round, nor the one after
/// it, nor the one before it while the reporting round has not been
/// updated; the round is not round 1 and the round before it cannot be
/// superseded.
pub open spec fn oracle_round_fault(
    s: AggregatorView,
    oracle: OracleStatus,
    round_id: u32,
    now: u64,
) -> Option<ContractError> {
    let rr = s.reporting_round_id;
    if oracle.starting_round == 0 {
        Some(ContractError::OracleNotEnabled {  })
    } else if oracle.starting_round > round_id {
        Some(ContractError::OracleNotYetEnabled {  })
    } else if oracle.ending_round < round_id {
        Some(ContractError::NoLongerAllowed {  })
    } else if oracle.last_reported_round matches Some(last) && last >= round_id {
        Some(ContractError::ReportingPreviousRound {  })
    } else if round_id != rr && round_id != rr + 1 && !(round_id + 1 == rr
        && s.rounds[rr as int].updated_at is None) {
        Some(ContractError::InvalidRound {  })
    } else if round_id != 1 && !is_supersedable(s, round_id - 1, now) {
        Some(ContractError::NotSupersedable {  })
    } else {
        None
    }
}

/// Whether a submission to `round_id` opens that round: it is the round
/// after the reporting round, and the oracle has started no round yet or has
/// waited out the restart delay since the last one it started.
pub open spec fn opens_round(s: AggregatorView, oracle: OracleStatus, round_id: u32) -> bool {
    &&& round_id == s.reporting_round_id + 1
    &&& (oracle.last_started_round matches Some(last) ==> round_id > last
        + s.config.restart_delay)
}

/// A round is abandoned when it has timed out without ever being settled or
/// updated.
pub open spec fn abandoned(s: AggregatorView, round_id: int, now: u64) -> bool {
    &&& timed_out(s, round_id, now)
    &&& s.rounds[round_id].updated_at is None
}

/// The state after the round that follows the reporting round has been opened
/// at `now`. Where the reporting round is abandoned, it takes over the answer
/// of the round before it and stops taking submissions.
pub open spec fn open_round(s: AggregatorView, now: u64) -> AggregatorView {
    let rr = s.reporting_round_id as int;
    let carried = if abandoned(s, rr, now) {
        AggregatorView {
            rounds: s.rounds.update(
                rr,
                Round {
                    answer: s.rounds[rr - 1].answer,
                    answered_in_round: s.rounds[rr - 1].answered_in_round,
                    updated_at: Some(now),
                    ..s.rounds[rr]
                },
            ),
            details: s.details.update(rr, None),
            ..s
        }
    } else {
        s
    };
    AggregatorView {
        reporting_round_id: (rr + 1) as u32,
        rounds: carried.rounds.push(fresh_round(now)),
        details: carried.details.push(Some(fresh_details(s.config))),
        ..carried
    }
}

/// The state in which a submission is recorded: the one with the new round
/// open, where the submission opens it.
pub open spec fn submit_base(
    s: AggregatorView,
    oracle: OracleStatus,
    round_id: u32,
    now: u64,
) -> AggregatorView {
    if opens_round(s, oracle, round_id) {
        open_round(s, now)
    } else {
        s
    }
}

/// Whether the round takes submissions in the state `base`.
pub open spec fn accepts_submissions(base: AggregatorView, round_id: u32) -> bool {
    &&& round_id < base.details.len()
    &&& base.details[round_id as int] matches Some(d)
    &&& d.max_submissions != 0
}

/// Why a submission is rejected, if it is.
pub open spec fn submit_fault(
    s: AggregatorView,
    sender: Addr,
    round_id: u32,
    submission: u128,
    now: u64,
) -> Option<ContractError> {
    if submission < s.config.min_submission_value {
        Some(ContractError::UnderMin {  })
    } else if submission > s.config.max_submission_value {
        Some(ContractError::OverMax {  })
    } else if !s.oracles.contains_key(sender@) {
        Some(ContractError::Std(not_found(oracle_kind())))
    } else {
        let oracle = s.oracles[sender@];
        let fault = oracle_round_fault(s, oracle, round_id, now);
        let base = submit_base(s, oracle, round_id, now);
        if fault is Some {
            fault
        } else if !accepts_submissions(base, round_id) {
            Some(ContractError::NotAcceptingSubmissions {  })
        } else {
            let payment = base.details[round_id as int]->0.payment_amount;
            if record_payment(s.funds, payment) is Err {
                Some(ContractError::Std(record_payment(s.funds, payment)->Err_0))
            } else if oracle.withdrawable + payment > u128::MAX {
                Some(ContractError::Std(add_overflow(oracle.withdrawable, payment)))
            } else {
                None
            }
        }
    }
}

/// Whether an accepted submission settles its round: the submissions,
/// this one included, have reached the round's quorum. Every submission from
/// the quorum on settles the round anew, on the median of the submissions so
/// far.
pub open spec fn submit_resolves(
    s: AggregatorView,
    sender: Addr,
    round_id: u32,
    now: u64,
) -> bool {
    let base = submit_base(s, s.oracles[sender@], round_id, now);
    let d = base.details[round_id as int]->0;
    d.submissions.len() + 1 >= d.min_submissions
}

/// The answer on which an accepted submission settles its round.
pub open spec fn submit_answer(
    s: AggregatorView,
    sender: Addr,
    round_id: u32,
    submission: u128,
    now: u64,
) -> u128 {
    let base = submit_base(s, s.oracles[sender@], round_id, now);
    median_of(base.details[round_id as int]->0.submissions.push(submission)) as u128
}

/// The state after an accepted submission.
pub open spec fn submit_state(
    s: AggregatorView,
    sender: Addr,
    round_id: u32,
    submission: u128,
    now: u64,
) -> AggregatorView {
    let oracle = s.oracles[sender@];
    let opening = opens_round(s, oracle, round_id);
    let base = submit_base(s, oracle, round_id, now);
    let d = base.details[round_id as int]->0;
    let submissions = d.submissions.push(submission);
    let resolved = submit_resolves(s, sender, round_id, now);
    let payment = d.payment_amount;
    AggregatorView {
        funds: record_payment(s.funds, payment)->Ok_0,
        oracles: s.oracles.insert(
            sender@,
            OracleStatus {
                withdrawable: (oracle.withdrawable + payment) as u128,
                last_reported_round: Some(round_id),
                latest_submission: Some(submission),
                last_started_round: if opening {
                    Some(round_id)
                } else {
                    oracle.last_started_round
                },
                ..oracle
            },
        ),
        rounds: if resolved {
            base.rounds.update(
                round_id as int,
                Round {
                    answer: Some(median_of(submissions) as u128),
                    started_at: base.rounds[round_id as int].started_at,
                    updated_at: Some(now),
                    answered_in_round: round_id,
                },
            )
        } else {
            base.rounds
        },
        latest_round_id: if resolved {
            round_id
        } else {
            s.latest_round_id
        },
        details: base.details.update(
            round_id as int,
            if submissions.len() < d.max_submissions {
                Some(RoundDetailsView { submissions, ..d })
            } else {
                None
            },
        ),
        ..base
    }
}

/// What an accepted submission reports: that it opened the round, where it
/// did, and then the answer, where it settled the round.
pub open spec fn submit_events(
    s: AggregatorView,
    sender: Addr,
    round_id: u32,
    submission: u128,
    now: u64,
) -> Seq<Event> {
    let opened = if opens_round(s, s.oracles[sender@], round_id) {
        seq![Event::NewRound { started_by: sender, started_at: now }]
    } else {
        Seq::empty()
    };
    if submit_resolves(s, sender, round_id, now) {
        opened.push(
            Event::AnswerUpdated {
                current: submit_answer(s, sender, round_id, submission, now),
                round_id,
            },
        )
    } else {
        opened
    }
}

/// What a successful call leaves: the new state, and what the call answers.
#[verifier::ext_equal]
pub struct Outcome {
    pub state: AggregatorView,
    pub messages: Seq<Message>,
    pub events: Seq<Event>,
    pub data: Option<u32>,
}

/// An outcome with a new state and nothing else to report.
pub open spec fn silent(state: AggregatorView) -> Outcome {
    Outcome { state, messages: Seq::empty(), events: Seq::empty(), data: None }
}

/// That a call did what `expected` says: on success the state and the answer
/// are those of the outcome; on a rejection the error is the one named and
/// the state is as it was before the call.
pub open spec fn agrees(
    before: AggregatorView,
    after: AggregatorView,
    res: Result<Response, ContractError>,
    expected: Result<Outcome, ContractError>,
) -> bool {
    match expected {
        Ok(outcome) => {
            &&& res matches Ok(response)
            &&& after == outcome.state
            &&& response.messages@ == outcome.messages
            &&& response.events@ == outcome.events
            &&& response.data == outcome.data
        },
        Err(fault) => {
            &&& res matches Err(error)
            &&& error == fault
            &&& after == before
        },
    }
}

/// What a submission does.
pub open spec fn submit(
    s: AggregatorView,
    sender: Addr,
    round_id: u32,
    submission: u128,
    now: u64,
) -> Result<Outcome, ContractError> {
    match submit_fault(s, sender, round_id, submission, now) {
        Some(fault) => Err(fault),
        None => Ok(
            Outcome {
                state: submit_state(s, sender, round_id, submission, now),
                messages: Seq::empty(),
                events: submit_events(s, sender, round_id, submission, now),
                data: None,
            },
        ),
    }
}

/// Whether `sender` owns the aggregator.
pub open spec fn is_owner(s: AggregatorView, sender: Addr) -> bool {
    sender@ == s.owner.owner@
}

/// The number of active oracles.
pub open spec fn oracle_count(s: AggregatorView) -> nat {
    s.oracle_addresses.len()
}

/// The addresses other than `oracle`.
pub open spec fn other_than(oracle: Addr) -> spec_fn(Addr) -> bool {
    |a: Addr| a@ != oracle@
}

/// Why an oracle cannot be removed, if it cannot: it has no record, or it is
/// not active.
pub open spec fn remove_oracle_fault(s: AggregatorView, oracle: Addr) -> Option<ContractError> {
    if !s.oracles.contains_key(oracle@) {
        Some(ContractError::Std(not_found(oracle_kind())))
    } else if s.oracles[oracle@].ending_round != ROUND_MAX {
        Some(ContractError::OracleNotEnabled {  })
    } else {
        None
    }
}

/// The state after an active oracle has been removed: its record stays, with
/// the reporting round as its last round, and it leaves the roster.
pub open spec fn remove_oracle(s: AggregatorView, oracle: Addr) -> AggregatorView {
    AggregatorView {
        oracles: s.oracles.insert(
            oracle@,
            OracleStatus { ending_round: s.reporting_round_id, ..s.oracles[oracle@] },
        ),
        oracle_addresses: s.oracle_addresses.filter(other_than(oracle)),
        ..s
    }
}

/// Removes the oracles one after the other, up to the first that cannot be
/// removed.
pub open spec fn remove_oracles(s: AggregatorView, removed: Seq<Addr>) -> Result<
    AggregatorView,
    ContractError,
>
    decreases removed.len(),
{
    if removed.len() == 0 {
        Ok(s)
    } else {
        match remove_oracle_fault(s, removed[0]) {
            Some(fault) => Err(fault),
            None => remove_oracles(remove_oracle(s, removed[0]), removed.drop_first()),
        }
    }
}

/// The record from which an oracle is enabled: the one it has, or that of an
/// oracle never seen before.
pub open spec fn oracle_base(s: AggregatorView, oracle: Addr, admin: Addr) -> OracleStatus {
    if s.oracles.contains_key(oracle@) {
        s.oracles[oracle@]
    } else {
        OracleStatus {
            withdrawable: 0,
            starting_round: 0,
            ending_round: 0,
            last_reported_round: None,
            last_started_round: None,
            latest_submission: None,
            index: 0,
            admin,
            pending_admin: None,
        }
    }
}

/// Why an oracle cannot be added, if it cannot: it is active already, it has
/// a record with another admin, or the reporting round is the last round
/// there can be, so that no round is left for it to start in.
pub open spec fn add_oracle_fault(s: AggregatorView, oracle: Addr, admin: Addr) -> Option<
    ContractError,
> {
    if s.oracles.contains_key(oracle@) && s.oracles[oracle@].ending_round == ROUND_MAX {
        Some(ContractError::OracleNotEnabled {  })
    } else if s.oracles.contains_key(oracle@) && s.oracles[oracle@].admin@ != admin@ {
        Some(ContractError::OverwritingAdmin {  })
    } else if s.reporting_round_id == ROUND_MAX {
        Some(ContractError::InvalidRound {  })
    } else {
        None
    }
}

/// The first round of an oracle that is added now: the round after the
/// reporting round, or the reporting round itself for an oracle that was
/// removed in it.
pub open spec fn starting_round(s: AggregatorView, base: OracleStatus) -> u32 {
    let rr = s.reporting_round_id;
    if rr != 0 && rr == base.ending_round {
        rr
    } else {
        (rr + 1) as u32
    }
}

/// The state after an oracle has been added: it is active from its starting
/// round on, and stands last in the roster.
pub open spec fn add_oracle(s: AggregatorView, oracle: Addr, admin: Addr) -> AggregatorView {
    let base = oracle_base(s, oracle, admin);
    AggregatorView {
        oracles: s.oracles.insert(
            oracle@,
            OracleStatus {
                starting_round: starting_round(s, base),
                ending_round: ROUND_MAX,
                index: s.oracle_addresses.len() as u16,
                admin,
                ..base
            },
        ),
        oracle_addresses: s.oracle_addresses.push(oracle),
        ..s
    }
}

/// Adds the oracles, each with its admin, one after the other, up to the
/// first that cannot be added.
pub open spec fn add_oracles(s: AggregatorView, added: Seq<Addr>, admins: Seq<Addr>) -> Result<
    AggregatorView,
    ContractError,
>
    recommends
        added.len() == admins.len(),
    decreases added.len(),
{
    if added.len() == 0 {
        Ok(s)
    } else {
        match add_oracle_fault(s, added[0], admins[0]) {
            Some(fault) => Err(fault),
            None => add_oracles(
                add_oracle(s, added[0], admins[0]),
                added.drop_first(),
                admins.drop_first(),
            ),
        }
    }
}

/// Why new settings for future rounds are rejected, if they are.
pub open spec fn future_rounds_fault(
    s: AggregatorView,
    sender: Addr,
    payment_amount: u128,
    min_submissions: u32,
    max_submissions: u32,
    restart_delay: u32,
) -> Option<ContractError> {
    let count = oracle_count(s);
    if !is_owner(s, sender) {
        Some(ContractError::NotOwner {  })
    } else if min_submissions > max_submissions {
        Some(ContractError::MinGreaterThanMax {  })
    } else if count < max_submissions {
        Some(ContractError::MaxGreaterThanTotal {  })
    } else if count != 0 && count <= restart_delay {
        Some(ContractError::DelayGreaterThanTotal {  })
    } else if s.funds.available < reserve_of(payment_amount, count) {
        Some(ContractError::InsufficientFunds {  })
    } else if count > 0 && min_submissions == 0 {
        Some(ContractError::MinLessThanZero {  })
    } else {
        None
    }
}

/// What new settings for future rounds do: they replace the old ones, and
/// rounds that are open keep the settings they were opened with.
pub open spec fn update_future_rounds(
    s: AggregatorView,
    sender: Addr,
    payment_amount: u128,
    min_submissions: u32,
    max_submissions: u32,
    restart_delay: u32,
    timeout: u32,
) -> Result<Outcome, ContractError> {
    match future_rounds_fault(
        s,
        sender,
        payment_amount,
        min_submissions,
        max_submissions,
        restart_delay,
    ) {
        Some(fault) => Err(fault),
        None => Ok(
            Outcome {
                state: AggregatorView {
                    config: Config {
                        payment_amount,
                        min_submission_count: min_submissions,
                        max_submission_count: max_submissions,
                        restart_delay,
                        timeout,
                        ..s.config
                    },
                    ..s
                },
                messages: Seq::empty(),
                events: seq![
                    Event::RoundDetailsUpdated {
                        payment_amount,
                        min_submissions,
                        max_submissions,
                        restart_delay,
                        timeout,
                    },
                ],
                data: None,
            },
        ),
    }
}

/// What a change of the oracles does: it removes, then adds, then sets the
/// limits for future rounds, and fails as a whole where any of these fails.
pub open spec fn change_oracles(
    s: AggregatorView,
    sender: Addr,
    removed: Seq<Addr>,
    added: Seq<Addr>,
    added_admins: Seq<Addr>,
    min_submissions: u32,
    max_submissions: u32,
    restart_delay: u32,
) -> Result<Outcome, ContractError> {
    if !is_owner(s, sender) {
        Err(ContractError::NotOwner {  })
    } else {
        match remove_oracles(s, removed) {
            Err(fault) => Err(fault),
            Ok(fewer) => {
                if added.len() != added_admins.len() {
                    Err(ContractError::OracleAdminCountMismatch {  })
                } else if oracle_count(fewer) + added.len() > MAX_ORACLE_COUNT {
                    Err(ContractError::MaxOraclesAllowed {  })
                } else {
                    match add_oracles(fewer, added, added_admins) {
                        Err(fault) => Err(fault),
                        Ok(more) => update_future_rounds(
                            more,
                            sender,
                            more.config.payment_amount,
                            min_submissions,
                            max_submissions,
                            restart_delay,
                            more.config.timeout,
                        ),
                    }
                }
            },
        }
    }
}

/// What the proposal of a new admin for an oracle does. Only the admin of
/// the oracle may propose; an oracle without a record has no admin.
pub open spec fn transfer_admin(
    s: AggregatorView,
    sender: Addr,
    oracle: Addr,
    new_admin: Addr,
) -> Result<Outcome, ContractError> {
    if !s.oracles.contains_key(oracle@) || s.oracles[oracle@].admin@ != sender@ {
        Err(ContractError::NotAdmin {  })
    } else {
        Ok(
            Outcome {
                state: AggregatorView {
                    oracles: s.oracles.insert(
                        oracle@,
                        OracleStatus { pending_admin: Some(new_admin), ..s.oracles[oracle@] },
                    ),
                    ..s
                },
                messages: Seq::empty(),
                events: seq![Event::TransferAdmin { oracle, sender, new_admin }],
                data: None,
            },
        )
    }
}

/// What the acceptance of the admin role for an oracle does. Only the
/// proposed admin may accept.
pub open spec fn accept_admin(s: AggregatorView, sender: Addr, oracle: Addr) -> Result<
    Outcome,
    ContractError,
> {
    if !s.oracles.contains_key(oracle@) || s.oracles[oracle@].pending_admin is None {
        Err(ContractError::PendingAdminMissing {  })
    } else if s.oracles[oracle@].pending_admin->0@ != sender@ {
        Err(ContractError::NotPendingAdmin {  })
    } else {
        Ok(
            Outcome {
                state: AggregatorView {
                    oracles: s.oracles.insert(
                        oracle@,
                        OracleStatus { admin: sender, pending_admin: None, ..s.oracles[oracle@] },
                    ),
                    ..s
                },
                messages: Seq::empty(),
                events: seq![Event::OracleAdminUpdated { oracle, new_admin: sender }],
                data: None,
            },
        )
    }
}

/// Why a request for a new round is rejected, if it is: the requester is not
/// authorised, the reporting round cannot be superseded yet or is the last
/// round there can be, or the requester has not waited out its delay.
pub open spec fn request_new_round_fault(s: AggregatorView, sender: Addr, now: u64) -> Option<
    ContractError,
> {
    let rr = s.reporting_round_id;
    if !s.requesters.contains_key(sender@) || !s.requesters[sender@].authorized {
        Some(ContractError::Unauthorized {  })
    } else if !is_supersedable(s, rr as int, now) {
        Some(ContractError::NotSupersedable {  })
    } else if rr == ROUND_MAX {
        Some(ContractError::InvalidRound {  })
    } else if rr + 1 <= s.requesters[sender@].last_started_round + s.requesters[sender@].delay
        && s.requesters[sender@].last_started_round != 0 {
        Some(ContractError::DelayNotRespected {  })
    } else {
        None
    }
}

/// What a request for a new round does: it opens the round after the
/// reporting round and answers with its id.
pub open spec fn request_new_round(s: AggregatorView, sender: Addr, now: u64) -> Result<
    Outcome,
    ContractError,
> {
    match request_new_round_fault(s, sender, now) {
        Some(fault) => Err(fault),
        None => {
            let new_round_id = (s.reporting_round_id + 1) as u32;
            Ok(
                Outcome {
                    state: AggregatorView {
                        requesters: s.requesters.insert(
                            sender@,
                            Requester { last_started_round: new_round_id, ..s.requesters[sender@] },
                        ),
                        ..open_round(s, now)
                    },
                    messages: Seq::empty(),
                    events: Seq::empty(),
                    data: Some(new_round_id),
                },
            )
        },
    }
}

/// Why a withdrawal of an oracle's earnings is rejected, if it is.
pub open spec fn withdraw_payment_fault(
    s: AggregatorView,
    sender: Addr,
    oracle: Addr,
    amount: u128,
) -> Option<ContractError> {
    if !s.oracles.contains_key(oracle@) {
        Some(ContractError::Std(not_found(oracle_kind())))
    } else if s.oracles[oracle@].admin@ != sender@ {
        Some(ContractError::NotAdmin {  })
    } else if s.oracles[oracle@].withdrawable < amount {
        Some(ContractError::InsufficientWithdrawableFunds {  })
    } else if record_withdrawal(s.funds, amount) is Err {
        Some(ContractError::Std(record_withdrawal(s.funds, amount)->Err_0))
    } else {
        None
    }
}

/// What a withdrawal of an oracle's earnings does: the amount leaves the
/// oracle's earnings and the allocated funds, and the token ledger is asked
/// to transfer it.
pub open spec fn withdraw_payment(
    s: AggregatorView,
    sender: Addr,
    oracle: Addr,
    recipient: String,
    amount: u128,
) -> Result<Outcome, ContractError> {
    match withdraw_payment_fault(s, sender, oracle, amount) {
        Some(fault) => Err(fault),
        None => Ok(
            Outcome {
                state: AggregatorView {
                    oracles: s.oracles.insert(
                        oracle@,
                        OracleStatus {
                            withdrawable: (s.oracles[oracle@].withdrawable - amount) as u128,
                            ..s.oracles[oracle@]
                        },
                    ),
                    funds: record_withdrawal(s.funds, amount)->Ok_0,
                    ..s
                },
                messages: seq![Message::Transfer { token: s.config.link, recipient, amount }],
                events: Seq::empty(),
                data: None,
            },
        )
    }
}

/// What a withdrawal of free funds does: nothing to the state; the token
/// ledger is asked to transfer the amount, and the aggregator to reconcile
/// its funds afterwards. The reserve for the active oracles cannot be
/// withdrawn.
pub open spec fn withdraw_funds(
    s: AggregatorView,
    contract: Addr,
    sender: Addr,
    recipient: String,
    amount: u128,
) -> Result<Outcome, ContractError> {
    if !is_owner(s, sender) {
        Err(ContractError::NotOwner {  })
    } else if s.funds.available - reserve_of(s.config.payment_amount, oracle_count(s)) < amount {
        Err(ContractError::InsufficientReserveFunds {  })
    } else {
        Ok(
            Outcome {
                state: s,
                messages: seq![
                    Message::Transfer { token: s.config.link, recipient, amount },
                    Message::UpdateAvailableFunds { contract },
                ],
                events: Seq::empty(),
                data: None,
            },
        )
    }
}

/// What the reconciliation with the token ledger does: the available funds
/// become the balance less the allocated funds, and this is reported where it
/// changes them.
pub open spec fn update_available_funds(s: AggregatorView, balance: u128) -> Result<
    Outcome,
    ContractError,
> {
    match refresh_available(s.funds, balance) {
        Err(error) => Err(ContractError::Std(error)),
        Ok(funds) => Ok(
            Outcome {
                state: AggregatorView { funds, ..s },
                messages: Seq::empty(),
                events: if s.funds.available == funds.available {
                    Seq::empty()
                } else {
                    seq![Event::AvailableFundsUpdated { amount: funds.available }]
                },
                data: None,
            },
        ),
    }
}

/// The record of a requester: the one it has, or that of a requester never
/// authorised.
pub open spec fn requester_of(s: AggregatorView, requester: Addr) -> Requester {
    if s.requesters.contains_key(requester@) {
        s.requesters[requester@]
    } else {
        Requester { authorized: false, delay: 0, last_started_round: 0 }
    }
}

/// What setting the permission of a requester does: nothing where the
/// permission is as asked already; else the requester is recorded with the
/// delay, or its record is deleted.
pub open spec fn set_requester_permissions(
    s: AggregatorView,
    sender: Addr,
    requester: Addr,
    authorized: bool,
    delay: u32,
) -> Result<Outcome, ContractError> {
    let current = requester_of(s, requester);
    if !is_owner(s, sender) {
        Err(ContractError::NotOwner {  })
    } else if current.authorized == authorized {
        Ok(silent(s))
    } else {
        Ok(
            Outcome {
                state: AggregatorView {
                    requesters: if authorized {
                        s.requesters.insert(requester@, Requester { authorized, delay, ..current })
                    } else {
                        s.requesters.remove(requester@)
                    },
                    ..s
                },
                messages: Seq::empty(),
                events: seq![Event::RequesterPermissionSet { requester, authorized, delay }],
                data: None,
            },
        )
    }
}

/// What setting the validator does: nothing where it is the validator
/// already; else it replaces the validator.
pub open spec fn set_validator(s: AggregatorView, sender: Addr, validator: Addr) -> Result<
    Outcome,
    ContractError,
> {
    if !is_owner(s, sender) {
        Err(ContractError::NotOwner {  })
    } else if s.config.validator@ == validator@ {
        Ok(silent(s))
    } else {
        Ok(
            Outcome {
                state: AggregatorView { config: Config { validator, ..s.config }, ..s },
                messages: Seq::empty(),
                events: seq![Event::ValidatorUpdated { previous: s.config.validator, new: validator }],
                data: None,
            },
        )
    }
}

/// What the report of a token transfer does: the aggregator is asked to
/// reconcile its funds. A transfer with a payload is rejected.
pub open spec fn receive(s: AggregatorView, contract: Addr, payload: Seq<u8>) -> Result<
    Outcome,
    ContractError,
> {
    if payload.len() != 0 {
        Err(ContractError::UnexpectedReceivePayload {  })
    } else {
        Ok(
            Outcome {
                state: s,
                messages: seq![Message::UpdateAvailableFunds { contract }],
                events: Seq::empty(),
                data: None,
            },
        )
    }
}

/// What the proposal of a new owner does.
pub open spec fn transfer_ownership(s: AggregatorView, sender: Addr, to: Addr) -> Result<
    Outcome,
    ContractError,
> {
    if !is_owner(s, sender) {
        Err(ContractError::Owned(crate::error::OwnedError::OnlyOwner {  }))
    } else {
        Ok(
            Outcome {
                state: AggregatorView {
                    owner: owned::State { owner: s.owner.owner, pending_owner: Some(to) },
                    ..s
                },
                messages: Seq::empty(),
                events: seq![Event::OwnershipTransferred { pending_owner: to }],
                data: None,
            },
        )
    }
}

/// What the acceptance of the ownership does.
pub open spec fn accept_ownership(s: AggregatorView, sender: Addr) -> Result<
    Outcome,
    ContractError,
> {
    if !owned::is_proposed(s.owner, sender) {
        Err(ContractError::Owned(crate::error::OwnedError::MustBeProposed {  }))
    } else {
        Ok(
            Outcome {
                state: AggregatorView {
                    owner: owned::State { owner: sender, pending_owner: None },
                    ..s
                },
                messages: Seq::empty(),
                events: seq![Event::OwnershipAccepted { owner: sender }],
                data: None,
            },
        )
    }
}

/// What a call does, by the message that asks for it.
pub open spec fn execute(
    s: AggregatorView,
    contract: Addr,
    now: u64,
    sender: Addr,
    msg: ExecuteMsg,
) -> Result<Outcome, ContractError> {
    match msg {
        ExecuteMsg::Submit { round_id, submission } => submit(
            s,
            sender,
            round_id,
            submission,
            now,
        ),
        ExecuteMsg::ChangeOracles {
            removed,
            added,
            added_admins,
            min_submissions,
            max_submissions,
            restart_delay,
        } => change_oracles(
            s,
            sender,
            removed@,
            added@,
            added_admins@,
            min_submissions,
            max_submissions,
            restart_delay,
        ),
        ExecuteMsg::WithdrawPayment { oracle, recipient, amount } => withdraw_payment(
            s,
            sender,
            oracle,
            recipient,
            amount,
        ),
        ExecuteMsg::WithdrawFunds { recipient, amount } => withdraw_funds(
            s,
            contract,
            sender,
            recipient,
            amount,
        ),
        ExecuteMsg::TransferAdmin { oracle, new_admin } => transfer_admin(
            s,
            sender,
            oracle,
            new_admin,
        ),
        ExecuteMsg::AcceptAdmin { oracle } => accept_admin(s, sender, oracle),
        ExecuteMsg::RequestNewRound {  } => request_new_round(s, sender, now),
        ExecuteMsg::SetRequesterPermissions { requester, authorized, delay } => {
            set_requester_permissions(s, sender, requester, authorized, delay)
        },
        ExecuteMsg::UpdateFutureRounds {
            payment_amount,
            min_submissions,
            max_submissions,
            restart_delay,
            timeout,
        } => update_future_rounds(
            s,
            sender,
            payment_amount,
            min_submissions,
            max_submissions,
            restart_delay,
            timeout,
        ),
        ExecuteMsg::UpdateAvailableFunds { balance } => update_available_funds(s, balance),
        ExecuteMsg::SetValidator { validator } => set_validator(s, sender, validator),
        ExecuteMsg::Receive(receive_msg) => receive(s, contract, receive_msg.msg@),
        ExecuteMsg::TransferOwnership { to } => transfer_ownership(s, sender, to),
        ExecuteMsg::AcceptOwnership {  } => accept_ownership(s, sender),
    }
}

/// Why an aggregator cannot be created with these settings, if it cannot:
/// the lower bound of the values is above the upper bound, or the timeout is
/// larger than the time of creation in seconds, taken modulo 2^32.
pub open spec fn instantiate_fault(now: u64, msg: InstantiateMsg) -> Option<ContractError> {
    if msg.min_submission_value > msg.max_submission_value {
        Some(ContractError::MinGreaterThanMax {  })
    } else if now % 0x1_0000_0000 < msg.timeout {
        Some(ContractError::Std(sub_overflow((now % 0x1_0000_0000) as u128, msg.timeout as u128)))
    } else {
        None
    }
}

/// The state of an aggregator that `sender` has just created at `now`:
/// no oracle, no requester, no funds, no limits yet, and round 0 alone.
pub open spec fn instantiate_state(now: u64, sender: Addr, msg: InstantiateMsg) -> AggregatorView {
    AggregatorView {
        owner: owned::State { owner: sender, pending_owner: None },
        config: Config {
            link: msg.link,
            validator: msg.validator,
            payment_amount: msg.payment_amount,
            max_submission_count: 0,
            min_submission_count: 0,
            restart_delay: 0,
            timeout: msg.timeout,
            decimals: msg.decimals,
            description: msg.description,
            min_submission_value: msg.min_submission_value,
            max_submission_value: msg.max_submission_value,
        },
        funds: Funds { available: 0, allocated: 0 },
        oracles: Map::empty(),
        oracle_addresses: Seq::empty(),
        rounds: seq![
            Round {
                answer: None,
                started_at: None,
                updated_at: None,
                answered_in_round: (now % 0x1_0000_0000 - msg.timeout) as u32,
            },
        ],
        details: seq![None],
        requesters: Map::empty(),
        reporting_round_id: 0,
        latest_round_id: 0,
    }
}

} // verus!
