//! The calls of the aggregator.

use crate::addr::{copy_addrs, Addr, AddrMap};
use crate::error::{checked_add, checked_sub, missing, sub_overflow, ContractError};
use crate::median::calculate_median;
use crate::model;
use crate::msg::{
    ConfigResponse, Env, Event, ExecuteMsg, InstantiateMsg, Message, MessageInfo, QueryMsg,
    QueryResponse, ReceiveMsg, Response, RoundDataResponse, Timestamp,
};
use crate::owned;
use crate::state::{
    Aggregator, Config, Funds, OracleStatus, Requester, Round, RoundDetails, MAX_ORACLE_COUNT,
    RESERVE_ROUNDS, ROUND_MAX,
};
use cosmwasm_std::StdError;
use vstd::prelude::*;

verus! {

/// The id of the round before `round_id`. Round 0 has none: for it the
/// result is the error of subtracting 1 from 0.
pub fn prev_round_id(round_id: u32) -> (res: Result<u32, StdError>)
    ensures
        match res {
            Ok(prev) => round_id > 0 && prev == round_id - 1,
            Err(error) => round_id == 0 && error == sub_overflow(0, 1),
        },
{
    match checked_sub(round_id as u128, 1) {
        Ok(prev) => Ok(prev as u32),
        Err(error) => Err(error),
    }
}

/// The whole seconds of a point in time.
pub fn timestamp_to_seconds(time: Timestamp) -> (seconds: u64)
    ensures
        seconds == model::seconds_of(time.nanos),
{
    time.nanos / 1_000_000_000
}

/// Whether a round with these details takes submissions at all.
pub fn is_accepting_submissions(details: &RoundDetails) -> (accepting: bool)
    ensures
        accepting == (details.max_submissions != 0),
{
    details.max_submissions != 0
}

/// Whether the round has timed out at `timestamp`.
pub fn timed_out(state: &Aggregator, round_id: u32, timestamp: u64) -> (res: bool)
    ensures
        res == model::timed_out(state@, round_id as int, timestamp),
{
    let i = round_id as usize;
    if i >= state.rounds.len() || i >= state.details.len() {
        return false;
    }
    match (&state.details[i], state.rounds[i].started_at) {
        (Some(details), Some(started)) => {
            details.timeout > 0 && (started as u128) + (details.timeout as u128) < (
            timestamp as u128)
        },
        _ => false,
    }
}

/// Whether the round can be superseded at `timestamp`.
pub fn is_supersedable(state: &Aggregator, round_id: u32, timestamp: u64) -> (res: bool)
    ensures
        res == model::is_supersedable(state@, round_id as int, timestamp),
{
    let i = round_id as usize;
    if i >= state.rounds.len() {
        return false;
    }
    state.rounds[i].updated_at.is_some() || timed_out(state, round_id, timestamp)
}

/// Checks that the oracle may report to the round: that it is enabled for
/// the round, has not reported to it or a later one, that the round is the
/// reporting round, the one after it, or the one before it while the
/// reporting round is unanswered, and that the round before can be
/// superseded.
pub fn validate_oracle_round(
    state: &Aggregator,
    oracle: &OracleStatus,
    round_id: u32,
    timestamp: u64,
) -> (res: Result<(), ContractError>)
    requires
        state.wf(),
    ensures
        match model::oracle_round_fault(state@, *oracle, round_id, timestamp) {
            Some(fault) => res matches Err(error) && error == fault,
            None => res is Ok,
        },
{
    let rr_id = state.reporting_round_id;
    if oracle.starting_round == 0 {
        return Err(ContractError::OracleNotEnabled {  });
    }
    if oracle.starting_round > round_id {
        return Err(ContractError::OracleNotYetEnabled {  });
    }
    if oracle.ending_round < round_id {
        return Err(ContractError::NoLongerAllowed {  });
    }
    let reported = match oracle.last_reported_round {
        Some(last) => last >= round_id,
        None => false,
    };
    if reported {
        return Err(ContractError::ReportingPreviousRound {  });
    }
    let unanswered = (round_id as u64) + 1 == (rr_id as u64) && state.rounds[rr_id as usize].updated_at.is_none();
    if round_id != rr_id && (round_id as u64) != (rr_id as u64) + 1 && !unanswered {
        return Err(ContractError::InvalidRound {  });
    }
    if round_id != 1 && !is_supersedable(state, round_id - 1, timestamp) {
        return Err(ContractError::NotSupersedable {  });
    }
    Ok(())
}

/// Opens the round after the reporting round at `timestamp`, under the
/// current configuration. Where the reporting round has timed out without
/// ever being settled, it takes over the answer of the round before it and
/// stops taking submissions.
fn initialize_new_round(state: &mut Aggregator, round_id: u32, timestamp: u64)
    requires
        old(state).wf(),
        round_id == old(state).reporting_round_id + 1,
    ensures
        final(state).wf(),
        final(state)@ == model::open_round(old(state)@, timestamp),
{
    let ghost before = state@;
    let timed_out_round = state.reporting_round_id;
    if timed_out(state, timed_out_round, timestamp)
        && state.rounds[timed_out_round as usize].updated_at.is_none() {
        let i = timed_out_round as usize;
        let prev_round = state.rounds[i - 1];
        let round = state.rounds[i];
        state.rounds[i] = Round {
            answer: prev_round.answer,
            answered_in_round: prev_round.answered_in_round,
            updated_at: Some(timestamp),
            started_at: round.started_at,
        };
        state.details[i] = None;
    }
    state.reporting_round_id = round_id;
    state.rounds.push(
        Round { answer: None, started_at: Some(timestamp), updated_at: None, answered_in_round: 0 },
    );
    state.details.push(
        Some(
            RoundDetails {
                submissions: Vec::new(),
                max_submissions: state.config.max_submission_count,
                min_submissions: state.config.min_submission_count,
                timeout: state.config.timeout,
                payment_amount: state.config.payment_amount,
            },
        ),
    );
    proof {
        let after = model::open_round(before, timestamp);
        assert(state@.details =~= after.details);
        assert(state@.rounds =~= after.rounds);
        assert(state@ =~= after);
    }
}

/// Records the submission of `info.sender` for a round, opens the round
/// where the submission is the first for the round after the reporting
/// round, settles the round on the median of its submissions once the quorum
/// is reached and at every submission after that, pays the oracle, and closes
/// the round once it has as many submissions as it takes. A rejected
/// submission leaves the state as it was.
pub fn execute_submit(
    state: &mut Aggregator,
    env: &Env,
    info: &MessageInfo,
    round_id: u32,
    submission: u128,
) -> (res: Result<Response, ContractError>)
    requires
        old(state).wf(),
    ensures
        final(state).wf(),
        model::agrees(
            old(state)@,
            final(state)@,
            res,
            model::submit(
                old(state)@,
                info.sender,
                round_id,
                submission,
                model::seconds_of(env.time.nanos),
            ),
        ),
{
    let ghost before = state@;
    if submission < state.config.min_submission_value {
        return Err(ContractError::UnderMin {  });
    }
    if submission > state.config.max_submission_value {
        return Err(ContractError::OverMax {  });
    }
    let timestamp = timestamp_to_seconds(env.time);
    let mut oracle = match state.oracles.get(&info.sender) {
        Some(found) => found.clone(),
        None => {
            return Err(ContractError::Std(missing("flux_aggregator::state::OracleStatus")));
        },
    };
    let ghost status = oracle;
    match validate_oracle_round(state, &oracle, round_id, timestamp) {
        Err(fault) => {
            return Err(fault);
        },
        Ok(_) => {},
    }
    let rr_id = state.reporting_round_id;
    let waited = match oracle.last_started_round {
        Some(last) => (round_id as u64) > (last as u64) + (state.config.restart_delay as u64),
        None => true,
    };
    let opening = (round_id as u64) == (rr_id as u64) + 1 && waited;
    let ghost base = model::submit_base(before, status, round_id, timestamp);
    let mut round_details = if opening {
        RoundDetails {
            submissions: Vec::new(),
            max_submissions: state.config.max_submission_count,
            min_submissions: state.config.min_submission_count,
            timeout: state.config.timeout,
            payment_amount: state.config.payment_amount,
        }
    } else {
        let i = round_id as usize;
        if i >= state.details.len() {
            return Err(ContractError::NotAcceptingSubmissions {  });
        }
        match &state.details[i] {
            Some(found) => found.clone(),
            None => {
                return Err(ContractError::NotAcceptingSubmissions {  });
            },
        }
    };
    assert(base.details[round_id as int] == Some(round_details@));
    if !is_accepting_submissions(&round_details) {
        return Err(ContractError::NotAcceptingSubmissions {  });
    }
    let payment = round_details.payment_amount;
    let mut funds = state.funds;
    match funds.record_payment(payment) {
        Err(error) => {
            return Err(ContractError::Std(error));
        },
        Ok(_) => {},
    }
    let withdrawable = match checked_add(oracle.withdrawable, payment) {
        Ok(sum) => sum,
        Err(error) => {
            return Err(ContractError::Std(error));
        },
    };
    let ghost earlier = round_details@;
    round_details.submissions.push(submission);
    let count = round_details.submissions.len();
    let resolved = count >= round_details.min_submissions as usize;
    let mut answer: u128 = 0;
    if resolved {
        let mut ranked = round_details.clone().submissions;
        match calculate_median(&mut ranked) {
            Ok(median) => {
                answer = median;
            },
            Err(_) => {
                return Err(ContractError::NoSubmissions {  });
            },
        }
    }
    // Every check has passed: from here on the state changes.

    let mut events: Vec<Event> = Vec::new();
    if opening {
        initialize_new_round(state, round_id, timestamp);
        oracle.last_started_round = Some(round_id);
        events.push(Event::NewRound { started_by: info.sender.clone(), started_at: timestamp });
    }
    assert(state@ == base);
    let i = round_id as usize;
    if resolved {
        let started_at = state.rounds[i].started_at;
        state.rounds[i] = Round {
            answer: Some(answer),
            started_at,
            updated_at: Some(timestamp),
            answered_in_round: round_id,
        };
        state.latest_round_id = round_id;
        events.push(Event::AnswerUpdated { current: answer, round_id });
    }
    state.funds = funds;
    oracle.withdrawable = withdrawable;
    oracle.last_reported_round = Some(round_id);
    oracle.latest_submission = Some(submission);
    state.oracles.insert(info.sender.clone(), oracle);
    if count < round_details.max_submissions as usize {
        state.details[i] = Some(round_details);
    } else {
        state.details[i] = None;
    }
    proof {
        let after = model::submit_state(before, info.sender, round_id, submission, timestamp);
        assert(earlier.submissions.push(submission) == round_details@.submissions);
        assert(state@.details =~= after.details);
        assert(state@.rounds =~= after.rounds);
        assert(state@.oracles =~= after.oracles);
        assert(state@ =~= after);
        assert(events@ =~= model::submit_events(
            before,
            info.sender,
            round_id,
            submission,
            timestamp,
        ));
    }
    Ok(Response { messages: Vec::new(), events, data: None })
}

/// A response that reports nothing.
fn empty_response() -> (response: Response)
    ensures
        response.messages@ == Seq::<Message>::empty(),
        response.events@ == Seq::<Event>::empty(),
        response.data is None,
{
    let response = Response { messages: Vec::new(), events: Vec::new(), data: None };
    assert(response.messages@ =~= Seq::<Message>::empty());
    assert(response.events@ =~= Seq::<Event>::empty());
    response
}

/// Checks that the sender owns the aggregator.
pub fn validate_ownership(state: &Aggregator, info: &MessageInfo) -> (res: Result<
    (),
    ContractError,
>)
    ensures
        model::is_owner(state@, info.sender) ==> res is Ok,
        !model::is_owner(state@, info.sender) ==> (res matches Err(error) && error == (
            ContractError::NotOwner {  })),
{
    if !info.sender.same(&state.owner.owner) {
        return Err(ContractError::NotOwner {  });
    }
    Ok(())
}

/// What must stay available to pay `oracle_count` oracles for two rounds at
/// `payment` each; `None` where that is more than any balance can be.
pub fn required_reserve(payment: u128, oracle_count: u8) -> (reserve: Option<u128>)
    ensures
        match reserve {
            Some(amount) => amount == model::reserve_of(payment, oracle_count as nat),
            None => model::reserve_of(payment, oracle_count as nat) > u128::MAX,
        },
{
    match payment.checked_mul(oracle_count as u128) {
        Some(per_round) => per_round.checked_mul(RESERVE_ROUNDS),
        None => {
            assert(payment * oracle_count * RESERVE_ROUNDS >= payment * oracle_count)
                by (nonlinear_arith)
                requires
                    payment * oracle_count >= 0,
                    RESERVE_ROUNDS == 2,
            ;
            None
        },
    }
}

/// The number of active oracles.
pub fn get_oracle_count(state: &Aggregator, env: &Env) -> (count: u8)
    requires
        state.wf(),
    ensures
        count == model::oracle_count(state@),
{
    state.oracle_addresses.len() as u8
}

/// Whether the available funds fall short of the reserve for the given
/// payment and the active oracles.
fn reserve_exceeds_available(state: &Aggregator, env: &Env, payment_amount: u128) -> (short: bool)
    requires
        state.wf(),
    ensures
        short == (state@.funds.available < model::reserve_of(
            payment_amount,
            model::oracle_count(state@),
        )),
{
    match required_reserve(payment_amount, get_oracle_count(state, env)) {
        Some(reserve) => state.funds.available < reserve,
        None => true,
    }
}

/// Removes an active oracle: its record stays, with the reporting round as
/// its last round, and it leaves the roster.
fn remove_oracle(state: &mut Aggregator, oracle: &Addr) -> (res: Result<(), ContractError>)
    requires
        old(state).wf(),
    ensures
        final(state).wf(),
        match model::remove_oracle_fault(old(state)@, *oracle) {
            Some(fault) => res matches Err(error) && error == fault && final(state)@ == old(
                state,
            )@,
            None => res is Ok && final(state)@ == model::remove_oracle(old(state)@, *oracle),
        },
{
    let ghost before = state@;
    let mut status = match state.oracles.get(oracle) {
        Some(found) => found.clone(),
        None => {
            return Err(ContractError::Std(missing("flux_aggregator::state::OracleStatus")));
        },
    };
    if status.ending_round != ROUND_MAX {
        return Err(ContractError::OracleNotEnabled {  });
    }
    let ghost keep = model::other_than(*oracle);
    let mut remaining: Vec<Addr> = Vec::new();
    let mut i: usize = 0;
    while i < state.oracle_addresses.len()
        invariant
            i <= state.oracle_addresses@.len(),
            keep == model::other_than(*oracle),
            remaining@ == state.oracle_addresses@.take(i as int).filter(keep),
            state@ == before,
        decreases state.oracle_addresses@.len() - i,
    {
        proof {
            broadcast use Seq::lemma_filter_push;

            state.oracle_addresses@.lemma_take_succ_push(i as int);
        }
        if !state.oracle_addresses[i].same(oracle) {
            remaining.push(state.oracle_addresses[i].clone());
        }
        i += 1;
    }
    proof {
        assert(state.oracle_addresses@.take(i as int) =~= state.oracle_addresses@);
        state.oracle_addresses@.lemma_filter_len(keep);
    }
    state.oracle_addresses = remaining;
    status.ending_round = state.reporting_round_id;
    state.oracles.insert(oracle.clone(), status);
    proof {
        assert(state@ =~= model::remove_oracle(before, *oracle));
    }
    Ok(())
}

/// Adds an oracle with its admin: it is active from its starting round on,
/// and stands last in the roster.
fn add_oracle(state: &mut Aggregator, oracle: Addr, admin: Addr) -> (res: Result<
    (),
    ContractError,
>)
    requires
        old(state).wf(),
        old(state).oracle_addresses@.len() < MAX_ORACLE_COUNT,
    ensures
        final(state).wf(),
        match model::add_oracle_fault(old(state)@, oracle, admin) {
            Some(fault) => res matches Err(error) && error == fault && final(state)@ == old(
                state,
            )@,
            None => res is Ok && final(state)@ == model::add_oracle(old(state)@, oracle, admin),
        },
{
    let ghost before = state@;
    let base = match state.oracles.get(&oracle) {
        Some(found) => {
            if found.ending_round == ROUND_MAX {
                return Err(ContractError::OracleNotEnabled {  });
            }
            if !found.admin.same(&admin) {
                return Err(ContractError::OverwritingAdmin {  });
            }
            found.clone()
        },
        None => OracleStatus {
            withdrawable: 0,
            starting_round: 0,
            ending_round: 0,
            last_reported_round: None,
            last_started_round: None,
            latest_submission: None,
            index: 0,
            admin: admin.clone(),
            pending_admin: None,
        },
    };
    let current_round = state.reporting_round_id;
    if current_round == ROUND_MAX {
        return Err(ContractError::InvalidRound {  });
    }
    let starting_round = if current_round != 0 && current_round == base.ending_round {
        current_round
    } else {
        current_round + 1
    };
    let index = state.oracle_addresses.len() as u16;
    let status = OracleStatus {
        withdrawable: base.withdrawable,
        starting_round,
        ending_round: ROUND_MAX,
        last_reported_round: base.last_reported_round,
        last_started_round: base.last_started_round,
        latest_submission: base.latest_submission,
        index,
        admin,
        pending_admin: base.pending_admin,
    };
    state.oracles.insert(oracle.clone(), status);
    state.oracle_addresses.push(oracle);
    proof {
        assert(state@ =~= model::add_oracle(before, oracle, admin));
    }
    Ok(())
}

/// Replaces the settings for future rounds. Only the owner may; the limits
/// must fit the number of active oracles, and the available funds must cover
/// the reserve at the new payment. Rounds that are open keep their settings.
pub fn execute_update_future_rounds(
    state: &mut Aggregator,
    env: &Env,
    info: &MessageInfo,
    payment_amount: u128,
    min_submissions: u32,
    max_submissions: u32,
    restart_delay: u32,
    timeout: u32,
) -> (res: Result<Response, ContractError>)
    requires
        old(state).wf(),
    ensures
        final(state).wf(),
        model::agrees(
            old(state)@,
            final(state)@,
            res,
            model::update_future_rounds(
                old(state)@,
                info.sender,
                payment_amount,
                min_submissions,
                max_submissions,
                restart_delay,
                timeout,
            ),
        ),
{
    let ghost before = state@;
    match validate_ownership(state, info) {
        Err(fault) => {
            return Err(fault);
        },
        Ok(_) => {},
    }
    let oracle_count = get_oracle_count(state, env);
    if min_submissions > max_submissions {
        return Err(ContractError::MinGreaterThanMax {  });
    }
    if (oracle_count as u32) < max_submissions {
        return Err(ContractError::MaxGreaterThanTotal {  });
    }
    if oracle_count != 0 && (oracle_count as u32) <= restart_delay {
        return Err(ContractError::DelayGreaterThanTotal {  });
    }
    if reserve_exceeds_available(state, env, payment_amount) {
        return Err(ContractError::InsufficientFunds {  });
    }
    if oracle_count > 0 && min_submissions == 0 {
        return Err(ContractError::MinLessThanZero {  });
    }
    state.config.payment_amount = payment_amount;
    state.config.min_submission_count = min_submissions;
    state.config.max_submission_count = max_submissions;
    state.config.restart_delay = restart_delay;
    state.config.timeout = timeout;
    let mut events: Vec<Event> = Vec::new();
    events.push(
        Event::RoundDetailsUpdated {
            payment_amount,
            min_submissions,
            max_submissions,
            restart_delay,
            timeout,
        },
    );
    proof {
        let expected = model::update_future_rounds(
            before,
            info.sender,
            payment_amount,
            min_submissions,
            max_submissions,
            restart_delay,
            timeout,
        )->Ok_0;
        assert(state@ =~= expected.state);
        assert(events@ =~= expected.events);
    }
    Ok(Response { messages: Vec::new(), events, data: None })
}

/// Removes and adds oracles, then sets the limits for future rounds at the
/// payment and timeout in force. Only the owner may. Where any step fails,
/// the whole call is rejected and the state stays as it was.
pub fn execute_change_oracles(
    state: &mut Aggregator,
    env: &Env,
    info: &MessageInfo,
    removed: Vec<Addr>,
    added: Vec<Addr>,
    added_admins: Vec<Addr>,
    min_submissions: u32,
    max_submissions: u32,
    restart_delay: u32,
) -> (res: Result<Response, ContractError>)
    requires
        old(state).wf(),
    ensures
        final(state).wf(),
        model::agrees(
            old(state)@,
            final(state)@,
            res,
            model::change_oracles(
                old(state)@,
                info.sender,
                removed@,
                added@,
                added_admins@,
                min_submissions,
                max_submissions,
                restart_delay,
            ),
        ),
{
    let ghost before = state@;
    match validate_ownership(state, info) {
        Err(fault) => {
            return Err(fault);
        },
        Ok(_) => {},
    }
    let saved_oracles = state.oracles.duplicate();
    let saved_addresses = copy_addrs(&state.oracle_addresses);
    let mut i: usize = 0;
    assert(removed@.skip(0) =~= removed@);
    while i < removed.len()
        invariant
            i <= removed@.len(),
            state.wf(),
            saved_oracles.wf(),
            saved_oracles@ == before.oracles,
            saved_addresses@ == before.oracle_addresses,
            before.wf(),
            before == (crate::state::AggregatorView {
                oracles: before.oracles,
                oracle_addresses: before.oracle_addresses,
                ..state@
            }),
            before == old(state)@,
            model::is_owner(before, info.sender),
            model::remove_oracles(before, removed@) == model::remove_oracles(
                state@,
                removed@.skip(i as int),
            ),
        decreases removed@.len() - i,
    {
        proof {
            assert(removed@.skip(i as int).drop_first() =~= removed@.skip(i + 1));
            assert(removed@.skip(i as int)[0] == removed@[i as int]);
        }
        match remove_oracle(state, &removed[i]) {
            Err(fault) => {
                state.oracles = saved_oracles;
                state.oracle_addresses = saved_addresses;
                assert(state@ =~= before);
                return Err(fault);
            },
            Ok(_) => {},
        }
        i += 1;
    }
    let ghost fewer = state@;
    assert(model::remove_oracles(before, removed@) == Ok::<
        crate::state::AggregatorView,
        ContractError,
    >(fewer));
    if added.len() != added_admins.len() {
        state.oracles = saved_oracles;
        state.oracle_addresses = saved_addresses;
        assert(state@ =~= before);
        return Err(ContractError::OracleAdminCountMismatch {  });
    }
    if added.len() > MAX_ORACLE_COUNT - state.oracle_addresses.len() {
        state.oracles = saved_oracles;
        state.oracle_addresses = saved_addresses;
        assert(state@ =~= before);
        return Err(ContractError::MaxOraclesAllowed {  });
    }
    let mut j: usize = 0;
    assert(added@.skip(0) =~= added@);
    assert(added_admins@.skip(0) =~= added_admins@);
    while j < added.len()
        invariant
            j <= added@.len(),
            added@.len() == added_admins@.len(),
            state.wf(),
            state.oracle_addresses@.len() + added@.len() - j <= MAX_ORACLE_COUNT,
            saved_oracles.wf(),
            saved_oracles@ == before.oracles,
            saved_addresses@ == before.oracle_addresses,
            before.wf(),
            before == (crate::state::AggregatorView {
                oracles: before.oracles,
                oracle_addresses: before.oracle_addresses,
                ..state@
            }),
            before == old(state)@,
            model::is_owner(before, info.sender),
            model::remove_oracles(before, removed@) == Ok::<
                crate::state::AggregatorView,
                ContractError,
            >(fewer),
            model::oracle_count(fewer) + added@.len() <= MAX_ORACLE_COUNT,
            model::add_oracles(fewer, added@, added_admins@) == model::add_oracles(
                state@,
                added@.skip(j as int),
                added_admins@.skip(j as int),
            ),
        decreases added@.len() - j,
    {
        proof {
            assert(added@.skip(j as int).drop_first() =~= added@.skip(j + 1));
            assert(added_admins@.skip(j as int).drop_first() =~= added_admins@.skip(j + 1));
            assert(added@.skip(j as int)[0] == added@[j as int]);
            assert(added_admins@.skip(j as int)[0] == added_admins@[j as int]);
        }
        match add_oracle(state, added[j].clone(), added_admins[j].clone()) {
            Err(fault) => {
                state.oracles = saved_oracles;
                state.oracle_addresses = saved_addresses;
                assert(state@ =~= before);
                return Err(fault);
            },
            Ok(_) => {},
        }
        j += 1;
    }
    let payment_amount = state.config.payment_amount;
    let timeout = state.config.timeout;
    match execute_update_future_rounds(
        state,
        env,
        info,
        payment_amount,
        min_submissions,
        max_submissions,
        restart_delay,
        timeout,
    ) {
        Err(fault) => {
            state.oracles = saved_oracles;
            state.oracle_addresses = saved_addresses;
            assert(state@ =~= before);
            Err(fault)
        },
        Ok(response) => Ok(Response { messages: Vec::new(), events: response.events, data: None }),
    }
}

/// The admin of an oracle proposes a new admin. Anyone else is rejected.
pub fn execute_transfer_admin(
    state: &mut Aggregator,
    env: &Env,
    info: &MessageInfo,
    oracle: Addr,
    new_admin: Addr,
) -> (res: Result<Response, ContractError>)
    requires
        old(state).wf(),
    ensures
        final(state).wf(),
        model::agrees(
            old(state)@,
            final(state)@,
            res,
            model::transfer_admin(old(state)@, info.sender, oracle, new_admin),
        ),
{
    let ghost before = state@;
    let mut status = match state.oracles.get(&oracle) {
        Some(found) => found.clone(),
        None => {
            return Err(ContractError::NotAdmin {  });
        },
    };
    if !status.admin.same(&info.sender) {
        return Err(ContractError::NotAdmin {  });
    }
    status.pending_admin = Some(new_admin.clone());
    state.oracles.insert(oracle.clone(), status);
    let mut events: Vec<Event> = Vec::new();
    events.push(Event::TransferAdmin { oracle, sender: info.sender.clone(), new_admin });
    proof {
        let expected = model::transfer_admin(before, info.sender, oracle, new_admin)->Ok_0;
        assert(state@ =~= expected.state);
        assert(events@ =~= expected.events);
    }
    Ok(Response { messages: Vec::new(), events, data: None })
}

/// The proposed admin of an oracle takes over. Anyone else is rejected.
pub fn execute_accept_admin(
    state: &mut Aggregator,
    env: &Env,
    info: &MessageInfo,
    oracle: Addr,
) -> (res: Result<Response, ContractError>)
    requires
        old(state).wf(),
    ensures
        final(state).wf(),
        model::agrees(
            old(state)@,
            final(state)@,
            res,
            model::accept_admin(old(state)@, info.sender, oracle),
        ),
{
    let ghost before = state@;
    let mut status = match state.oracles.get(&oracle) {
        Some(found) => found.clone(),
        None => {
            return Err(ContractError::PendingAdminMissing {  });
        },
    };
    let proposed = match &status.pending_admin {
        Some(pending_admin) => pending_admin.same(&info.sender),
        None => {
            return Err(ContractError::PendingAdminMissing {  });
        },
    };
    if !proposed {
        return Err(ContractError::NotPendingAdmin {  });
    }
    status.admin = info.sender.clone();
    status.pending_admin = None;
    state.oracles.insert(oracle.clone(), status);
    let mut events: Vec<Event> = Vec::new();
    events.push(Event::OracleAdminUpdated { oracle, new_admin: info.sender.clone() });
    proof {
        let expected = model::accept_admin(before, info.sender, oracle)->Ok_0;
        assert(state@ =~= expected.state);
        assert(events@ =~= expected.events);
    }
    Ok(Response { messages: Vec::new(), events, data: None })
}

/// An authorised requester opens the round after the reporting round, once
/// the reporting round can be superseded and the requester has waited out
/// its delay. The response holds the id of the new round.
pub fn execute_request_new_round(state: &mut Aggregator, env: &Env, info: &MessageInfo) -> (res:
    Result<Response, ContractError>)
    requires
        old(state).wf(),
    ensures
        final(state).wf(),
        model::agrees(
            old(state)@,
            final(state)@,
            res,
            model::request_new_round(
                old(state)@,
                info.sender,
                model::seconds_of(env.time.nanos),
            ),
        ),
{
    let ghost before = state@;
    let requester = match state.requesters.get(&info.sender) {
        Some(found) => *found,
        None => {
            return Err(ContractError::Unauthorized {  });
        },
    };
    if !requester.authorized {
        return Err(ContractError::Unauthorized {  });
    }
    let current_round_id = state.reporting_round_id;
    let timestamp = timestamp_to_seconds(env.time);
    if !is_supersedable(state, current_round_id, timestamp) {
        return Err(ContractError::NotSupersedable {  });
    }
    if current_round_id == ROUND_MAX {
        return Err(ContractError::InvalidRound {  });
    }
    let new_round_id = current_round_id + 1;
    if (new_round_id as u64) <= (requester.last_started_round as u64) + (requester.delay as u64)
        && requester.last_started_round != 0 {
        return Err(ContractError::DelayNotRespected {  });
    }
    initialize_new_round(state, new_round_id, timestamp);
    state.requesters.insert(
        info.sender.clone(),
        Requester {
            authorized: requester.authorized,
            delay: requester.delay,
            last_started_round: new_round_id,
        },
    );
    proof {
        let expected = model::request_new_round(before, info.sender, timestamp)->Ok_0;
        assert(state@ =~= expected.state);
    }
    Ok(Response { messages: Vec::new(), events: Vec::new(), data: Some(new_round_id) })
}

/// The admin of an oracle withdraws from the oracle's earnings: the amount
/// leaves the earnings and the allocated funds, and the response asks the
/// token ledger to transfer it to the recipient.
pub fn execute_withdraw_payment(
    state: &mut Aggregator,
    env: &Env,
    info: &MessageInfo,
    oracle: Addr,
    recipient: String,
    amount: u128,
) -> (res: Result<Response, ContractError>)
    requires
        old(state).wf(),
    ensures
        final(state).wf(),
        model::agrees(
            old(state)@,
            final(state)@,
            res,
            model::withdraw_payment(old(state)@, info.sender, oracle, recipient, amount),
        ),
{
    let ghost before = state@;
    let mut status = match state.oracles.get(&oracle) {
        Some(found) => found.clone(),
        None => {
            return Err(ContractError::Std(missing("flux_aggregator::state::OracleStatus")));
        },
    };
    if !status.admin.same(&info.sender) {
        return Err(ContractError::NotAdmin {  });
    }
    if status.withdrawable < amount {
        return Err(ContractError::InsufficientWithdrawableFunds {  });
    }
    let mut funds = state.funds;
    match funds.record_withdrawal(amount) {
        Err(error) => {
            return Err(ContractError::Std(error));
        },
        Ok(_) => {},
    }
    status.withdrawable = status.withdrawable - amount;
    state.oracles.insert(oracle.clone(), status);
    state.funds = funds;
    let mut messages: Vec<Message> = Vec::new();
    messages.push(Message::Transfer { token: state.config.link.clone(), recipient, amount });
    proof {
        let expected = model::withdraw_payment(
            before,
            info.sender,
            oracle,
            recipient,
            amount,
        )->Ok_0;
        assert(state@ =~= expected.state);
        assert(messages@ =~= expected.messages);
    }
    Ok(Response { messages, events: Vec::new(), data: None })
}

/// The owner withdraws free funds: the response asks the token ledger to
/// transfer the amount to the recipient and the aggregator to reconcile its
/// funds afterwards. What the reserve needs cannot be withdrawn. The state
/// does not change.
pub fn execute_withdraw_funds(
    state: &mut Aggregator,
    env: &Env,
    info: &MessageInfo,
    recipient: String,
    amount: u128,
) -> (res: Result<Response, ContractError>)
    requires
        old(state).wf(),
    ensures
        final(state).wf(),
        final(state)@ == old(state)@,
        model::agrees(
            old(state)@,
            final(state)@,
            res,
            model::withdraw_funds(
                old(state)@,
                env.contract_address,
                info.sender,
                recipient,
                amount,
            ),
        ),
{
    match validate_ownership(state, info) {
        Err(fault) => {
            return Err(fault);
        },
        Ok(_) => {},
    }
    let reserve = match required_reserve(state.config.payment_amount, get_oracle_count(state, env)) {
        Some(reserve) => reserve,
        None => {
            return Err(ContractError::InsufficientReserveFunds {  });
        },
    };
    if state.funds.available < reserve || state.funds.available - reserve < amount {
        return Err(ContractError::InsufficientReserveFunds {  });
    }
    let mut messages: Vec<Message> = Vec::new();
    messages.push(Message::Transfer { token: state.config.link.clone(), recipient, amount });
    messages.push(Message::UpdateAvailableFunds { contract: env.contract_address.clone() });
    proof {
        let expected = model::withdraw_funds(
            state@,
            env.contract_address,
            info.sender,
            recipient,
            amount,
        )->Ok_0;
        assert(messages@ =~= expected.messages);
    }
    Ok(Response { messages, events: Vec::new(), data: None })
}

/// Reconciles the available funds with `balance`, the aggregator's balance
/// as the token ledger has just reported it: they become the balance less
/// the allocated funds. A balance below the allocated funds is rejected.
pub fn execute_update_available_funds(
    state: &mut Aggregator,
    env: &Env,
    info: &MessageInfo,
    balance: u128,
) -> (res: Result<Response, ContractError>)
    requires
        old(state).wf(),
    ensures
        final(state).wf(),
        model::agrees(
            old(state)@,
            final(state)@,
            res,
            model::update_available_funds(old(state)@, balance),
        ),
{
    let ghost before = state@;
    let mut funds = state.funds;
    let changed = match funds.refresh_available(balance) {
        Ok(changed) => changed,
        Err(error) => {
            return Err(ContractError::Std(error));
        },
    };
    if !changed {
        assert(state@ =~= model::update_available_funds(before, balance)->Ok_0.state);
        return Ok(empty_response());
    }
    state.funds = funds;
    let mut events: Vec<Event> = Vec::new();
    events.push(Event::AvailableFundsUpdated { amount: funds.available });
    proof {
        let expected = model::update_available_funds(before, balance)->Ok_0;
        assert(state@ =~= expected.state);
        assert(events@ =~= expected.events);
    }
    Ok(Response { messages: Vec::new(), events, data: None })
}

/// The owner authorises a requester, with the delay it must keep between
/// the rounds it starts, or deauthorises it, which deletes its record.
/// Nothing happens where the permission is as asked already.
pub fn execute_set_requester_permissions(
    state: &mut Aggregator,
    env: &Env,
    info: &MessageInfo,
    requester: Addr,
    authorized: bool,
    delay: u32,
) -> (res: Result<Response, ContractError>)
    requires
        old(state).wf(),
    ensures
        final(state).wf(),
        model::agrees(
            old(state)@,
            final(state)@,
            res,
            model::set_requester_permissions(
                old(state)@,
                info.sender,
                requester,
                authorized,
                delay,
            ),
        ),
{
    let ghost before = state@;
    match validate_ownership(state, info) {
        Err(fault) => {
            return Err(fault);
        },
        Ok(_) => {},
    }
    let current = match state.requesters.get(&requester) {
        Some(found) => *found,
        None => Requester { authorized: false, delay: 0, last_started_round: 0 },
    };
    if current.authorized == authorized {
        return Ok(empty_response());
    }
    if authorized {
        state.requesters.insert(
            requester.clone(),
            Requester { authorized, delay, last_started_round: current.last_started_round },
        );
    } else {
        state.requesters.remove(&requester);
    }
    let mut events: Vec<Event> = Vec::new();
    events.push(Event::RequesterPermissionSet { requester, authorized, delay });
    proof {
        let expected = model::set_requester_permissions(
            before,
            info.sender,
            requester,
            authorized,
            delay,
        )->Ok_0;
        assert(state@ =~= expected.state);
        assert(events@ =~= expected.events);
    }
    Ok(Response { messages: Vec::new(), events, data: None })
}

/// The owner replaces the validator. Nothing happens where it is the
/// validator already.
pub fn execute_set_validator(
    state: &mut Aggregator,
    env: &Env,
    info: &MessageInfo,
    validator: Addr,
) -> (res: Result<Response, ContractError>)
    requires
        old(state).wf(),
    ensures
        final(state).wf(),
        model::agrees(
            old(state)@,
            final(state)@,
            res,
            model::set_validator(old(state)@, info.sender, validator),
        ),
{
    let ghost before = state@;
    match validate_ownership(state, info) {
        Err(fault) => {
            return Err(fault);
        },
        Ok(_) => {},
    }
    if state.config.validator.same(&validator) {
        return Ok(empty_response());
    }
    let previous = state.config.validator.clone();
    state.config.validator = validator.clone();
    let mut events: Vec<Event> = Vec::new();
    events.push(Event::ValidatorUpdated { previous, new: validator });
    proof {
        let expected = model::set_validator(before, info.sender, validator)->Ok_0;
        assert(state@ =~= expected.state);
        assert(events@ =~= expected.events);
    }
    Ok(Response { messages: Vec::new(), events, data: None })
}

/// The token ledger reports a transfer to the aggregator: the response asks
/// the aggregator to reconcile its funds. A transfer with a payload is
/// rejected. The state does not change.
pub fn execute_receive(
    state: &mut Aggregator,
    env: &Env,
    info: &MessageInfo,
    receive_msg: ReceiveMsg,
) -> (res: Result<Response, ContractError>)
    requires
        old(state).wf(),
    ensures
        final(state).wf(),
        final(state)@ == old(state)@,
        model::agrees(
            old(state)@,
            final(state)@,
            res,
            model::receive(old(state)@, env.contract_address, receive_msg.msg@),
        ),
{
    if receive_msg.msg.len() != 0 {
        return Err(ContractError::UnexpectedReceivePayload {  });
    }
    let mut messages: Vec<Message> = Vec::new();
    messages.push(Message::UpdateAvailableFunds { contract: env.contract_address.clone() });
    proof {
        let expected = model::receive(state@, env.contract_address, receive_msg.msg@)->Ok_0;
        assert(messages@ =~= expected.messages);
    }
    Ok(Response { messages, events: Vec::new(), data: None })
}

/// The proposed owner takes the ownership.
pub fn execute_accept_ownership(state: &mut Aggregator, env: &Env, info: &MessageInfo) -> (res:
    Result<Response, ContractError>)
    requires
        old(state).wf(),
    ensures
        final(state).wf(),
        model::agrees(
            old(state)@,
            final(state)@,
            res,
            model::accept_ownership(old(state)@, info.sender),
        ),
{
    let ghost before = state@;
    match owned::handle_accept_ownership(&mut state.owner, &info.sender) {
        Err(fault) => {
            return Err(ContractError::Owned(fault));
        },
        Ok(_) => {},
    }
    let mut events: Vec<Event> = Vec::new();
    events.push(Event::OwnershipAccepted { owner: info.sender.clone() });
    proof {
        let expected = model::accept_ownership(before, info.sender)->Ok_0;
        assert(state@ =~= expected.state);
        assert(events@ =~= expected.events);
    }
    Ok(Response { messages: Vec::new(), events, data: None })
}

/// The owner proposes `to` as the next owner.
pub fn execute_transfer_ownership(
    state: &mut Aggregator,
    env: &Env,
    info: &MessageInfo,
    to: Addr,
) -> (res: Result<Response, ContractError>)
    requires
        old(state).wf(),
    ensures
        final(state).wf(),
        model::agrees(
            old(state)@,
            final(state)@,
            res,
            model::transfer_ownership(old(state)@, info.sender, to),
        ),
{
    let ghost before = state@;
    match owned::handle_transfer_ownership(&mut state.owner, &info.sender, to.clone()) {
        Err(fault) => {
            return Err(ContractError::Owned(fault));
        },
        Ok(_) => {},
    }
    let mut events: Vec<Event> = Vec::new();
    events.push(Event::OwnershipTransferred { pending_owner: to });
    proof {
        let expected = model::transfer_ownership(before, info.sender, to)->Ok_0;
        assert(state@ =~= expected.state);
        assert(events@ =~= expected.events);
    }
    Ok(Response { messages: Vec::new(), events, data: None })
}

/// Creates an aggregator owned by the sender: no oracle, no requester, no
/// funds, no limits yet, and round 0 alone. Rejected where the lower bound of
/// the submission values is above the upper bound.
pub fn instantiate(env: &Env, info: &MessageInfo, msg: InstantiateMsg) -> (res: Result<
    (Aggregator, Response),
    ContractError,
>)
    ensures
        match model::instantiate_fault(model::seconds_of(env.time.nanos), msg) {
            Some(fault) => res matches Err(error) && error == fault,
            None => {
                &&& res matches Ok(created)
                &&& created.0.wf()
                &&& created.0@ == model::instantiate_state(
                    model::seconds_of(env.time.nanos),
                    info.sender,
                    msg,
                )
                &&& created.1.messages@.len() == 0
                &&& created.1.events@.len() == 0
                &&& created.1.data is None
            },
        },
{
    if msg.min_submission_value > msg.max_submission_value {
        return Err(ContractError::MinGreaterThanMax {  });
    }
    let timestamp = timestamp_to_seconds(env.time);
    let answered_in_round = match checked_sub(
        (timestamp % 0x1_0000_0000) as u128,
        msg.timeout as u128,
    ) {
        Ok(left) => left as u32,
        Err(error) => {
            return Err(ContractError::Std(error));
        },
    };
    let mut rounds: Vec<Round> = Vec::new();
    rounds.push(Round { answer: None, started_at: None, updated_at: None, answered_in_round });
    let mut details: Vec<Option<RoundDetails>> = Vec::new();
    details.push(None);
    let state = Aggregator {
        owner: owned::instantiate(info.sender.clone()),
        config: Config {
            link: msg.link,
            validator: msg.validator,
            payment_amount: msg.payment_amount,
            max_submission_count: 0,
            min_submission_count: 0,
            restart_delay: 0,
            timeout: msg.timeout,
            decimals: msg.decimals,
            description: msg.description,
            min_submission_value: msg.min_submission_value,
            max_submission_value: msg.max_submission_value,
        },
        funds: Funds { available: 0, allocated: 0 },
        oracles: AddrMap::new(),
        oracle_addresses: Vec::new(),
        rounds,
        details,
        requesters: AddrMap::new(),
        reporting_round_id: 0,
        latest_round_id: 0,
    };
    proof {
        assert(state@ =~= model::instantiate_state(timestamp, info.sender, msg));
    }
    Ok((state, empty_response()))
}

/// Does what the message asks for.
pub fn execute(state: &mut Aggregator, env: &Env, info: &MessageInfo, msg: ExecuteMsg) -> (res:
    Result<Response, ContractError>)
    requires
        old(state).wf(),
    ensures
        final(state).wf(),
        model::agrees(
            old(state)@,
            final(state)@,
            res,
            model::execute(
                old(state)@,
                env.contract_address,
                model::seconds_of(env.time.nanos),
                info.sender,
                msg,
            ),
        ),
{
    match msg {
        ExecuteMsg::Submit { round_id, submission } => execute_submit(
            state,
            env,
            info,
            round_id,
            submission,
        ),
        ExecuteMsg::ChangeOracles {
            removed,
            added,
            added_admins,
            min_submissions,
            max_submissions,
            restart_delay,
        } => execute_change_oracles(
            state,
            env,
            info,
            removed,
            added,
            added_admins,
            min_submissions,
            max_submissions,
            restart_delay,
        ),
        ExecuteMsg::WithdrawPayment { oracle, recipient, amount } => execute_withdraw_payment(
            state,
            env,
            info,
            oracle,
            recipient,
            amount,
        ),
        ExecuteMsg::WithdrawFunds { recipient, amount } => execute_withdraw_funds(
            state,
            env,
            info,
            recipient,
            amount,
        ),
        ExecuteMsg::TransferAdmin { oracle, new_admin } => execute_transfer_admin(
            state,
            env,
            info,
            oracle,
            new_admin,
        ),
        ExecuteMsg::AcceptAdmin { oracle } => execute_accept_admin(state, env, info, oracle),
        ExecuteMsg::RequestNewRound {  } => execute_request_new_round(state, env, info),
        ExecuteMsg::SetRequesterPermissions { requester, authorized, delay } => {
            execute_set_requester_permissions(state, env, info, requester, authorized, delay)
        },
        ExecuteMsg::UpdateFutureRounds {
            payment_amount,
            min_submissions,
            max_submissions,
            restart_delay,
            timeout,
        } => execute_update_future_rounds(
            state,
            env,
            info,
            payment_amount,
            min_submissions,
            max_submissions,
            restart_delay,
            timeout,
        ),
        ExecuteMsg::UpdateAvailableFunds { balance } => execute_update_available_funds(
            state,
            env,
            info,
            balance,
        ),
        ExecuteMsg::SetValidator { validator } => execute_set_validator(
            state,
            env,
            info,
            validator,
        ),
        ExecuteMsg::Receive(receive_msg) => execute_receive(state, env, info, receive_msg),
        ExecuteMsg::TransferOwnership { to } => execute_transfer_ownership(state, env, info, to),
        ExecuteMsg::AcceptOwnership {  } => execute_accept_ownership(state, env, info),
    }
}

/// The settings of the aggregator.
pub fn get_aggregator_config(state: &Aggregator, env: &Env) -> (config: ConfigResponse)
    ensures
        config == (ConfigResponse {
            link: state.config.link,
            validator: state.config.validator,
            payment_amount: state.config.payment_amount,
            max_submission_count: state.config.max_submission_count,
            min_submission_count: state.config.min_submission_count,
            restart_delay: state.config.restart_delay,
            timeout: state.config.timeout,
            decimals: state.config.decimals,
            description: state.config.description,
            min_submission_value: state.config.min_submission_value,
            max_submission_value: state.config.max_submission_value,
        }),
{
    ConfigResponse {
        link: state.config.link.clone(),
        validator: state.config.validator.clone(),
        payment_amount: state.config.payment_amount,
        max_submission_count: state.config.max_submission_count,
        min_submission_count: state.config.min_submission_count,
        restart_delay: state.config.restart_delay,
        timeout: state.config.timeout,
        decimals: state.config.decimals,
        description: state.config.description.clone(),
        min_submission_value: state.config.min_submission_value,
        max_submission_value: state.config.max_submission_value,
    }
}

/// What oracles have earned and not withdrawn yet.
pub fn get_allocated_funds(state: &Aggregator, env: &Env) -> (allocated: u128)
    ensures
        allocated == state.funds.allocated,
{
    state.funds.allocated
}

/// What is free to pay future submissions.
pub fn get_available_funds(state: &Aggregator, env: &Env) -> (available: u128)
    ensures
        available == state.funds.available,
{
    state.funds.available
}

/// What an oracle can withdraw. An address without a record is an error.
pub fn get_withdrawable_payment(state: &Aggregator, env: &Env, oracle: &Addr) -> (res: Result<
    u128,
    ContractError,
>)
    requires
        state.wf(),
    ensures
        match res {
            Ok(amount) => state@.oracles.contains_key(oracle@) && amount
                == state@.oracles[oracle@].withdrawable,
            Err(error) => !state@.oracles.contains_key(oracle@) && error == ContractError::Std(
                crate::error::not_found(model::oracle_kind()),
            ),
        },
{
    match state.oracles.get(oracle) {
        Some(status) => Ok(status.withdrawable),
        None => Err(ContractError::Std(missing("flux_aggregator::state::OracleStatus"))),
    }
}

/// The active oracles, in the order in which they were added.
pub fn get_oracles(state: &Aggregator, env: &Env) -> (oracles: Vec<Addr>)
    ensures
        oracles@ == state@.oracle_addresses,
{
    copy_addrs(&state.oracle_addresses)
}

/// The admin of an oracle. An address without a record is an error.
pub fn get_admin(state: &Aggregator, env: &Env, oracle: &Addr) -> (res: Result<
    Addr,
    ContractError,
>)
    requires
        state.wf(),
    ensures
        match res {
            Ok(admin) => state@.oracles.contains_key(oracle@) && admin
                == state@.oracles[oracle@].admin,
            Err(error) => !state@.oracles.contains_key(oracle@) && error == ContractError::Std(
                crate::error::not_found(model::oracle_kind()),
            ),
        },
{
    match state.oracles.get(oracle) {
        Some(status) => Ok(status.admin.clone()),
        None => Err(ContractError::Std(missing("flux_aggregator::state::OracleStatus"))),
    }
}

/// What a question about a round is answered with: the round as it stands.
/// A round that does not exist is an error, and so is one to which no answer
/// applies.
pub open spec fn round_data(state: crate::state::AggregatorView, round_id: u32) -> Result<
    RoundDataResponse,
    ContractError,
> {
    if round_id >= state.rounds.len() {
        Err(ContractError::Std(crate::error::not_found(model::round_kind())))
    } else if state.rounds[round_id as int].answered_in_round == 0 {
        Err(ContractError::NoData {  })
    } else {
        Ok(
            RoundDataResponse {
                round_id,
                answer: state.rounds[round_id as int].answer,
                started_at: state.rounds[round_id as int].started_at,
                updated_at: state.rounds[round_id as int].updated_at,
                answered_in_round: state.rounds[round_id as int].answered_in_round,
            },
        )
    }
}

/// The round with the given id.
pub fn get_round_data(state: &Aggregator, env: &Env, round_id: u32) -> (res: Result<
    RoundDataResponse,
    ContractError,
>)
    ensures
        res == round_data(state@, round_id),
{
    let i = round_id as usize;
    if i >= state.rounds.len() {
        return Err(ContractError::Std(missing("flux_aggregator::state::Round")));
    }
    let round = state.rounds[i];
    if round.answered_in_round == 0 {
        return Err(ContractError::NoData {  });
    }
    Ok(
        RoundDataResponse {
            round_id,
            answer: round.answer,
            started_at: round.started_at,
            updated_at: round.updated_at,
            answered_in_round: round.answered_in_round,
        },
    )
}

/// The round that was settled last.
pub fn get_latest_round_data(state: &Aggregator, env: &Env) -> (res: Result<
    RoundDataResponse,
    ContractError,
>)
    ensures
        res == round_data(state@, state.latest_round_id),
{
    get_round_data(state, env, state.latest_round_id)
}

/// The owner of the aggregator.
pub fn get_owner(state: &Aggregator) -> (owner: Addr)
    ensures
        owner == state.owner.owner,
{
    owned::get_owner(&state.owner)
}

/// Answers the question that the message asks.
pub fn query(state: &Aggregator, env: &Env, msg: &QueryMsg) -> (res: Result<
    QueryResponse,
    ContractError,
>)
    requires
        state.wf(),
    ensures
        match *msg {
            QueryMsg::GetOwner {  } => res matches Ok(QueryResponse::Owner(owner)) && owner
                == state.owner.owner,
            QueryMsg::GetAggregatorConfig {  } => res matches Ok(
                QueryResponse::AggregatorConfig(config),
            ) && config.link == state.config.link && config.validator == state.config.validator
                && config.payment_amount == state.config.payment_amount
                && config.max_submission_count == state.config.max_submission_count
                && config.min_submission_count == state.config.min_submission_count
                && config.restart_delay == state.config.restart_delay && config.timeout
                == state.config.timeout && config.decimals == state.config.decimals
                && config.description == state.config.description && config.min_submission_value
                == state.config.min_submission_value && config.max_submission_value
                == state.config.max_submission_value,
            QueryMsg::GetAllocatedFunds {  } => res matches Ok(
                QueryResponse::AllocatedFunds(amount),
            ) && amount == state.funds.allocated,
            QueryMsg::GetAvailableFunds {  } => res matches Ok(
                QueryResponse::AvailableFunds(amount),
            ) && amount == state.funds.available,
            QueryMsg::GetWithdrawablePayment { oracle } => if state@.oracles.contains_key(
                oracle@,
            ) {
                res matches Ok(QueryResponse::WithdrawablePayment(amount)) && amount
                    == state@.oracles[oracle@].withdrawable
            } else {
                res matches Err(error) && error == ContractError::Std(
                    crate::error::not_found(model::oracle_kind()),
                )
            },
            QueryMsg::GetOracleCount {  } => res matches Ok(QueryResponse::OracleCount(count))
                && count == model::oracle_count(state@),
            QueryMsg::GetOracles {  } => res matches Ok(QueryResponse::Oracles(oracles))
                && oracles@ == state@.oracle_addresses,
            QueryMsg::GetAdmin { oracle } => if state@.oracles.contains_key(oracle@) {
                res matches Ok(QueryResponse::Admin(admin)) && admin
                    == state@.oracles[oracle@].admin
            } else {
                res matches Err(error) && error == ContractError::Std(
                    crate::error::not_found(model::oracle_kind()),
                )
            },
            QueryMsg::GetRoundData { round_id } => match round_data(state@, round_id) {
                Ok(data) => res matches Ok(QueryResponse::RoundData(found)) && found == data,
                Err(fault) => res matches Err(error) && error == fault,
            },
            QueryMsg::GetLatestRoundData {  } => match round_data(
                state@,
                state.latest_round_id,
            ) {
                Ok(data) => res matches Ok(QueryResponse::RoundData(found)) && found == data,
                Err(fault) => res matches Err(error) && error == fault,
            },
        },
{
    match msg {
        QueryMsg::GetOwner {  } => Ok(QueryResponse::Owner(get_owner(state))),
        QueryMsg::GetAggregatorConfig {  } => Ok(
            QueryResponse::AggregatorConfig(get_aggregator_config(state, env)),
        ),
        QueryMsg::GetAllocatedFunds {  } => Ok(
            QueryResponse::AllocatedFunds(get_allocated_funds(state, env)),
        ),
        QueryMsg::GetAvailableFunds {  } => Ok(
            QueryResponse::AvailableFunds(get_available_funds(state, env)),
        ),
        QueryMsg::GetWithdrawablePayment { oracle } => {
            match get_withdrawable_payment(state, env, oracle) {
                Ok(amount) => Ok(QueryResponse::WithdrawablePayment(amount)),
                Err(error) => Err(error),
            }
        },
        QueryMsg::GetOracleCount {  } => Ok(
            QueryResponse::OracleCount(get_oracle_count(state, env)),
        ),
        QueryMsg::GetOracles {  } => Ok(QueryResponse::Oracles(get_oracles(state, env))),
        QueryMsg::GetAdmin { oracle } => {
            match get_admin(state, env, oracle) {
                Ok(admin) => Ok(QueryResponse::Admin(admin)),
                Err(error) => Err(error),
            }
        },
        QueryMsg::GetRoundData { round_id } => {
            match get_round_data(state, env, *round_id) {
                Ok(data) => Ok(QueryResponse::RoundData(data)),
                Err(error) => Err(error),
            }
        },
        QueryMsg::GetLatestRoundData {  } => {
            match get_latest_round_data(state, env) {
                Ok(data) => Ok(QueryResponse::RoundData(data)),
                Err(error) => Err(error),
            }
        },
    }
}

} // verus!
