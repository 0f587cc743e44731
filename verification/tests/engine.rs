use cosmwasm_std::{OverflowError, OverflowOperation, StdError};
use flux_aggregator::addr::Addr;
use flux_aggregator::attr::{attr, decimal, flag};
use flux_aggregator::contract::{
    execute_accept_admin, execute_accept_ownership, execute_change_oracles, execute_receive,
    execute_request_new_round, execute_set_requester_permissions, execute_submit,
    execute_transfer_admin, execute_transfer_ownership, execute_update_available_funds,
    execute_update_future_rounds, execute_withdraw_funds, execute_withdraw_payment, get_admin,
    get_oracle_count, get_oracles, get_owner, get_round_data, get_withdrawable_payment,
    instantiate, is_accepting_submissions, is_supersedable, query, required_reserve, timed_out,
    timestamp_to_seconds, validate_oracle_round, validate_ownership,
};
use flux_aggregator::error::{ContractError, OwnedError};
use flux_aggregator::modifier::Immutable;
use flux_aggregator::msg::{
    Env, Event, InstantiateMsg, Message, MessageInfo, MigrateMsg, QueryMsg, QueryResponse,
    ReceiveMsg, RoundDataResponse, Timestamp,
};
use flux_aggregator::oracle::ContractErr;
use flux_aggregator::state::{
    Aggregator, Funds, OracleStatus, Requester, Round, RoundDetails, MAX_ORACLE_COUNT, ROUND_MAX,
};
use flux_aggregator::validator::FlaggingThresholdResponse;

const START: u64 = 1_571_797_419;
const TIMEOUT: u32 = 1800;
const PAYMENT: u128 = 3;

fn env_at(seconds: u64) -> Env {
    Env {
        time: Timestamp { nanos: seconds * 1_000_000_000 + 879_305_533 },
        contract_address: Addr::unchecked("aggregator"),
    }
}

fn env() -> Env {
    env_at(START)
}

fn info(sender: &str) -> MessageInfo {
    MessageInfo { sender: Addr::unchecked(sender) }
}

fn addrs(names: &[&str]) -> Vec<Addr> {
    names.iter().map(|name| Addr::unchecked(name)).collect()
}

/// An aggregator owned by "owner" with the given funds and oracles, each
/// oracle its own admin.
fn setup(funds: u128, oracles: &[&str], min: u32, max: u32, delay: u32) -> Aggregator {
    let msg = InstantiateMsg {
        link: Addr::unchecked("link"),
        payment_amount: PAYMENT,
        timeout: TIMEOUT,
        validator: Addr::unchecked("validator"),
        min_submission_value: 1,
        max_submission_value: 10_000_000,
        decimals: 18,
        description: "LINK/USD".to_string(),
    };
    let (mut state, response) = instantiate(&env(), &info("owner"), msg).unwrap();
    assert!(response.messages.is_empty() && response.events.is_empty());
    assert!(state.is_well_formed());
    execute_update_available_funds(&mut state, &env(), &info("anyone"), funds).unwrap();
    execute_change_oracles(
        &mut state,
        &env(),
        &info("owner"),
        vec![],
        addrs(oracles),
        addrs(oracles),
        min,
        max,
        delay,
    )
    .unwrap();
    assert!(state.is_well_formed());
    state
}

/// Makes a call that must be rejected, and checks that it changed nothing.
fn rejected<T: std::fmt::Debug>(
    state: &mut Aggregator,
    call: impl FnOnce(&mut Aggregator) -> Result<T, ContractError>,
) -> ContractError {
    let before = state.clone();
    let error = call(state).unwrap_err();
    assert_eq!(*state, before);
    assert!(state.is_well_formed());
    error
}

fn submit(state: &mut Aggregator, at: u64, oracle: &str, round_id: u32, value: u128) {
    execute_submit(state, &env_at(at), &info(oracle), round_id, value).unwrap();
    assert!(state.is_well_formed());
}

#[test]
fn instantiate_creates_round_zero_alone() {
    let state = setup(0, &[], 0, 0, 0);
    assert_eq!(state.reporting_round_id, 0);
    assert_eq!(state.latest_round_id, 0);
    assert_eq!(
        state.rounds,
        vec![Round {
            answer: None,
            started_at: None,
            updated_at: None,
            answered_in_round: (START as u32) - TIMEOUT,
        }]
    );
    assert_eq!(state.details, vec![None]);
    assert_eq!(state.funds, Funds { available: 0, allocated: 0 });
    assert_eq!(get_owner(&state), Addr::unchecked("owner"));
    assert_eq!(state.config.min_submission_count, 0);
    assert_eq!(state.config.max_submission_count, 0);
    assert_eq!(state.config.restart_delay, 0);
    assert_eq!(state.config.timeout, TIMEOUT);
}

#[test]
fn instantiate_rejects_bounds_in_the_wrong_order() {
    let msg = InstantiateMsg {
        link: Addr::unchecked("link"),
        payment_amount: PAYMENT,
        timeout: TIMEOUT,
        validator: Addr::unchecked("validator"),
        min_submission_value: 11,
        max_submission_value: 10,
        decimals: 18,
        description: "LINK/USD".to_string(),
    };
    let res = instantiate(&env(), &info("owner"), msg);
    assert_eq!(res.unwrap_err(), ContractError::MinGreaterThanMax {});
}

#[test]
fn instantiate_rejects_a_timeout_beyond_the_time() {
    let msg = InstantiateMsg {
        link: Addr::unchecked("link"),
        payment_amount: PAYMENT,
        timeout: 11,
        validator: Addr::unchecked("validator"),
        min_submission_value: 1,
        max_submission_value: 10,
        decimals: 18,
        description: "LINK/USD".to_string(),
    };
    let res = instantiate(&env_at(10), &info("owner"), msg);
    let expected =
        StdError::overflow(OverflowError::new(OverflowOperation::Sub, 10u128, 11u128));
    assert_eq!(res.unwrap_err(), ContractError::Std(expected));
}

#[test]
fn submission_outside_the_bounds_is_rejected() {
    let mut state = setup(100, &["Ned"], 1, 1, 0);
    let error = rejected(&mut state, |s| execute_submit(s, &env(), &info("Ned"), 1, 0));
    assert_eq!(error, ContractError::UnderMin {});
    let error = rejected(&mut state, |s| execute_submit(s, &env(), &info("Ned"), 1, 10_000_001));
    assert_eq!(error, ContractError::OverMax {});
    // the bounds themselves are accepted
    submit(&mut state, START, "Ned", 1, 1);
    submit(&mut state, START, "Ned", 2, 10_000_000);
}

#[test]
fn submission_by_a_stranger_is_rejected() {
    let mut state = setup(100, &["Ned"], 1, 1, 0);
    let error = rejected(&mut state, |s| execute_submit(s, &env(), &info("Mallory"), 1, 5));
    assert_eq!(
        error,
        ContractError::Std(StdError::not_found("flux_aggregator::state::OracleStatus"))
    );
    assert_eq!(error.to_string(), "flux_aggregator::state::OracleStatus not found");
}

#[test]
fn quorum_settles_the_round_on_the_median() {
    let mut state = setup(100, &["A", "B", "C"], 2, 3, 0);
    let response = execute_submit(&mut state, &env(), &info("A"), 1, 10).unwrap();
    assert_eq!(
        response.events,
        vec![Event::NewRound { started_by: Addr::unchecked("A"), started_at: START }]
    );
    assert_eq!(response.data, None);
    assert!(response.messages.is_empty());
    // one submission is below the quorum of two
    assert_eq!(state.latest_round_id, 0);
    assert_eq!(
        state.rounds[1],
        Round { answer: None, started_at: Some(START), updated_at: None, answered_in_round: 0 }
    );
    assert_eq!(
        state.details[1],
        Some(RoundDetails {
            submissions: vec![10],
            max_submissions: 3,
            min_submissions: 2,
            timeout: TIMEOUT,
            payment_amount: PAYMENT,
        })
    );
    // the second one reaches it
    let response = execute_submit(&mut state, &env_at(START + 5), &info("B"), 1, 31).unwrap();
    assert_eq!(response.events, vec![Event::AnswerUpdated { current: 20, round_id: 1 }]);
    assert_eq!(state.latest_round_id, 1);
    assert_eq!(
        state.rounds[1],
        Round {
            answer: Some(20),
            started_at: Some(START),
            updated_at: Some(START + 5),
            answered_in_round: 1,
        }
    );
    // a third one is still taken and paid, the answer is the median of all three, and the
    // round closes
    submit(&mut state, START + 6, "C", 1, 11);
    assert_eq!(state.rounds[1].answer, Some(11));
    assert_eq!(state.rounds[1].updated_at, Some(START + 6));
    assert_eq!(state.details[1], None);
    assert_eq!(state.latest_round_id, 1);
    assert_eq!(state.funds, Funds { available: 91, allocated: 9 });
    assert_eq!(
        get_round_data(&state, &env(), 1),
        Ok(RoundDataResponse {
            round_id: 1,
            answer: Some(11),
            started_at: Some(START),
            updated_at: Some(START + 6),
            answered_in_round: 1,
        })
    );
}

#[test]
fn submission_pays_the_oracle_exactly_the_frozen_payment() {
    let mut state = setup(100, &["A", "B"], 2, 2, 0);
    submit(&mut state, START, "A", 1, 10);
    assert_eq!(state.funds, Funds { available: 97, allocated: 3 });
    // the payment for future rounds changes, the open round keeps its own
    execute_update_future_rounds(&mut state, &env(), &info("owner"), 7, 2, 2, 0, TIMEOUT)
        .unwrap();
    submit(&mut state, START, "B", 1, 12);
    assert_eq!(state.funds, Funds { available: 94, allocated: 6 });
    assert_eq!(get_withdrawable_payment(&state, &env(), &Addr::unchecked("A")), Ok(3));
    assert_eq!(get_withdrawable_payment(&state, &env(), &Addr::unchecked("B")), Ok(3));
    // the next round pays the new amount
    submit(&mut state, START, "A", 2, 10);
    assert_eq!(state.funds, Funds { available: 87, allocated: 13 });
    assert_eq!(get_withdrawable_payment(&state, &env(), &Addr::unchecked("A")), Ok(10));
    let status = state.oracles.get(&Addr::unchecked("A")).unwrap();
    assert_eq!(status.last_reported_round, Some(2));
    assert_eq!(status.last_started_round, Some(2));
    assert_eq!(status.latest_submission, Some(10));
}

#[test]
fn submission_without_funds_is_rejected() {
    let mut state = setup(8, &["Ned"], 1, 1, 0);
    submit(&mut state, START, "Ned", 1, 5);
    submit(&mut state, START, "Ned", 2, 5);
    assert_eq!(state.funds, Funds { available: 2, allocated: 6 });
    let error = rejected(&mut state, |s| execute_submit(s, &env(), &info("Ned"), 3, 5));
    let expected = StdError::overflow(OverflowError::new(OverflowOperation::Sub, 2u128, 3u128));
    assert_eq!(error, ContractError::Std(expected));
}

#[test]
fn payment_that_would_leave_the_range_is_rejected() {
    let mut state = setup(100, &["Ned"], 1, 1, 0);
    state.funds.allocated = u128::MAX - 2;
    let error = rejected(&mut state, |s| execute_submit(s, &env(), &info("Ned"), 1, 5));
    let expected =
        StdError::overflow(OverflowError::new(OverflowOperation::Add, u128::MAX - 2, 3u128));
    assert_eq!(error, ContractError::Std(expected));
    state.funds.allocated = u128::MAX - 3;
    submit(&mut state, START, "Ned", 1, 5);
    assert_eq!(state.funds, Funds { available: 97, allocated: u128::MAX });
}

#[test]
fn fund_ledger_records_payments_and_withdrawals() {
    let mut funds = Funds { available: 10, allocated: 1 };
    assert_eq!(funds.record_payment(4), Ok(()));
    assert_eq!(funds, Funds { available: 6, allocated: 5 });
    assert_eq!(
        funds.record_payment(7),
        Err(StdError::overflow(OverflowError::new(OverflowOperation::Sub, 6u128, 7u128)))
    );
    assert_eq!(funds, Funds { available: 6, allocated: 5 });
    assert_eq!(funds.record_payment(6), Ok(()));
    assert_eq!(funds, Funds { available: 0, allocated: 11 });
    assert_eq!(funds.record_withdrawal(11), Ok(()));
    assert_eq!(funds, Funds { available: 0, allocated: 0 });
    assert_eq!(
        funds.record_withdrawal(1),
        Err(StdError::overflow(OverflowError::new(OverflowOperation::Sub, 0u128, 1u128)))
    );
    let mut funds = Funds { available: 5, allocated: 3 };
    assert_eq!(funds.refresh_available(8), Ok(false));
    assert_eq!(funds.refresh_available(3), Ok(true));
    assert_eq!(funds, Funds { available: 0, allocated: 3 });
    assert_eq!(
        funds.refresh_available(2),
        Err(StdError::overflow(OverflowError::new(OverflowOperation::Sub, 2u128, 3u128)))
    );
    assert_eq!(funds, Funds { available: 0, allocated: 3 });
}

#[test]
fn oracle_cannot_report_twice_or_backwards() {
    let mut state = setup(100, &["A", "B"], 1, 2, 0);
    submit(&mut state, START, "A", 1, 5);
    submit(&mut state, START, "A", 2, 5);
    let error = rejected(&mut state, |s| execute_submit(s, &env(), &info("A"), 2, 5));
    assert_eq!(error, ContractError::ReportingPreviousRound {});
    let error = rejected(&mut state, |s| execute_submit(s, &env(), &info("A"), 1, 5));
    assert_eq!(error, ContractError::ReportingPreviousRound {});
}

#[test]
fn round_far_from_the_reporting_round_is_invalid() {
    let mut state = setup(100, &["A", "B"], 1, 2, 0);
    let error = rejected(&mut state, |s| execute_submit(s, &env(), &info("A"), 2, 5));
    assert_eq!(error, ContractError::InvalidRound {});
    submit(&mut state, START, "A", 1, 5);
    submit(&mut state, START, "A", 2, 5);
    submit(&mut state, START, "A", 3, 5);
    let error = rejected(&mut state, |s| execute_submit(s, &env(), &info("B"), 5, 5));
    assert_eq!(error, ContractError::InvalidRound {});
    // round 2 is answered, so round 1 is closed to late reports
    let error = rejected(&mut state, |s| execute_submit(s, &env(), &info("B"), 1, 5));
    assert_eq!(error, ContractError::InvalidRound {});
}

#[test]
fn round_before_an_unanswered_reporting_round_still_takes_reports() {
    let mut state = setup(100, &["A", "B", "C"], 2, 3, 0);
    submit(&mut state, START, "A", 1, 10);
    submit(&mut state, START, "B", 1, 20);
    assert_eq!(state.rounds[1].answer, Some(15));
    // A opens round 2, which stays unanswered with one submission
    submit(&mut state, START + 1, "A", 2, 10);
    assert_eq!(state.reporting_round_id, 2);
    assert_eq!(state.rounds[2].updated_at, None);
    // C may still report to round 1
    submit(&mut state, START + 2, "C", 1, 30);
    assert_eq!(state.rounds[1].answer, Some(20));
    assert_eq!(state.latest_round_id, 1);
    assert_eq!(state.details[1], None);
    // once round 2 is answered, B can no longer go back to round 1: it has reported to it
    submit(&mut state, START + 3, "B", 2, 30);
    assert_eq!(state.latest_round_id, 2);
    assert_eq!(state.rounds[2].answer, Some(20));
}

#[test]
fn next_round_needs_the_previous_one_to_be_supersedable() {
    let mut state = setup(100, &["A", "B"], 2, 2, 0);
    submit(&mut state, START, "A", 1, 10);
    let error = rejected(&mut state, |s| execute_submit(s, &env(), &info("B"), 2, 10));
    assert_eq!(error, ContractError::NotSupersedable {});
    // at the timeout itself the round has not timed out yet
    let at = START + TIMEOUT as u64;
    assert!(!timed_out(&state, 1, at));
    assert!(!is_supersedable(&state, 1, at));
    let error = rejected(&mut state, |s| execute_submit(s, &env_at(at), &info("B"), 2, 10));
    assert_eq!(error, ContractError::NotSupersedable {});
    // one second later it has
    assert!(timed_out(&state, 1, at + 1));
    assert!(is_supersedable(&state, 1, at + 1));
    // round 0 never takes submissions and never times out; a round that does not exist
    // cannot be superseded
    assert!(!timed_out(&state, 0, u64::MAX));
    assert!(!is_supersedable(&state, 0, u64::MAX));
    assert!(!timed_out(&state, 2, u64::MAX));
    assert!(!is_supersedable(&state, 2, u64::MAX));
}

#[test]
fn timed_out_round_takes_over_the_previous_answer() {
    let mut state = setup(100, &["A", "B"], 2, 2, 0);
    submit(&mut state, START, "A", 1, 10);
    submit(&mut state, START, "B", 1, 20);
    submit(&mut state, START + 1, "A", 2, 50);
    // round 2 times out with one submission; B opens round 3
    let late = START + 1 + TIMEOUT as u64 + 1;
    let response = execute_submit(&mut state, &env_at(late), &info("B"), 3, 40).unwrap();
    assert_eq!(
        response.events,
        vec![Event::NewRound { started_by: Addr::unchecked("B"), started_at: late }]
    );
    assert_eq!(
        state.rounds[2],
        Round {
            answer: Some(15),
            started_at: Some(START + 1),
            updated_at: Some(late),
            answered_in_round: 1,
        }
    );
    assert_eq!(state.details[2], None);
    assert_eq!(state.reporting_round_id, 3);
    assert_eq!(state.latest_round_id, 1);
    assert_eq!(
        state.rounds[3],
        Round { answer: None, started_at: Some(late), updated_at: None, answered_in_round: 0 }
    );
    // the round that timed out takes no more submissions
    let error = rejected(&mut state, |s| execute_submit(s, &env_at(late), &info("B"), 2, 40));
    assert_eq!(error, ContractError::ReportingPreviousRound {});
}

#[test]
fn settled_round_keeps_its_answer_when_it_times_out() {
    let mut state = setup(100, &["A", "B", "C"], 1, 3, 0);
    execute_set_requester_permissions(
        &mut state,
        &env(),
        &info("owner"),
        Addr::unchecked("R"),
        true,
        0,
    )
    .unwrap();
    submit(&mut state, START, "A", 1, 10);
    let settled = Round {
        answer: Some(10),
        started_at: Some(START),
        updated_at: Some(START),
        answered_in_round: 1,
    };
    assert_eq!(state.rounds[1], settled);
    // the round still takes submissions and runs out of time
    let late = START + TIMEOUT as u64 + 1;
    assert!(timed_out(&state, 1, late));
    submit(&mut state, late, "B", 2, 20);
    assert_eq!(state.rounds[1], settled);
    assert!(state.details[1].is_some());
    assert_eq!(state.rounds[2].answer, Some(20));
    // the same on request
    let later = late + TIMEOUT as u64 + 1;
    assert!(timed_out(&state, 2, later));
    execute_request_new_round(&mut state, &env_at(later), &info("R")).unwrap();
    assert_eq!(state.rounds[2].answer, Some(20));
    assert_eq!(state.rounds[2].answered_in_round, 2);
    assert!(state.details[2].is_some());
    assert_eq!(state.reporting_round_id, 3);
}

#[test]
fn closed_round_does_not_accept_submissions() {
    let mut state = setup(100, &["A", "B"], 1, 1, 0);
    submit(&mut state, START, "A", 1, 10);
    assert_eq!(state.details[1], None);
    let error = rejected(&mut state, |s| execute_submit(s, &env(), &info("B"), 1, 10));
    assert_eq!(error, ContractError::NotAcceptingSubmissions {});
    assert!(!is_accepting_submissions(&RoundDetails {
        submissions: vec![],
        max_submissions: 0,
        min_submissions: 0,
        timeout: 0,
        payment_amount: 0,
    }));
}

#[test]
fn restart_delay_keeps_an_oracle_from_opening_rounds_in_a_row() {
    let mut state = setup(100, &["A", "B", "C"], 1, 3, 1);
    submit(&mut state, START, "A", 1, 10);
    // A has started round 1 and must wait one round: its report to round 2 does not open it
    let error = rejected(&mut state, |s| execute_submit(s, &env(), &info("A"), 2, 10));
    assert_eq!(error, ContractError::NotAcceptingSubmissions {});
    submit(&mut state, START, "B", 2, 10);
    submit(&mut state, START, "A", 2, 10);
    submit(&mut state, START, "A", 3, 10);
    assert_eq!(state.reporting_round_id, 3);
}

#[test]
fn oracle_window_is_enforced() {
    let mut state = setup(100, &["A", "B"], 1, 2, 0);
    submit(&mut state, START, "A", 1, 10);
    // C joins during round 1 and starts with round 2
    execute_change_oracles(
        &mut state,
        &env(),
        &info("owner"),
        vec![],
        addrs(&["C"]),
        addrs(&["C"]),
        1,
        2,
        0,
    )
    .unwrap();
    assert_eq!(state.oracles.get(&Addr::unchecked("C")).unwrap().starting_round, 2);
    assert_eq!(state.oracles.get(&Addr::unchecked("C")).unwrap().index, 2);
    let error = rejected(&mut state, |s| execute_submit(s, &env(), &info("C"), 1, 10));
    assert_eq!(error, ContractError::OracleNotYetEnabled {});
    // B leaves during round 1: it may still report to round 1, and to none after it
    execute_change_oracles(
        &mut state,
        &env(),
        &info("owner"),
        addrs(&["B"]),
        vec![],
        vec![],
        1,
        2,
        0,
    )
    .unwrap();
    assert_eq!(state.oracles.get(&Addr::unchecked("B")).unwrap().ending_round, 1);
    assert_eq!(get_oracles(&state, &env()), addrs(&["A", "C"]));
    let error = rejected(&mut state, |s| execute_submit(s, &env(), &info("B"), 2, 10));
    assert_eq!(error, ContractError::NoLongerAllowed {});
    submit(&mut state, START, "B", 1, 10);
    // a record that was never enabled
    let never = OracleStatus {
        withdrawable: 0,
        starting_round: 0,
        ending_round: ROUND_MAX,
        last_reported_round: None,
        last_started_round: None,
        latest_submission: None,
        index: 0,
        admin: Addr::unchecked("A"),
        pending_admin: None,
    };
    assert_eq!(
        validate_oracle_round(&state, &never, 1, START),
        Err(ContractError::OracleNotEnabled {})
    );
}

#[test]
fn oracle_that_was_removed_in_the_reporting_round_rejoins_in_it() {
    let mut state = setup(100, &["A", "B"], 1, 2, 0);
    submit(&mut state, START, "A", 1, 10);
    execute_change_oracles(
        &mut state,
        &env(),
        &info("owner"),
        addrs(&["B"]),
        vec![],
        vec![],
        1,
        1,
        0,
    )
    .unwrap();
    // another admin cannot take the oracle over
    let error = rejected(&mut state, |s| {
        execute_change_oracles(
            s,
            &env(),
            &info("owner"),
            vec![],
            addrs(&["B"]),
            addrs(&["Eve"]),
            1,
            1,
            0,
        )
    });
    assert_eq!(error, ContractError::OverwritingAdmin {});
    execute_change_oracles(
        &mut state,
        &env(),
        &info("owner"),
        vec![],
        addrs(&["B"]),
        addrs(&["B"]),
        1,
        2,
        0,
    )
    .unwrap();
    let status = state.oracles.get(&Addr::unchecked("B")).unwrap();
    assert_eq!(status.starting_round, 1);
    assert_eq!(status.ending_round, ROUND_MAX);
    assert_eq!(status.index, 1);
    assert_eq!(get_oracles(&state, &env()), addrs(&["A", "B"]));
}

#[test]
fn change_of_oracles_is_all_or_nothing() {
    let mut state = setup(100, &["A", "B"], 1, 2, 0);
    // the removal succeeds, the addition of an active oracle fails: nothing changes
    let error = rejected(&mut state, |s| {
        execute_change_oracles(
            s,
            &env(),
            &info("owner"),
            addrs(&["B"]),
            addrs(&["C", "A"]),
            addrs(&["C", "A"]),
            1,
            2,
            0,
        )
    });
    assert_eq!(error, ContractError::OracleNotEnabled {});
    // removing an oracle twice
    let error = rejected(&mut state, |s| {
        execute_change_oracles(
            s,
            &env(),
            &info("owner"),
            addrs(&["B", "B"]),
            vec![],
            vec![],
            1,
            1,
            0,
        )
    });
    assert_eq!(error, ContractError::OracleNotEnabled {});
    // removing a stranger
    let error = rejected(&mut state, |s| {
        execute_change_oracles(
            s,
            &env(),
            &info("owner"),
            addrs(&["Mallory"]),
            vec![],
            vec![],
            1,
            1,
            0,
        )
    });
    assert_eq!(
        error,
        ContractError::Std(StdError::not_found("flux_aggregator::state::OracleStatus"))
    );
    // the limits are checked against the oracles after the change
    let error = rejected(&mut state, |s| {
        execute_change_oracles(
            s,
            &env(),
            &info("owner"),
            addrs(&["B"]),
            vec![],
            vec![],
            1,
            2,
            0,
        )
    });
    assert_eq!(error, ContractError::MaxGreaterThanTotal {});
    let error = rejected(&mut state, |s| {
        execute_change_oracles(
            s,
            &env(),
            &info("owner"),
            vec![],
            addrs(&["C"]),
            addrs(&["C", "D"]),
            1,
            2,
            0,
        )
    });
    assert_eq!(error, ContractError::OracleAdminCountMismatch {});
    let error = rejected(&mut state, |s| {
        execute_change_oracles(s, &env(), &info("A"), vec![], vec![], vec![], 1, 2, 0)
    });
    assert_eq!(error, ContractError::NotOwner {});
}

#[test]
fn no_more_oracles_than_the_maximum() {
    let names: Vec<String> = (0..MAX_ORACLE_COUNT).map(|i| format!("oracle{}", i)).collect();
    let names: Vec<&str> = names.iter().map(|name| name.as_str()).collect();
    let mut state = setup(1000, &names, 1, 77, 0);
    assert_eq!(get_oracle_count(&state, &env()), 77);
    let error = rejected(&mut state, |s| {
        execute_change_oracles(
            s,
            &env(),
            &info("owner"),
            vec![],
            addrs(&["one too many"]),
            addrs(&["admin"]),
            1,
            77,
            0,
        )
    });
    assert_eq!(error, ContractError::MaxOraclesAllowed {});
    // one out, one in
    execute_change_oracles(
        &mut state,
        &env(),
        &info("owner"),
        addrs(&["oracle0"]),
        addrs(&["replacement"]),
        addrs(&["admin"]),
        1,
        77,
        0,
    )
    .unwrap();
    assert_eq!(get_oracle_count(&state, &env()), 77);
    assert_eq!(get_admin(&state, &env(), &Addr::unchecked("replacement")).unwrap().as_str(), "admin");
}

#[test]
fn future_rounds_are_checked_against_the_oracles_and_the_reserve() {
    let mut state = setup(100, &["A", "B", "C"], 1, 3, 0);
    let update = |s: &mut Aggregator, payment: u128, min: u32, max: u32, delay: u32| {
        execute_update_future_rounds(s, &env(), &info("owner"), payment, min, max, delay, 60)
    };
    assert_eq!(rejected(&mut state, |s| update(s, 3, 3, 2, 0)), ContractError::MinGreaterThanMax {});
    assert_eq!(rejected(&mut state, |s| update(s, 3, 1, 4, 0)), ContractError::MaxGreaterThanTotal {});
    assert_eq!(
        rejected(&mut state, |s| update(s, 3, 1, 3, 3)),
        ContractError::DelayGreaterThanTotal {}
    );
    // 17 * 3 * 2 = 102 > 100
    assert_eq!(rejected(&mut state, |s| update(s, 17, 1, 3, 0)), ContractError::InsufficientFunds {});
    assert_eq!(
        rejected(&mut state, |s| update(s, u128::MAX, 1, 3, 0)),
        ContractError::InsufficientFunds {}
    );
    assert_eq!(rejected(&mut state, |s| update(s, 3, 0, 3, 0)), ContractError::MinLessThanZero {});
    let error = rejected(&mut state, |s| {
        execute_update_future_rounds(s, &env(), &info("A"), 3, 1, 3, 0, 60)
    });
    assert_eq!(error, ContractError::NotOwner {});
    // 16 * 3 * 2 = 96 <= 100
    let response = update(&mut state, 16, 2, 3, 2).unwrap();
    assert_eq!(
        response.events,
        vec![Event::RoundDetailsUpdated {
            payment_amount: 16,
            min_submissions: 2,
            max_submissions: 3,
            restart_delay: 2,
            timeout: 60,
        }]
    );
    assert_eq!(state.config.payment_amount, 16);
    assert_eq!(state.config.min_submission_count, 2);
    assert_eq!(state.config.max_submission_count, 3);
    assert_eq!(state.config.restart_delay, 2);
    assert_eq!(state.config.timeout, 60);
    assert_eq!(state.funds, Funds { available: 100, allocated: 0 });
}

#[test]
fn reserve_is_two_rounds_for_every_oracle() {
    assert_eq!(required_reserve(3, 0), Some(0));
    assert_eq!(required_reserve(3, 1), Some(6));
    assert_eq!(required_reserve(3, 77), Some(462));
    assert_eq!(required_reserve(0, 255), Some(0));
    assert_eq!(required_reserve(u128::MAX / 2, 1), Some(u128::MAX - 1));
    assert_eq!(required_reserve(u128::MAX / 2 + 1, 1), None);
    assert_eq!(required_reserve(u128::MAX, 2), None);
}

#[test]
fn admin_handoff_takes_two_steps() {
    let mut state = setup(100, &["A"], 1, 1, 0);
    let oracle = Addr::unchecked("A");
    let error = rejected(&mut state, |s| execute_accept_admin(s, &env(), &info("N"), oracle.clone()));
    assert_eq!(error, ContractError::PendingAdminMissing {});
    let error = rejected(&mut state, |s| {
        execute_transfer_admin(s, &env(), &info("N"), oracle.clone(), Addr::unchecked("N"))
    });
    assert_eq!(error, ContractError::NotAdmin {});
    // an oracle without a record has no admin and no proposed admin
    let error = rejected(&mut state, |s| {
        execute_transfer_admin(s, &env(), &info("N"), Addr::unchecked("X"), Addr::unchecked("N"))
    });
    assert_eq!(error, ContractError::NotAdmin {});
    let error = rejected(&mut state, |s| {
        execute_accept_admin(s, &env(), &info("N"), Addr::unchecked("X"))
    });
    assert_eq!(error, ContractError::PendingAdminMissing {});

    let response =
        execute_transfer_admin(&mut state, &env(), &info("A"), oracle.clone(), Addr::unchecked("N"))
            .unwrap();
    assert_eq!(
        response.events,
        vec![Event::TransferAdmin {
            oracle: oracle.clone(),
            sender: Addr::unchecked("A"),
            new_admin: Addr::unchecked("N"),
        }]
    );
    // the admin stays until the proposed one accepts
    assert_eq!(get_admin(&state, &env(), &oracle), Ok(Addr::unchecked("A")));
    let error = rejected(&mut state, |s| execute_accept_admin(s, &env(), &info("A"), oracle.clone()));
    assert_eq!(error, ContractError::NotPendingAdmin {});
    let response = execute_accept_admin(&mut state, &env(), &info("N"), oracle.clone()).unwrap();
    assert_eq!(
        response.attributes(),
        vec![attr("oracle_admin_updated", "A"), attr("new_admin", "N")]
    );
    assert_eq!(get_admin(&state, &env(), &oracle), Ok(Addr::unchecked("N")));
    assert_eq!(state.oracles.get(&oracle).unwrap().pending_admin, None);
    assert_eq!(
        get_admin(&state, &env(), &Addr::unchecked("X")),
        Err(ContractError::Std(StdError::not_found("flux_aggregator::state::OracleStatus")))
    );
}

#[test]
fn payment_is_withdrawn_by_the_admin_only() {
    let mut state = setup(100, &["A"], 1, 1, 0);
    submit(&mut state, START, "A", 1, 10);
    submit(&mut state, START, "A", 2, 10);
    let oracle = Addr::unchecked("A");
    let to = String::from("recipient");
    let error = rejected(&mut state, |s| {
        execute_withdraw_payment(s, &env(), &info("B"), oracle.clone(), to.clone(), 1)
    });
    assert_eq!(error, ContractError::NotAdmin {});
    let error = rejected(&mut state, |s| {
        execute_withdraw_payment(s, &env(), &info("A"), oracle.clone(), to.clone(), 7)
    });
    assert_eq!(error, ContractError::InsufficientWithdrawableFunds {});
    let error = rejected(&mut state, |s| {
        execute_withdraw_payment(s, &env(), &info("A"), Addr::unchecked("X"), to.clone(), 1)
    });
    assert_eq!(
        error,
        ContractError::Std(StdError::not_found("flux_aggregator::state::OracleStatus"))
    );
    let response =
        execute_withdraw_payment(&mut state, &env(), &info("A"), oracle.clone(), to.clone(), 4)
            .unwrap();
    assert_eq!(
        response.messages,
        vec![Message::Transfer { token: Addr::unchecked("link"), recipient: to.clone(), amount: 4 }]
    );
    assert!(response.events.is_empty());
    assert_eq!(state.funds, Funds { available: 94, allocated: 2 });
    assert_eq!(get_withdrawable_payment(&state, &env(), &oracle), Ok(2));
    // a ledger that holds less than the oracle has earned
    state.funds.allocated = 1;
    let error = rejected(&mut state, |s| {
        execute_withdraw_payment(s, &env(), &info("A"), oracle.clone(), to.clone(), 2)
    });
    let expected = StdError::overflow(OverflowError::new(OverflowOperation::Sub, 1u128, 2u128));
    assert_eq!(error, ContractError::Std(expected));
}

#[test]
fn funds_above_the_reserve_can_be_withdrawn() {
    let mut state = setup(100, &["A", "B"], 1, 2, 0);
    let to = String::from("recipient");
    // the reserve is 3 * 2 * 2 = 12
    let error = rejected(&mut state, |s| {
        execute_withdraw_funds(s, &env(), &info("owner"), to.clone(), 89)
    });
    assert_eq!(error, ContractError::InsufficientReserveFunds {});
    let error = rejected(&mut state, |s| {
        execute_withdraw_funds(s, &env(), &info("A"), to.clone(), 1)
    });
    assert_eq!(error, ContractError::NotOwner {});
    let before = state.clone();
    let response = execute_withdraw_funds(&mut state, &env(), &info("owner"), to.clone(), 88).unwrap();
    assert_eq!(state, before);
    assert_eq!(
        response.messages,
        vec![
            Message::Transfer { token: Addr::unchecked("link"), recipient: to.clone(), amount: 88 },
            Message::UpdateAvailableFunds { contract: Addr::unchecked("aggregator") },
        ]
    );
    // funds below the reserve
    state.funds.available = 11;
    let error = rejected(&mut state, |s| {
        execute_withdraw_funds(s, &env(), &info("owner"), to.clone(), 0)
    });
    assert_eq!(error, ContractError::InsufficientReserveFunds {});
}

#[test]
fn available_funds_follow_the_ledger() {
    let mut state = setup(100, &["A"], 1, 1, 0);
    submit(&mut state, START, "A", 1, 10);
    assert_eq!(state.funds, Funds { available: 97, allocated: 3 });
    // nothing changed: nothing is reported
    let response = execute_update_available_funds(&mut state, &env(), &info("x"), 100).unwrap();
    assert!(response.events.is_empty());
    assert_eq!(state.funds, Funds { available: 97, allocated: 3 });
    let response = execute_update_available_funds(&mut state, &env(), &info("x"), 150).unwrap();
    assert_eq!(response.events, vec![Event::AvailableFundsUpdated { amount: 147 }]);
    assert_eq!(
        response.attributes(),
        vec![attr("action", "update_available_funds"), attr("amount", "147")]
    );
    assert_eq!(state.funds, Funds { available: 147, allocated: 3 });
    let error = rejected(&mut state, |s| execute_update_available_funds(s, &env(), &info("x"), 2));
    let expected = StdError::overflow(OverflowError::new(OverflowOperation::Sub, 2u128, 3u128));
    assert_eq!(error, ContractError::Std(expected));
}

#[test]
fn receive_asks_for_reconciliation() {
    let mut state = setup(100, &[], 0, 0, 0);
    let before = state.clone();
    let msg = ReceiveMsg { sender: "owner".to_string(), amount: 5, msg: vec![] };
    let response = execute_receive(&mut state, &env(), &info("link"), msg).unwrap();
    assert_eq!(
        response.messages,
        vec![Message::UpdateAvailableFunds { contract: Addr::unchecked("aggregator") }]
    );
    assert_eq!(state, before);
    let msg = ReceiveMsg { sender: "owner".to_string(), amount: 5, msg: vec![1] };
    let error = rejected(&mut state, |s| execute_receive(s, &env(), &info("link"), msg));
    assert_eq!(error, ContractError::UnexpectedReceivePayload {});
}

#[test]
fn requester_permissions_are_set_and_deleted() {
    let mut state = setup(100, &["A"], 1, 1, 0);
    let r = Addr::unchecked("R");
    let set = |s: &mut Aggregator, sender: &str, authorized: bool, delay: u32| {
        execute_set_requester_permissions(s, &env(), &info(sender), r.clone(), authorized, delay)
    };
    assert_eq!(rejected(&mut state, |s| set(s, "A", true, 0)), ContractError::NotOwner {});
    // deauthorising someone who is not authorised does nothing
    let before = state.clone();
    let response = set(&mut state, "owner", false, 5).unwrap();
    assert!(response.events.is_empty());
    assert_eq!(state, before);
    let response = set(&mut state, "owner", true, 5).unwrap();
    assert_eq!(
        response.attributes(),
        vec![
            attr("action", "set_requester_permission"),
            attr("requester", "R"),
            attr("authorized", "true"),
            attr("delay", "5"),
        ]
    );
    assert_eq!(
        state.requesters.get(&r),
        Some(&Requester { authorized: true, delay: 5, last_started_round: 0 })
    );
    // authorising again with another delay changes nothing
    let response = set(&mut state, "owner", true, 9).unwrap();
    assert!(response.events.is_empty());
    assert_eq!(state.requesters.get(&r).unwrap().delay, 5);
    let response = set(&mut state, "owner", false, 0).unwrap();
    assert_eq!(
        response.events,
        vec![Event::RequesterPermissionSet { requester: r.clone(), authorized: false, delay: 0 }]
    );
    assert_eq!(state.requesters.get(&r), None);
    assert_eq!(state.requesters.len(), 0);
}

#[test]
fn requested_round_is_opened_under_the_current_settings() {
    let mut state = setup(100, &["A", "B"], 2, 2, 0);
    execute_set_requester_permissions(&mut state, &env(), &info("owner"), Addr::unchecked("R"), true, 2)
        .unwrap();
    // round 0 has not been updated and cannot time out
    let error = rejected(&mut state, |s| execute_request_new_round(s, &env(), &info("R")));
    assert_eq!(error, ContractError::NotSupersedable {});
    submit(&mut state, START, "A", 1, 10);
    let late = START + TIMEOUT as u64 + 1;
    let response = execute_request_new_round(&mut state, &env_at(late), &info("R")).unwrap();
    assert_eq!(response.data, Some(2));
    assert!(response.events.is_empty() && response.messages.is_empty());
    assert_eq!(state.reporting_round_id, 2);
    assert_eq!(
        state.rounds[1],
        Round {
            answer: None,
            started_at: Some(START),
            updated_at: Some(late),
            answered_in_round: (START as u32) - TIMEOUT,
        }
    );
    assert_eq!(state.details[1], None);
    assert_eq!(
        state.details[2],
        Some(RoundDetails {
            submissions: vec![],
            max_submissions: 2,
            min_submissions: 2,
            timeout: TIMEOUT,
            payment_amount: PAYMENT,
        })
    );
    assert_eq!(
        state.requesters.get(&Addr::unchecked("R")),
        Some(&Requester { authorized: true, delay: 2, last_started_round: 2 })
    );
    // rounds 3 and 4 are within the delay of the requester, round 5 is not
    submit(&mut state, late, "A", 2, 10);
    submit(&mut state, late, "B", 2, 10);
    let error = rejected(&mut state, |s| execute_request_new_round(s, &env_at(late), &info("R")));
    assert_eq!(error, ContractError::DelayNotRespected {});
    submit(&mut state, late, "A", 3, 10);
    submit(&mut state, late, "B", 3, 10);
    let error = rejected(&mut state, |s| execute_request_new_round(s, &env_at(late), &info("R")));
    assert_eq!(error, ContractError::DelayNotRespected {});
    submit(&mut state, late, "A", 4, 10);
    submit(&mut state, late, "B", 4, 10);
    let response = execute_request_new_round(&mut state, &env_at(late), &info("R")).unwrap();
    assert_eq!(response.data, Some(5));
}

#[test]
fn ownership_handoff_takes_two_steps() {
    let mut state = setup(100, &[], 0, 0, 0);
    let next = Addr::unchecked("next");
    let error = rejected(&mut state, |s| {
        execute_transfer_ownership(s, &env(), &info("next"), next.clone())
    });
    assert_eq!(error, ContractError::Owned(OwnedError::OnlyOwner {}));
    let error = rejected(&mut state, |s| execute_accept_ownership(s, &env(), &info("next")));
    assert_eq!(error, ContractError::Owned(OwnedError::MustBeProposed {}));
    assert_eq!(error.to_string(), "Must be proposed");
    let response =
        execute_transfer_ownership(&mut state, &env(), &info("owner"), next.clone()).unwrap();
    assert_eq!(
        response.attributes(),
        vec![attr("action", "ownership transferred"), attr("pending_owner", "next")]
    );
    assert_eq!(get_owner(&state), Addr::unchecked("owner"));
    assert_eq!(validate_ownership(&state, &info("owner")), Ok(()));
    let response = execute_accept_ownership(&mut state, &env(), &info("next")).unwrap();
    assert_eq!(response.events, vec![Event::OwnershipAccepted { owner: next.clone() }]);
    assert_eq!(get_owner(&state), next);
    assert_eq!(validate_ownership(&state, &info("owner")), Err(ContractError::NotOwner {}));
    assert_eq!(state.owner.pending_owner, None);
}

#[test]
fn queries_answer_from_the_state() {
    let mut state = setup(100, &["A", "B"], 1, 2, 0);
    submit(&mut state, START, "A", 1, 10);
    let ask = |state: &Aggregator, msg: QueryMsg| query(state, &env(), &msg);
    assert_eq!(ask(&state, QueryMsg::GetOwner {}), Ok(QueryResponse::Owner(Addr::unchecked("owner"))));
    assert_eq!(ask(&state, QueryMsg::GetAllocatedFunds {}), Ok(QueryResponse::AllocatedFunds(3)));
    assert_eq!(ask(&state, QueryMsg::GetAvailableFunds {}), Ok(QueryResponse::AvailableFunds(97)));
    assert_eq!(ask(&state, QueryMsg::GetOracleCount {}), Ok(QueryResponse::OracleCount(2)));
    assert_eq!(ask(&state, QueryMsg::GetOracles {}), Ok(QueryResponse::Oracles(addrs(&["A", "B"]))));
    assert_eq!(
        ask(&state, QueryMsg::GetWithdrawablePayment { oracle: Addr::unchecked("A") }),
        Ok(QueryResponse::WithdrawablePayment(3))
    );
    assert_eq!(
        ask(&state, QueryMsg::GetAdmin { oracle: Addr::unchecked("B") }),
        Ok(QueryResponse::Admin(Addr::unchecked("B")))
    );
    assert_eq!(
        ask(&state, QueryMsg::GetWithdrawablePayment { oracle: Addr::unchecked("X") }),
        Err(ContractError::Std(StdError::not_found("flux_aggregator::state::OracleStatus")))
    );
    let expected = RoundDataResponse {
        round_id: 1,
        answer: Some(10),
        started_at: Some(START),
        updated_at: Some(START),
        answered_in_round: 1,
    };
    assert_eq!(ask(&state, QueryMsg::GetRoundData { round_id: 1 }), Ok(QueryResponse::RoundData(expected)));
    assert_eq!(ask(&state, QueryMsg::GetLatestRoundData {}), Ok(QueryResponse::RoundData(expected)));
    assert_eq!(
        ask(&state, QueryMsg::GetRoundData { round_id: 2 }),
        Err(ContractError::Std(StdError::not_found("flux_aggregator::state::Round")))
    );
    match ask(&state, QueryMsg::GetAggregatorConfig {}).unwrap() {
        QueryResponse::AggregatorConfig(config) => {
            assert_eq!(config.link, Addr::unchecked("link"));
            assert_eq!(config.validator, Addr::unchecked("validator"));
            assert_eq!(config.payment_amount, 3);
            assert_eq!(config.min_submission_count, 1);
            assert_eq!(config.max_submission_count, 2);
            assert_eq!(config.restart_delay, 0);
            assert_eq!(config.timeout, TIMEOUT);
            assert_eq!(config.decimals, 18);
            assert_eq!(config.description, "LINK/USD");
            assert_eq!(config.min_submission_value, 1);
            assert_eq!(config.max_submission_value, 10_000_000);
        }
        other => panic!("{:?}", other),
    }
}

#[test]
fn round_without_an_answer_has_no_data() {
    let mut state = setup(100, &["A", "B"], 2, 2, 0);
    submit(&mut state, START, "A", 1, 10);
    assert_eq!(get_round_data(&state, &env(), 1), Err(ContractError::NoData {}));
    assert_eq!(ContractError::NoData {}.to_string(), "No data present");
}

#[test]
fn states_put_together_by_hand_are_checked() {
    let state = setup(100, &["A", "B"], 1, 2, 0);
    assert!(state.is_well_formed());
    let mut broken = state.clone();
    broken.rounds.push(Round::default());
    assert!(!broken.is_well_formed());
    let mut broken = state.clone();
    broken.latest_round_id = 1;
    assert!(!broken.is_well_formed());
    let mut broken = state.clone();
    broken.details[0] = Some(RoundDetails {
        submissions: vec![],
        max_submissions: 1,
        min_submissions: 1,
        timeout: 1,
        payment_amount: 1,
    });
    assert!(!broken.is_well_formed());
    let mut opened = state.clone();
    submit(&mut opened, START, "A", 1, 10);
    assert!(opened.is_well_formed());
    let mut broken = opened.clone();
    broken.rounds[1].answered_in_round = 2;
    assert!(!broken.is_well_formed());
    let mut broken = opened.clone();
    broken.rounds[1].updated_at = None;
    assert!(!broken.is_well_formed());
    let mut broken = state.clone();
    for i in 0..76 {
        broken.oracle_addresses.push(Addr::unchecked(&format!("extra{}", i)));
    }
    assert!(!broken.is_well_formed());
    assert_eq!(Requester::default(), Requester { authorized: false, delay: 0, last_started_round: 0 });
    assert_eq!(Funds::default(), Funds { available: 0, allocated: 0 });
}

#[test]
fn numbers_and_flags_are_logged_in_plain_text() {
    assert_eq!(decimal(0), "0");
    assert_eq!(decimal(7), "7");
    assert_eq!(decimal(10), "10");
    assert_eq!(decimal(1_571_797_419), "1571797419");
    assert_eq!(decimal(u128::MAX), "340282366920938463463374607431768211455");
    assert_eq!(flag(true), "true");
    assert_eq!(flag(false), "false");
    let event = Event::AnswerUpdated { current: 150, round_id: 12 };
    assert_eq!(
        event.attributes(),
        vec![attr("action", "answer updated"), attr("current", "150"), attr("round_id", "12")]
    );
    let event = Event::NewRound { started_by: Addr::unchecked("Ned"), started_at: 99 };
    assert_eq!(
        event.attributes(),
        vec![attr("action", "new round"), attr("started by", "Ned"), attr("started at", "99")]
    );
    let event = Event::RoundDetailsUpdated {
        payment_amount: 1,
        min_submissions: 2,
        max_submissions: 3,
        restart_delay: 4,
        timeout: 5,
    };
    assert_eq!(
        event.attributes(),
        vec![
            attr("action", "round_details_updated"),
            attr("payment_amount", "1"),
            attr("min_submissions", "2"),
            attr("max_submissions", "3"),
            attr("restart_delay", "4"),
            attr("timeout", "5"),
        ]
    );
}

#[test]
fn seconds_are_whole() {
    assert_eq!(timestamp_to_seconds(Timestamp { nanos: 0 }), 0);
    assert_eq!(timestamp_to_seconds(Timestamp { nanos: 999_999_999 }), 0);
    assert_eq!(timestamp_to_seconds(Timestamp { nanos: 1_000_000_000 }), 1);
    assert_eq!(timestamp_to_seconds(Timestamp { nanos: u64::MAX }), 18_446_744_073);
}

#[test]
fn request_oracle_errors_become_generic_errors() {
    assert_eq!(ContractErr::NotOwner.to_std(), StdError::generic_err("Only callable by owner"));
    assert_eq!(
        ContractErr::NotEnoughFunds.std_err::<u32>(),
        Err(StdError::generic_err("Amount requested is greater than withdrawable balance"))
    );
    assert_eq!(ContractErr::NoAccess.to_string(), "No Access");
    assert_eq!(ContractErr::BadCallback.to_string(), "Cannot callback to LINK");
    assert_eq!(ContractErr::NotUniqueId.to_string(), "Must use a unique ID");
    assert_eq!(
        ContractErr::NotAuthorizedNode.std_err::<()>(),
        Err(StdError::generic_err("Not an authorized node to fulfill requests"))
    );
}

#[test]
fn every_rejection_has_its_text() {
    let texts = [
        (ContractError::MinGreaterThanMax {}, "Min cannot be greater than max"),
        (ContractError::MaxGreaterThanTotal {}, "Max cannot exceed total"),
        (ContractError::MinLessThanZero {}, "Min must be greater than 0"),
        (ContractError::NoData {}, "No data present"),
        (ContractError::UnderMin {}, "Value under threshold"),
        (ContractError::OverMax {}, "Value over threshold"),
        (ContractError::NotOwner {}, "Only callable by owner"),
        (ContractError::NotAdmin {}, "Only callable by admin"),
        (ContractError::OverwritingAdmin {}, "Owner cannot overwrite admin"),
        (ContractError::NotPendingAdmin {}, "Only callable by pending admin"),
        (ContractError::PendingAdminMissing {}, "No pending admin"),
        (ContractError::OracleAdminCountMismatch {}, "Need same oracle and admin count"),
        (ContractError::MaxOraclesAllowed {}, "Cannot add more oracles"),
        (ContractError::OracleAlreadyEnabled {}, "Oracle already enabled"),
        (ContractError::OracleNotEnabled {}, "Oracle not enabled"),
        (ContractError::OracleNotYetEnabled {}, "Oracle not yet enabled"),
        (ContractError::NoLongerAllowed {}, "Oracle no longer allowed"),
        (ContractError::InsufficientFunds {}, "Insufficient funds for payment"),
        (ContractError::InsufficientWithdrawableFunds {}, "Insufficient withdrawable funds"),
        (ContractError::InsufficientReserveFunds {}, "Insufficient reserve funds"),
        (ContractError::DelayGreaterThanTotal {}, "Delay cannot exceed total"),
        (ContractError::DelayNotRespected {}, "Delay restriction not respected"),
        (ContractError::ReportingPreviousRound {}, "Cannot report on previous rounds"),
        (ContractError::NotSupersedable {}, "Previous round not supersedable"),
        (ContractError::InvalidRound {}, "Invalid round to report"),
        (ContractError::NotAcceptingSubmissions {}, "Round not accepting submissions"),
        (ContractError::NoSubmissions {}, "NoSubmissions"),
        (ContractError::UnexpectedReceivePayload {}, "Receive does not expect payload"),
        (ContractError::Unauthorized {}, "Unauthorized requester"),
        (ContractError::Owned(OwnedError::OnlyOwner {}), "Only callable by owner"),
    ];
    for (error, text) in texts.iter() {
        assert_eq!(error.to_string(), *text);
    }
    let error = ContractError::Std(StdError::generic_err("boom"));
    assert_eq!(error.to_string(), "Generic error: boom");
}

#[test]
fn wrapped_value_is_read_back() {
    let wrapped = Immutable::new(17_u32);
    assert_eq!(*wrapped.get(), 17);
    let wrapped = Immutable::new(String::from("LINK/USD"));
    assert_eq!(wrapped.get(), "LINK/USD");
    assert_eq!(MigrateMsg {}, MigrateMsg {});
    assert_eq!(FlaggingThresholdResponse { threshold: 80000 }.threshold, 80000);
}
