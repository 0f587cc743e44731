//! What the aggregator keeps between calls.

use crate::addr::{Addr, AddrMap};
use crate::error::{checked_add, checked_sub};
use crate::model;
use crate::owned;
use cosmwasm_std::StdError;
use vstd::prelude::*;

verus! {

/// The `ending_round` of an oracle that is active.
pub const ROUND_MAX: u32 = 0xffff_ffff;

/// The largest number of active oracles.
pub const MAX_ORACLE_COUNT: usize = 77;

/// For how many rounds the reserve must pay every active oracle.
pub const RESERVE_ROUNDS: u128 = 2;

/// The settings under which new rounds are opened.
#[derive(Debug, PartialEq)]
pub struct Config {
    pub link: Addr,
    pub validator: Addr,
    pub payment_amount: u128,
    pub max_submission_count: u32,
    pub min_submission_count: u32,
    pub restart_delay: u32,
    pub timeout: u32,
    pub decimals: u8,
    pub description: String,
    pub min_submission_value: u128,
    pub max_submission_value: u128,
}

impl Clone for Config {
    fn clone(&self) -> (copy: Self)
        ensures
            copy == *self,
    {
        Config {
            link: self.link.clone(),
            validator: self.validator.clone(),
            payment_amount: self.payment_amount,
            max_submission_count: self.max_submission_count,
            min_submission_count: self.min_submission_count,
            restart_delay: self.restart_delay,
            timeout: self.timeout,
            decimals: self.decimals,
            description: self.description.clone(),
            min_submission_value: self.min_submission_value,
            max_submission_value: self.max_submission_value,
        }
    }
}

/// What the aggregator knows of one oracle. An oracle is active while its
/// `ending_round` is `ROUND_MAX`; it has never been enabled while its
/// `starting_round` is 0.
#[derive(Debug, PartialEq)]
pub struct OracleStatus {
    pub withdrawable: u128,
    pub starting_round: u32,
    pub ending_round: u32,
    pub last_reported_round: Option<u32>,
    pub last_started_round: Option<u32>,
    pub latest_submission: Option<u128>,
    pub index: u16,
    pub admin: Addr,
    pub pending_admin: Option<Addr>,
}

impl Clone for OracleStatus {
    fn clone(&self) -> (copy: Self)
        ensures
            copy == *self,
    {
        let pending_admin = match &self.pending_admin {
            Some(a) => Some(a.clone()),
            None => None,
        };
        OracleStatus {
            withdrawable: self.withdrawable,
            starting_round: self.starting_round,
            ending_round: self.ending_round,
            last_reported_round: self.last_reported_round,
            last_started_round: self.last_started_round,
            latest_submission: self.latest_submission,
            index: self.index,
            admin: self.admin.clone(),
            pending_admin,
        }
    }
}

/// One round. `answered_in_round` is the round whose answer applies to this
/// one; 0 means that there is none.
#[derive(Debug, Clone, Copy, PartialEq)]
pub struct Round {
    pub answer: Option<u128>,
    pub started_at: Option<u64>,
    pub updated_at: Option<u64>,
    pub answered_in_round: u32,
}

impl Default for Round {
    fn default() -> (round: Self)
        ensures
            round == (Round {
                answer: None,
                started_at: None,
                updated_at: None,
                answered_in_round: 0,
            }),
    {
        Round { answer: None, started_at: None, updated_at: None, answered_in_round: 0 }
    }
}

/// The working state of a round that still takes submissions. The limits and
/// the payment are those of the configuration at the time the round was
/// opened.
#[derive(Debug, PartialEq)]
pub struct RoundDetails {
    pub submissions: Vec<u128>,
    pub max_submissions: u32,
    pub min_submissions: u32,
    pub timeout: u32,
    pub payment_amount: u128,
}

/// A `RoundDetails` as a mathematical value.
#[verifier::ext_equal]
pub struct RoundDetailsView {
    pub submissions: Seq<u128>,
    pub max_submissions: u32,
    pub min_submissions: u32,
    pub timeout: u32,
    pub payment_amount: u128,
}

impl View for RoundDetails {
    type V = RoundDetailsView;

    open spec fn view(&self) -> RoundDetailsView {
        RoundDetailsView {
            submissions: self.submissions@,
            max_submissions: self.max_submissions,
            min_submissions: self.min_submissions,
            timeout: self.timeout,
            payment_amount: self.payment_amount,
        }
    }
}

impl Clone for RoundDetails {
    fn clone(&self) -> (copy: Self)
        ensures
            copy@ == self@,
    {
        let mut submissions: Vec<u128> = Vec::new();
        let mut i: usize = 0;
        while i < self.submissions.len()
            invariant
                i <= self.submissions@.len(),
                submissions@ == self.submissions@.take(i as int),
            decreases self.submissions@.len() - i,
        {
            submissions.push(self.submissions[i]);
            assert(submissions@ =~= self.submissions@.take(i + 1));
            i += 1;
        }
        assert(submissions@ =~= self.submissions@);
        RoundDetails {
            submissions,
            max_submissions: self.max_submissions,
            min_submissions: self.min_submissions,
            timeout: self.timeout,
            payment_amount: self.payment_amount,
        }
    }
}

/// The working state of a round, if it has one, as a mathematical value.
pub open spec fn details_view(details: Option<RoundDetails>) -> Option<RoundDetailsView> {
    match details {
        Some(d) => Some(d@),
        None => None,
    }
}

/// Someone who may ask for a new round: `delay` is the number of rounds to
/// wait after `last_started_round` (0: none started yet).
#[derive(Debug, Clone, Copy, PartialEq)]
pub struct Requester {
    pub authorized: bool,
    pub delay: u32,
    pub last_started_round: u32,
}

impl Default for Requester {
    fn default() -> (requester: Self)
        ensures
            requester == (Requester { authorized: false, delay: 0, last_started_round: 0 }),
    {
        Requester { authorized: false, delay: 0, last_started_round: 0 }
    }
}

/// The funding pool: what is free to pay future submissions, and what has
/// been earned by oracles and not withdrawn yet.
#[derive(Debug, Clone, Copy, PartialEq)]
pub struct Funds {
    pub available: u128,
    pub allocated: u128,
}

impl Default for Funds {
    fn default() -> (funds: Self)
        ensures
            funds == (Funds { available: 0, allocated: 0 }),
    {
        Funds { available: 0, allocated: 0 }
    }
}

impl Funds {
    /// Records a payment to an oracle: the amount moves from the available
    /// to the allocated funds. Fails, and changes nothing, where the
    /// available funds do not cover the amount.
    pub fn record_payment(&mut self, amount: u128) -> (res: Result<(), StdError>)
        ensures
            match model::record_payment(*old(self), amount) {
                Ok(after) => res is Ok && *final(self) == after,
                Err(fault) => res matches Err(error) && error == fault && *final(self) == *old(
                    self,
                ),
            },
    {
        let available = match checked_sub(self.available, amount) {
            Ok(left) => left,
            Err(error) => {
                return Err(error);
            },
        };
        let allocated = match checked_add(self.allocated, amount) {
            Ok(sum) => sum,
            Err(error) => {
                return Err(error);
            },
        };
        self.available = available;
        self.allocated = allocated;
        Ok(())
    }

    /// Records a withdrawal of earnings: the amount leaves the allocated
    /// funds. Fails, and changes nothing, where they do not cover it.
    pub fn record_withdrawal(&mut self, amount: u128) -> (res: Result<(), StdError>)
        ensures
            match model::record_withdrawal(*old(self), amount) {
                Ok(after) => res is Ok && *final(self) == after,
                Err(fault) => res matches Err(error) && error == fault && *final(self) == *old(
                    self,
                ),
            },
    {
        match checked_sub(self.allocated, amount) {
            Ok(left) => {
                self.allocated = left;
                Ok(())
            },
            Err(error) => Err(error),
        }
    }

    /// Reconciles the funds with the balance that the token ledger reports:
    /// the available funds become the balance less the allocated funds. The
    /// result says whether this changed them. Fails, and changes nothing,
    /// where the balance does not cover the allocated funds.
    pub fn refresh_available(&mut self, balance: u128) -> (res: Result<bool, StdError>)
        ensures
            match model::refresh_available(*old(self), balance) {
                Ok(after) => res matches Ok(changed) && *final(self) == after && changed == (
                after.available != old(self).available),
                Err(fault) => res matches Err(error) && error == fault && *final(self) == *old(
                    self,
                ),
            },
    {
        match checked_sub(balance, self.allocated) {
            Ok(now_available) => {
                let changed = self.available != now_available;
                self.available = now_available;
                Ok(changed)
            },
            Err(error) => Err(error),
        }
    }
}

/// The whole state of the aggregator.
///
/// `rounds` and `details` are indexed by round id and hold every round up to
/// the reporting round.
#[derive(Debug, Clone, PartialEq)]
pub struct Aggregator {
    pub owner: owned::State,
    pub config: Config,
    pub funds: Funds,
    pub oracles: AddrMap<OracleStatus>,
    pub oracle_addresses: Vec<Addr>,
    pub rounds: Vec<Round>,
    pub details: Vec<Option<RoundDetails>>,
    pub requesters: AddrMap<Requester>,
    pub reporting_round_id: u32,
    pub latest_round_id: u32,
}

/// The state of the aggregator as a mathematical value.
#[verifier::ext_equal]
pub struct AggregatorView {
    pub owner: owned::State,
    pub config: Config,
    pub funds: Funds,
    pub oracles: Map<Seq<char>, OracleStatus>,
    pub oracle_addresses: Seq<Addr>,
    pub rounds: Seq<Round>,
    pub details: Seq<Option<RoundDetailsView>>,
    pub requesters: Map<Seq<char>, Requester>,
    pub reporting_round_id: u32,
    pub latest_round_id: u32,
}

/// What holds of a round after round 0, given its working state: while it
/// has not been updated, no answer applies to it; once it has been updated and
/// while it still takes submissions, its own answer applies to it.
pub open spec fn round_in_order(
    round: Round,
    details: Option<RoundDetailsView>,
    round_id: int,
) -> bool {
    &&& round.updated_at is None ==> round.answered_in_round == 0
    &&& round.updated_at is Some && details is Some ==> round.answered_in_round == round_id
}

impl AggregatorView {
    /// What holds of every state that the aggregator reaches: there is a
    /// round for every id up to the reporting round and for no other; round 0
    /// never takes submissions; every round after it is in order; the latest
    /// answered round is not after the reporting round, and is before it
    /// while the reporting round has not been updated; and there are no more
    /// active oracles than allowed.
    pub open spec fn wf(self) -> bool {
        &&& self.rounds.len() == self.reporting_round_id + 1
        &&& self.details.len() == self.rounds.len()
        &&& self.details[0] is None
        &&& forall|round_id: int|
            1 <= round_id < self.rounds.len() ==> round_in_order(
                #[trigger] self.rounds[round_id],
                self.details[round_id],
                round_id,
            )
        &&& self.latest_round_id <= self.reporting_round_id
        &&& (self.reporting_round_id > 0 && self.rounds[self.reporting_round_id as int].updated_at
            is None) ==> self.latest_round_id < self.reporting_round_id
        &&& self.oracle_addresses.len() <= MAX_ORACLE_COUNT
    }
}

impl View for Aggregator {
    type V = AggregatorView;

    open spec fn view(&self) -> AggregatorView {
        AggregatorView {
            owner: self.owner,
            config: self.config,
            funds: self.funds,
            oracles: self.oracles@,
            oracle_addresses: self.oracle_addresses@,
            rounds: self.rounds@,
            details: self.details@.map_values(|d: Option<RoundDetails>| details_view(d)),
            requesters: self.requesters@,
            reporting_round_id: self.reporting_round_id,
            latest_round_id: self.latest_round_id,
        }
    }
}

impl Aggregator {
    /// The two tables are in order, and the state is one that the aggregator
    /// reaches.
    pub open spec fn wf(&self) -> bool {
        &&& self.oracles.wf()
        &&& self.requesters.wf()
        &&& self@.wf()
    }

    /// Whether the state is well formed. Every call of the aggregator asks
    /// for a well-formed state and leaves one: a state that was put together
    /// by hand is to be checked with this before it is used.
    pub fn is_well_formed(&self) -> (ok: bool)
        ensures
            ok == self.wf(),
    {
        if !self.oracles.is_well_formed() || !self.requesters.is_well_formed() {
            return false;
        }
        if (self.rounds.len() as u64) != (self.reporting_round_id as u64) + 1
            || self.details.len() != self.rounds.len() {
            return false;
        }
        let reporting = self.reporting_round_id as usize;
        if self.details[0].is_some() {
            return false;
        }
        if self.latest_round_id > self.reporting_round_id {
            return false;
        }
        if self.reporting_round_id > 0 && self.rounds[reporting].updated_at.is_none()
            && self.latest_round_id >= self.reporting_round_id {
            return false;
        }
        let mut i: usize = 1;
        while i < self.rounds.len()
            invariant
                1 <= i,
                self.details@.len() == self.rounds@.len(),
                forall|round_id: int|
                    1 <= round_id < i ==> round_in_order(
                        #[trigger] self@.rounds[round_id],
                        self@.details[round_id],
                        round_id,
                    ),
            decreases self.rounds@.len() - i,
        {
            let round = self.rounds[i];
            if round.updated_at.is_none() {
                if round.answered_in_round != 0 {
                    assert(!round_in_order(self@.rounds[i as int], self@.details[i as int], i as int));
                    return false;
                }
            } else if self.details[i].is_some() && round.answered_in_round as usize != i {
                assert(!round_in_order(self@.rounds[i as int], self@.details[i as int], i as int));
                return false;
            }
            i += 1;
        }
        self.oracle_addresses.len() <= MAX_ORACLE_COUNT
    }
}

} // verus!
