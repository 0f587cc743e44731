//! What callers send to the aggregator, and what it answers.

use crate::addr::Addr;
use vstd::prelude::*;

verus! {

/// A point in time, in nanoseconds since the epoch.
#[derive(Debug, Clone, Copy, PartialEq)]
pub struct Timestamp {
    pub nanos: u64,
}

/// Where and when a call runs.
#[derive(Debug, Clone, PartialEq)]
pub struct Env {
    /// The time of the block that holds the call.
    pub time: Timestamp,
    /// The address of the aggregator itself.
    pub contract_address: Addr,
}

/// Who makes a call.
#[derive(Debug, Clone, PartialEq)]
pub struct MessageInfo {
    pub sender: Addr,
}

/// A token transfer as the token ledger reports it to the receiver.
#[derive(Debug, PartialEq)]
pub struct ReceiveMsg {
    pub sender: String,
    pub amount: u128,
    pub msg: Vec<u8>,
}

/// A call that the aggregator asks to be made after its own call has
/// succeeded.
#[derive(Debug, PartialEq)]
pub enum Message {
    /// Ask the token ledger `token` to transfer `amount` to `recipient`.
    Transfer { token: Addr, recipient: String, amount: u128 },
    /// Ask the aggregator at `contract` to reconcile its available funds.
    UpdateAvailableFunds { contract: Addr },
}

/// What a successful call reports of what it did.
#[derive(Debug, PartialEq)]
pub enum Event {
    /// A round was opened.
    NewRound { started_by: Addr, started_at: u64 },
    /// A round was settled on an answer.
    AnswerUpdated { current: u128, round_id: u32 },
    /// The admin of an oracle proposed a successor.
    TransferAdmin { oracle: Addr, sender: Addr, new_admin: Addr },
    /// The proposed admin of an oracle took over.
    OracleAdminUpdated { oracle: Addr, new_admin: Addr },
    /// The available funds were reconciled to a new amount.
    AvailableFundsUpdated { amount: u128 },
    /// A requester was authorised or deauthorised.
    RequesterPermissionSet { requester: Addr, authorized: bool, delay: u32 },
    /// The settings for future rounds were replaced.
    RoundDetailsUpdated {
        payment_amount: u128,
        min_submissions: u32,
        max_submissions: u32,
        restart_delay: u32,
        timeout: u32,
    },
    /// The validator was replaced.
    ValidatorUpdated { previous: Addr, new: Addr },
    /// The owner proposed a successor.
    OwnershipTransferred { pending_owner: Addr },
    /// The proposed owner took over.
    OwnershipAccepted { owner: Addr },
}

/// The answer to a successful call.
#[derive(Debug, PartialEq)]
pub struct Response {
    /// The calls to make next, in order.
    pub messages: Vec<Message>,
    /// What the call did, in order.
    pub events: Vec<Event>,
    /// The id of the round that the call opened on request.
    pub data: Option<u32>,
}

/// The settings with which an aggregator is created.
#[derive(Debug, PartialEq)]
pub struct InstantiateMsg {
    /// Address of the token ledger
    pub link: Addr,
    /// Amount paid to each oracle per submission
    pub payment_amount: u128,
    /// The number of seconds after the previous round that are allowed to
    /// lapse before allowing an oracle to skip an unfinished round
    pub timeout: u32,
    /// Address of the external data validation
    pub validator: Addr,
    /// The lower bound of the submission values that are accepted
    pub min_submission_value: u128,
    /// The upper bound of the submission values that are accepted
    pub max_submission_value: u128,
    /// The number of decimals to offset the answer by
    pub decimals: u8,
    /// A short description of what is being reported
    pub description: String,
}

/// The settings with which an aggregator moves to new code: there are none.
#[derive(Debug, Clone, Copy, PartialEq)]
pub struct MigrateMsg {}

/// The calls that change the aggregator.
#[derive(Debug, PartialEq)]
pub enum ExecuteMsg {
    /// The owner proposes a successor.
    TransferOwnership { to: Addr },
    /// The proposed owner takes over.
    AcceptOwnership {},
    /// An oracle submits a value for a round.
    Submit { round_id: u32, submission: u128 },
    /// The owner removes and adds oracles and sets the limits that depend on
    /// their number.
    ChangeOracles {
        removed: Vec<Addr>,
        added: Vec<Addr>,
        added_admins: Vec<Addr>,
        min_submissions: u32,
        max_submissions: u32,
        restart_delay: u32,
    },
    /// The admin of an oracle has its earnings sent to `recipient`.
    WithdrawPayment { oracle: Addr, recipient: String, amount: u128 },
    /// The owner has free funds sent to `recipient`.
    WithdrawFunds { recipient: String, amount: u128 },
    /// The admin of an oracle proposes a successor.
    TransferAdmin { oracle: Addr, new_admin: Addr },
    /// The proposed admin of an oracle takes over.
    AcceptAdmin { oracle: Addr },
    /// An authorised requester asks for a new round.
    RequestNewRound {},
    /// The owner authorises or deauthorises a requester.
    SetRequesterPermissions { requester: Addr, authorized: bool, delay: u32 },
    /// The owner replaces the settings for future rounds.
    UpdateFutureRounds {
        payment_amount: u128,
        min_submissions: u32,
        max_submissions: u32,
        restart_delay: u32,
        timeout: u32,
    },
    /// Reconcile the available funds with `balance`, the aggregator's balance
    /// as the token ledger has just reported it.
    UpdateAvailableFunds { balance: u128 },
    /// The owner replaces the validator.
    SetValidator { validator: Addr },
    /// The token ledger reports a transfer to the aggregator.
    Receive(ReceiveMsg),
}

/// The questions that the aggregator answers.
#[derive(Debug, PartialEq)]
pub enum QueryMsg {
    GetOwner {},
    GetAggregatorConfig {},
    GetAllocatedFunds {},
    GetAvailableFunds {},
    GetWithdrawablePayment { oracle: Addr },
    GetOracleCount {},
    GetOracles {},
    GetAdmin { oracle: Addr },
    GetRoundData { round_id: u32 },
    GetLatestRoundData {},
}

/// The settings of the aggregator, as it reports them.
#[derive(Debug, PartialEq)]
pub struct ConfigResponse {
    pub link: Addr,
    pub validator: Addr,
    pub payment_amount: u128,
    pub max_submission_count: u32,
    pub min_submission_count: u32,
    pub restart_delay: u32,
    pub timeout: u32,
    pub decimals: u8,
    pub description: String,
    pub min_submission_value: u128,
    pub max_submission_value: u128,
}

/// One round, as the aggregator reports it.
#[derive(Debug, Clone, Copy, PartialEq)]
pub struct RoundDataResponse {
    pub round_id: u32,
    pub answer: Option<u128>,
    pub started_at: Option<u64>,
    pub updated_at: Option<u64>,
    pub answered_in_round: u32,
}

/// The answer to a question, by the question asked.
#[derive(Debug, PartialEq)]
pub enum QueryResponse {
    Owner(Addr),
    AggregatorConfig(ConfigResponse),
    AllocatedFunds(u128),
    AvailableFunds(u128),
    WithdrawablePayment(u128),
    OracleCount(u8),
    Oracles(Vec<Addr>),
    Admin(Addr),
    RoundData(RoundDataResponse),
}

} // verus!
