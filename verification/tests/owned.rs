use flux_aggregator::addr::Addr;
use flux_aggregator::error::OwnedError;
use flux_aggregator::owned::{
    get_owner, handle_accept_ownership, handle_transfer_ownership, instantiate,
};

static MOCK_CONTRACT_ADDR: &str = "cosmos2contract";

#[test]
fn contract_proper_initialization() {
    let sender = Addr::unchecked("creator");
    // creating the state cannot fail
    let state = instantiate(sender.clone());
    assert_eq!(None, state.pending_owner);

    // it worked, let's query the state
    let res = get_owner(&state);
    assert_eq!(sender.to_string(), res.to_string());
}

#[test]
fn integration_proper_initialization() {
    let state = instantiate(Addr::unchecked("creator"));
    assert_eq!(get_owner(&state).as_str(), "creator");
}

#[test]
fn transfer_ownership() {
    let sender = Addr::unchecked("creator");
    let mut state = instantiate(sender.clone());
    assert_eq!(None, state.pending_owner);

    let mock_addr = String::from(MOCK_CONTRACT_ADDR);

    let res = handle_transfer_ownership(&mut state, &sender, Addr::unchecked(&mock_addr));
    assert_eq!(Ok(()), res);

    let res = state.pending_owner.clone().unwrap();

    assert_eq!(mock_addr, res.to_string());
}

#[test]
fn accept_ownership() {
    let sender = Addr::unchecked("creator");
    let mut state = instantiate(sender.clone());
    assert_eq!(None, state.pending_owner);

    let mock_addr = String::from(MOCK_CONTRACT_ADDR);

    let res = handle_transfer_ownership(&mut state, &sender, Addr::unchecked(&mock_addr));
    assert_eq!(Ok(()), res);

    let res = state.pending_owner.clone().unwrap();

    assert_eq!(mock_addr, res.to_string());
    let res = handle_accept_ownership(&mut state, &Addr::unchecked(MOCK_CONTRACT_ADDR));
    assert_eq!(Ok(()), res);

    let res = state.owner.clone();
    assert_eq!(mock_addr, res.to_string());
    let new_pending_owner = state.pending_owner.clone();
    assert_eq!(true, new_pending_owner.is_none());
}

#[test]
fn transfer_ownership_by_stranger_is_rejected() {
    let mut state = instantiate(Addr::unchecked("creator"));
    let before = state.clone();
    let res = handle_transfer_ownership(
        &mut state,
        &Addr::unchecked("stranger"),
        Addr::unchecked("stranger"),
    );
    assert_eq!(res, Err(OwnedError::OnlyOwner {}));
    assert_eq!(state, before);
}

#[test]
fn accept_ownership_without_proposal_is_rejected() {
    let mut state = instantiate(Addr::unchecked("creator"));
    let before = state.clone();
    let res = handle_accept_ownership(&mut state, &Addr::unchecked("creator"));
    assert_eq!(res, Err(OwnedError::MustBeProposed {}));
    assert_eq!(state, before);

    handle_transfer_ownership(&mut state, &Addr::unchecked("creator"), Addr::unchecked("next"))
        .unwrap();
    let res = handle_accept_ownership(&mut state, &Addr::unchecked("other"));
    assert_eq!(res, Err(OwnedError::MustBeProposed {}));
    assert_eq!(OwnedError::MustBeProposed {}.to_string(), "Must be proposed");
    assert_eq!(OwnedError::OnlyOwner {}.to_string(), "Only callable by owner");
}
