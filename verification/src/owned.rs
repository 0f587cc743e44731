//! Two-step handoff of the ownership of a contract: the owner proposes a
//! successor, and the successor accepts.

use crate::addr::Addr;
use crate::error::OwnedError;
use vstd::prelude::*;

verus! {

/// Who owns the contract, and whom the owner has proposed as successor.
#[derive(Debug, PartialEq)]
pub struct State {
    pub owner: Addr,
    pub pending_owner: Option<Addr>,
}

impl Clone for State {
    fn clone(&self) -> (copy: Self)
        ensures
            copy == *self,
    {
        let pending_owner = match &self.pending_owner {
            Some(a) => Some(a.clone()),
            None => None,
        };
        State { owner: self.owner.clone(), pending_owner }
    }
}

/// The state of a contract that `sender` has just created: `sender` owns it
/// and nobody is proposed.
pub fn instantiate(sender: Addr) -> (state: State)
    ensures
        state == (State { owner: sender, pending_owner: None }),
{
    State { owner: sender, pending_owner: None }
}

/// The owner proposes `to` as the next owner. Anyone else is rejected with
/// `OnlyOwner`, and the state stays as it was.
pub fn handle_transfer_ownership(state: &mut State, sender: &Addr, to: Addr) -> (res: Result<
    (),
    OwnedError,
>)
    ensures
        sender@ == old(state).owner@ ==> res is Ok && *final(state) == (State {
            owner: old(state).owner,
            pending_owner: Some(to),
        }),
        sender@ != old(state).owner@ ==> res == Err::<(), OwnedError>(OwnedError::OnlyOwner {  })
            && *final(state) == *old(state),
{
    if !sender.same(&state.owner) {
        return Err(OwnedError::OnlyOwner {  });
    }
    state.pending_owner = Some(to);
    Ok(())
}

/// Whether `sender` is the proposed owner.
pub open spec fn is_proposed(state: State, sender: Addr) -> bool {
    state.pending_owner matches Some(p) && p@ == sender@
}

/// The proposed owner takes the ownership, and nobody is proposed any more.
/// Anyone else is rejected with `MustBeProposed`, also where nobody is
/// proposed, and the state stays as it was.
pub fn handle_accept_ownership(state: &mut State, sender: &Addr) -> (res: Result<(), OwnedError>)
    ensures
        is_proposed(*old(state), *sender) ==> res is Ok && *final(state) == (State {
            owner: *sender,
            pending_owner: None,
        }),
        !is_proposed(*old(state), *sender) ==> res == Err::<(), OwnedError>(
            OwnedError::MustBeProposed {  },
        ) && *final(state) == *old(state),
{
    let proposed = match &state.pending_owner {
        Some(p) => p.same(sender),
        None => false,
    };
    if !proposed {
        return Err(OwnedError::MustBeProposed {  });
    }
    state.owner = sender.clone();
    state.pending_owner = None;
    Ok(())
}

/// The owner.
pub fn get_owner(state: &State) -> (owner: Addr)
    ensures
        owner == state.owner,
{
    state.owner.clone()
}

} // verus!
