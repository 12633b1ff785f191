use crate::address::{bytes_eq, Address};
use vstd::prelude::*;

verus! {

/// The lifecycle of an escrow: `Active` from initialization until it is
/// settled, once, into `Withdrawn` or `Cancelled`.
#[derive(Clone, Copy, Debug, PartialEq, Eq, Structural)]
pub enum State {
    Active,
    Withdrawn,
    Cancelled,
}

/// Why an escrow operation was refused. A refused operation changes nothing.
#[derive(Clone, Copy, Debug, PartialEq, Eq, Structural)]
pub enum Error {
    AlreadyInitialized,
    NotInitialized,
    InvalidAddress,
    InvalidCaller,
    InvalidSecret,
    InvalidTime,
    AlreadyWithdrawn,
    AlreadyCancelled,
    InsufficientBalance,
    TransferFailed,
    InvalidImmutables,
}

/// What an escrow holds once it is initialized: its terms, who deployed it
/// and with which salt, and where it is in its lifecycle.
#[derive(Clone, Copy, Debug)]
pub struct Record<I> {
    pub immutables: I,
    pub deployer: Address,
    pub salt: [u8; 32],
    pub state: State,
}

/// The two transfers that settle an escrow: `amount` of `token` to
/// `recipient`, and the safety deposit, in the native asset, to
/// `deposit_recipient`.
#[derive(Clone, Copy, Debug)]
pub struct Payout {
    pub token: Address,
    pub recipient: Address,
    pub amount: i128,
    pub deposit_recipient: Address,
    pub safety_deposit: i128,
}

/// The error for an escrow that has already left `Active`.
pub open spec fn settled_error(state: State) -> Option<Error> {
    match state {
        State::Active => None,
        State::Withdrawn => Some(Error::AlreadyWithdrawn),
        State::Cancelled => Some(Error::AlreadyCancelled),
    }
}

/// Fails with `AlreadyWithdrawn` or `AlreadyCancelled` once the escrow has
/// been settled.
pub fn require_active(state: State) -> (r: Result<(), Error>)
    ensures
        r == (match settled_error(state) {
            Some(e) => Err::<(), Error>(e),
            None => Ok(()),
        }),
{
    match state {
        State::Active => Ok(()),
        State::Withdrawn => Err(Error::AlreadyWithdrawn),
        State::Cancelled => Err(Error::AlreadyCancelled),
    }
}

/// Fails with `InvalidSecret` unless `digest`, the digest of a revealed
/// secret, is the hashlock.
pub fn check_digest(digest: &[u8; 32], hashlock: &[u8; 32]) -> (r: Result<(), Error>)
    ensures
        r == (if digest@ == hashlock@ { Ok::<(), Error>(()) } else { Err(Error::InvalidSecret) }),
{
    if bytes_eq(digest, hashlock) {
        Ok(())
    } else {
        Err(Error::InvalidSecret)
    }
}

} // verus!
