use crate::address::Address;
pub use crate::escrow::{Error, Payout, Record, State};
use crate::escrow::{check_digest, require_active, settled_error};
use crate::network::{contract_id_of, sha256_of, Network};
use crate::timelock::{require_after, require_before, seconds_until, stage_at, stage_time, time_until};
use vstd::prelude::*;

verus! {

/// The terms of a destination escrow, fixed at initialization. The offsets
/// are seconds after `deployed_at`; this leg has no public cancellation
/// stage, and `public_cancellation_start` is carried along unused.
#[derive(Clone, Copy, Debug)]
pub struct Immutables {
    pub order_hash: [u8; 32],
    pub hashlock: [u8; 32],
    pub maker: Address,
    pub taker: Address,
    pub token: Address,
    pub amount: i128,
    pub safety_deposit: i128,
    pub deployed_at: u64,
    pub withdrawal_start: u64,
    pub public_withdrawal_start: u64,
    pub cancellation_start: u64,
    pub public_cancellation_start: u64,
}

/// The stages of a destination escrow's timelock schedule.
#[derive(Clone, Copy, Debug, PartialEq, Eq, Structural)]
pub enum Stage {
    DstWithdrawal,
    DstPublicWithdrawal,
    DstCancellation,
}

impl Immutables {
    /// The offset of `stage` from deployment, in seconds.
    pub open spec fn offset(self, stage: Stage) -> u64 {
        match stage {
            Stage::DstWithdrawal => self.withdrawal_start,
            Stage::DstPublicWithdrawal => self.public_withdrawal_start,
            Stage::DstCancellation => self.cancellation_start,
        }
    }

    /// The absolute time at which `stage` starts.
    pub open spec fn stage_time(self, stage: Stage) -> int {
        stage_at(self.deployed_at, self.offset(stage))
    }

    /// The stages start in their order, each strictly after the one before.
    pub open spec fn schedule_ordered(self) -> bool {
        self.withdrawal_start < self.public_withdrawal_start < self.cancellation_start
    }

    /// These terms with `deployed_at` replaced.
    pub open spec fn deployed(self, now: u64) -> Immutables {
        Immutables { deployed_at: now, ..self }
    }
}

/// A destination escrow: it holds the taker's tokens until the secret is
/// revealed, which pays them to the maker, or returns them to the taker
/// after the timeout.
#[derive(Clone, Copy, Debug)]
pub struct EscrowDst {
    /// The escrow's own address.
    pub address: Address,
    /// `None` until the escrow is initialized.
    pub record: Option<Record<Immutables>>,
}

impl EscrowDst {
    /// The escrow with its state replaced.
    pub open spec fn settled_as(self, state: State) -> EscrowDst {
        EscrowDst { record: Some(Record { state, ..self.record.unwrap() }), ..self }
    }

    /// Why initializing with these values fails, given the address derived
    /// from the deployer and the salt; `None` where it succeeds.
    pub open spec fn init_error(self, derived: Address, immutables: Immutables) -> Option<Error> {
        if self.record is Some {
            Some(Error::AlreadyInitialized)
        } else if derived != self.address {
            Some(Error::InvalidAddress)
        } else if !immutables.schedule_ordered() {
            Some(Error::InvalidImmutables)
        } else {
            None
        }
    }

    /// The escrow once initialized at `now`.
    pub open spec fn initialized(
        self,
        deployer: Address,
        salt: [u8; 32],
        immutables: Immutables,
        now: u64,
    ) -> EscrowDst {
        EscrowDst {
            record: Some(Record { immutables: immutables.deployed(now), deployer, salt, state: State::Active }),
            ..self
        }
    }

    /// Why a withdrawal fails, given the digest of the revealed secret;
    /// `None` where it succeeds. Only the taker may withdraw before the
    /// public withdrawal stage.
    pub open spec fn withdrawal_error(self, caller: Address, now: u64, public: bool, digest: Seq<u8>) -> Option<Error> {
        match self.record {
            None => Some(Error::NotInitialized),
            Some(rec) => {
                let imm = rec.immutables;
                if settled_error(rec.state) is Some {
                    settled_error(rec.state)
                } else if !public && caller != imm.taker {
                    Some(Error::InvalidCaller)
                } else if now < imm.stage_time(
                    if public { Stage::DstPublicWithdrawal } else { Stage::DstWithdrawal },
                ) || now >= imm.stage_time(Stage::DstCancellation) {
                    Some(Error::InvalidTime)
                } else if digest != imm.hashlock@ {
                    Some(Error::InvalidSecret)
                } else {
                    None
                }
            },
        }
    }

    /// The transfers of a withdrawal: the tokens to the maker, the safety
    /// deposit to the caller.
    pub open spec fn withdrawal_payout(self, caller: Address) -> Payout {
        let imm = self.record.unwrap().immutables;
        Payout {
            token: imm.token,
            recipient: imm.maker,
            amount: imm.amount,
            deposit_recipient: caller,
            safety_deposit: imm.safety_deposit,
        }
    }

    /// Why a cancellation fails; `None` where it succeeds.
    pub open spec fn cancellation_error(self, caller: Address, now: u64) -> Option<Error> {
        match self.record {
            None => Some(Error::NotInitialized),
            Some(rec) => {
                let imm = rec.immutables;
                if settled_error(rec.state) is Some {
                    settled_error(rec.state)
                } else if caller != imm.taker {
                    Some(Error::InvalidCaller)
                } else if now < imm.stage_time(Stage::DstCancellation) {
                    Some(Error::InvalidTime)
                } else {
                    None
                }
            },
        }
    }

    /// The transfers of a cancellation: the tokens back to the taker, the
    /// safety deposit to the caller.
    pub open spec fn cancellation_payout(self, caller: Address) -> Payout {
        let imm = self.record.unwrap().immutables;
        Payout {
            token: imm.token,
            recipient: imm.taker,
            amount: imm.amount,
            deposit_recipient: caller,
            safety_deposit: imm.safety_deposit,
        }
    }

    /// The escrow has been withdrawn or cancelled.
    pub open spec fn is_settled(self) -> bool {
        self.record is Some && self.record.unwrap().state != State::Active
    }

    /// The address that `compute_address` returns.
    pub open spec fn compute_address_spec(network: &Network, deployer: Address, salt: [u8; 32]) -> Address {
        Address::Contract(contract_id_of(network.network_id(), deployer, salt@))
    }

    /// An escrow at `address` that has not been initialized.
    pub fn new(address: Address) -> (r: EscrowDst)
        ensures
            r == (EscrowDst { address, record: None }),
    {
        EscrowDst { address, record: None }
    }

    /// The address at which `deployer` deploys an escrow with `salt`.
    pub fn compute_address(network: &Network, deployer: &Address, salt: &[u8; 32]) -> (r: Address)
        ensures
            r == EscrowDst::compute_address_spec(network, *deployer, *salt),
    {
        network.contract_address(deployer, salt)
    }

    /// Initializes the escrow, given `derived`, the address derived from
    /// `deployer` and `salt`. The deployment time becomes `now`, whatever
    /// `immutables` says.
    pub fn init_at_address(
        &mut self,
        derived: &Address,
        deployer: Address,
        salt: [u8; 32],
        immutables: Immutables,
        now: u64,
    ) -> (r: Result<(), Error>)
        ensures
            match old(self).init_error(*derived, immutables) {
                Some(e) => r == Err::<(), Error>(e) && *final(self) == *old(self),
                None => r is Ok && *final(self) == old(self).initialized(deployer, salt, immutables, now),
            },
            old(self).record is Some ==> r == Err::<(), Error>(Error::AlreadyInitialized) && *final(self) == *old(self),
    {
        if self.record.is_some() {
            return Err(Error::AlreadyInitialized);
        }
        if *derived != self.address {
            return Err(Error::InvalidAddress);
        }
        if !(immutables.withdrawal_start < immutables.public_withdrawal_start
            && immutables.public_withdrawal_start < immutables.cancellation_start) {
            return Err(Error::InvalidImmutables);
        }
        let mut fixed = immutables;
        fixed.deployed_at = now;
        self.record = Some(Record { immutables: fixed, deployer, salt, state: State::Active });
        Ok(())
    }

    /// Initializes the escrow deployed by `deployer` with `salt`. Fails with
    /// `AlreadyInitialized` the second time, with `InvalidAddress` where this
    /// escrow's address is not the one derived from `deployer` and `salt`,
    /// and with `InvalidImmutables` where the schedule is out of order. The
    /// deployment time becomes `now`, whatever `immutables` says.
    pub fn init(
        &mut self,
        network: &Network,
        deployer: Address,
        salt: [u8; 32],
        immutables: Immutables,
        now: u64,
    ) -> (r: Result<(), Error>)
        ensures
            match old(self).init_error(EscrowDst::compute_address_spec(network, deployer, salt), immutables) {
                Some(e) => r == Err::<(), Error>(e) && *final(self) == *old(self),
                None => r is Ok && *final(self) == old(self).initialized(deployer, salt, immutables, now),
            },
            old(self).record is Some ==> r == Err::<(), Error>(Error::AlreadyInitialized) && *final(self) == *old(self),
    {
        let derived = EscrowDst::compute_address(network, &deployer, &salt);
        self.init_at_address(&derived, deployer, salt, immutables, now)
    }

    /// Settles the escrow in favour of the maker, given `digest`, the
    /// SHA-256 digest of the revealed secret.
    pub fn withdraw_with_digest(&mut self, caller: &Address, now: u64, public: bool, digest: &[u8; 32]) -> (r: Result<Payout, Error>)
        ensures
            match old(self).withdrawal_error(*caller, now, public, digest@) {
                Some(e) => r == Err::<Payout, Error>(e) && *final(self) == *old(self),
                None => r == Ok::<Payout, Error>(old(self).withdrawal_payout(*caller))
                    && *final(self) == old(self).settled_as(State::Withdrawn),
            },
            old(self).is_settled() ==> r is Err && *final(self) == *old(self),
    {
        let rec = match self.record {
            Some(rec) => rec,
            None => return Err(Error::NotInitialized),
        };
        let imm = rec.immutables;
        require_active(rec.state)?;
        let opens = if public {
            imm.public_withdrawal_start
        } else {
            if *caller != imm.taker {
                return Err(Error::InvalidCaller);
            }
            imm.withdrawal_start
        };
        require_after(now, stage_time(imm.deployed_at, opens))?;
        require_before(now, stage_time(imm.deployed_at, imm.cancellation_start))?;
        check_digest(digest, &imm.hashlock)?;
        self.record = Some(Record { state: State::Withdrawn, ..rec });
        Ok(Payout {
            token: imm.token,
            recipient: imm.maker,
            amount: imm.amount,
            deposit_recipient: *caller,
            safety_deposit: imm.safety_deposit,
        })
    }

    /// The taker withdraws by revealing `secret`: between the withdrawal
    /// and the cancellation stage, the tokens go to the maker and the safety
    /// deposit to the caller, and the escrow becomes `Withdrawn`.
    pub fn withdraw(&mut self, network: &Network, caller: &Address, now: u64, secret: &[u8; 32]) -> (r: Result<Payout, Error>)
        ensures
            match old(self).withdrawal_error(*caller, now, false, sha256_of(secret@)) {
                Some(e) => r == Err::<Payout, Error>(e) && *final(self) == *old(self),
                None => r == Ok::<Payout, Error>(old(self).withdrawal_payout(*caller))
                    && *final(self) == old(self).settled_as(State::Withdrawn),
            },
            old(self).is_settled() ==> r is Err && *final(self) == *old(self),
            ({
                let imm = old(self).record.unwrap().immutables;
                old(self).record is Some && old(self).record.unwrap().state == State::Active && *caller == imm.taker
                    ==> ((now < imm.stage_time(Stage::DstWithdrawal) || now >= imm.stage_time(Stage::DstCancellation))
                            ==> r == Err::<Payout, Error>(Error::InvalidTime))
                        && ((imm.stage_time(Stage::DstWithdrawal) <= now < imm.stage_time(Stage::DstCancellation))
                            ==> r == (if sha256_of(secret@) == imm.hashlock@ {
                                Ok::<Payout, Error>(old(self).withdrawal_payout(*caller))
                            } else {
                                Err(Error::InvalidSecret)
                            }))
            }),
            old(self).record is Some && sha256_of(secret@) != old(self).record.unwrap().immutables.hashlock@ ==> r is Err,
    {
        let digest = network.commitment(secret);
        self.withdraw_with_digest(caller, now, false, &digest)
    }

    /// Anyone withdraws for the maker by revealing `secret`: between the
    /// public withdrawal and the cancellation stage, the tokens go to the
    /// maker and the safety deposit to the caller.
    pub fn public_withdraw(&mut self, network: &Network, caller: &Address, now: u64, secret: &[u8; 32]) -> (r: Result<Payout, Error>)
        ensures
            match old(self).withdrawal_error(*caller, now, true, sha256_of(secret@)) {
                Some(e) => r == Err::<Payout, Error>(e) && *final(self) == *old(self),
                None => r == Ok::<Payout, Error>(old(self).withdrawal_payout(*caller))
                    && *final(self) == old(self).settled_as(State::Withdrawn),
            },
            old(self).is_settled() ==> r is Err && *final(self) == *old(self),
            ({
                let imm = old(self).record.unwrap().immutables;
                old(self).record is Some && old(self).record.unwrap().state == State::Active
                    && imm.stage_time(Stage::DstPublicWithdrawal) <= now < imm.stage_time(Stage::DstCancellation)
                    ==> r == (if sha256_of(secret@) == imm.hashlock@ {
                        Ok::<Payout, Error>(old(self).withdrawal_payout(*caller))
                    } else {
                        Err(Error::InvalidSecret)
                    })
            }),
            old(self).record is Some && sha256_of(secret@) != old(self).record.unwrap().immutables.hashlock@ ==> r is Err,
    {
        let digest = network.commitment(secret);
        self.withdraw_with_digest(caller, now, true, &digest)
    }

    /// The taker cancels from the cancellation stage on: the tokens go back
    /// to the taker and the safety deposit to the caller, and the escrow
    /// becomes `Cancelled`.
    pub fn cancel(&mut self, caller: &Address, now: u64) -> (r: Result<Payout, Error>)
        ensures
            match old(self).cancellation_error(*caller, now) {
                Some(e) => r == Err::<Payout, Error>(e) && *final(self) == *old(self),
                None => r == Ok::<Payout, Error>(old(self).cancellation_payout(*caller))
                    && *final(self) == old(self).settled_as(State::Cancelled),
            },
            old(self).is_settled() ==> r is Err && *final(self) == *old(self),
    {
        let rec = match self.record {
            Some(rec) => rec,
            None => return Err(Error::NotInitialized),
        };
        let imm = rec.immutables;
        require_active(rec.state)?;
        if *caller != imm.taker {
            return Err(Error::InvalidCaller);
        }
        require_after(now, stage_time(imm.deployed_at, imm.cancellation_start))?;
        self.record = Some(Record { state: State::Cancelled, ..rec });
        Ok(Payout {
            token: imm.token,
            recipient: imm.taker,
            amount: imm.amount,
            deposit_recipient: *caller,
            safety_deposit: imm.safety_deposit,
        })
    }

    /// The absolute time at which `stage` starts.
    pub fn get_stage_time(immutables: &Immutables, stage: Stage) -> (r: u128)
        ensures
            r == immutables.stage_time(stage),
    {
        let offset = match stage {
            Stage::DstWithdrawal => immutables.withdrawal_start,
            Stage::DstPublicWithdrawal => immutables.public_withdrawal_start,
            Stage::DstCancellation => immutables.cancellation_start,
        };
        stage_time(immutables.deployed_at, offset)
    }

    /// The seconds from `now` until `stage` starts: zero once it has started,
    /// and at most `i64::MAX`.
    pub fn time_until_stage(&self, stage: Stage, now: u64) -> (r: Result<i64, Error>)
        ensures
            r == (match self.record {
                Some(rec) => Ok::<i64, Error>(seconds_until(now as int, rec.immutables.stage_time(stage)) as i64),
                None => Err(Error::NotInitialized),
            }),
    {
        let imm = self.get_immutables()?;
        Ok(time_until(now, EscrowDst::get_stage_time(&imm, stage)))
    }

    /// The escrow's terms.
    pub fn get_immutables(&self) -> (r: Result<Immutables, Error>)
        ensures
            r == (match self.record {
                Some(rec) => Ok::<Immutables, Error>(rec.immutables),
                None => Err(Error::NotInitialized),
            }),
    {
        match &self.record {
            Some(rec) => Ok(rec.immutables),
            None => Err(Error::NotInitialized),
        }
    }

    /// The escrow's state.
    pub fn get_state(&self) -> (r: Result<State, Error>)
        ensures
            r == (match self.record {
                Some(rec) => Ok::<State, Error>(rec.state),
                None => Err(Error::NotInitialized),
            }),
    {
        match &self.record {
            Some(rec) => Ok(rec.state),
            None => Err(Error::NotInitialized),
        }
    }
}

} // verus!
