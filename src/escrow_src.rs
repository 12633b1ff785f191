use crate::address::Address;
pub use crate::escrow::{Error, Payout, Record, State};
use crate::escrow::{check_digest, require_active, settled_error};
use crate::network::{contract_id_of, sha256_of, Network};
use crate::timelock::{require_after, require_before, seconds_until, stage_at, stage_time, time_until};
use vstd::prelude::*;

verus! {

/// The terms of a source escrow, fixed at initialization. The offsets are
/// seconds after `deployed_at`; the destination offsets are carried along so
/// that the destination leg can be bounded by this one.
#[derive(Clone, Copy, Debug)]
pub struct Immutables {
    pub order_hash: [u8; 32],
    pub hashlock: [u8; 32],
    pub maker: Address,
    pub taker: Address,
    pub token: Address,
    pub amount: i128,
    pub safety_deposit: i128,
    pub deployed_at: u64,
    pub src_withdrawal_start: u32,
    pub src_public_withdrawal_start: u32,
    pub src_cancellation_start: u32,
    pub src_public_cancellation_start: u32,
    pub dst_withdrawal_start: u32,
    pub dst_public_withdrawal_start: u32,
    pub dst_cancellation_start: u32,
}

/// The stages of a source escrow's timelock schedule.
#[derive(Clone, Copy, Debug, PartialEq, Eq, Structural)]
pub enum Stage {
    SrcWithdrawal,
    SrcPublicWithdrawal,
    SrcCancellation,
    SrcPublicCancellation,
}

/// Who withdraws from a source escrow, and where the tokens go.
#[derive(Clone, Copy, Debug)]
pub enum Withdrawal {
    /// The taker, during the taker's window; the tokens go to the taker.
    Taker,
    /// The taker, during the taker's window; the tokens go to the target.
    TakerTo(Address),
    /// Anyone, during the public window; the tokens go to the taker.
    Public,
}

impl Immutables {
    /// The offset of `stage` from deployment, in seconds.
    pub open spec fn offset(self, stage: Stage) -> u64 {
        match stage {
            Stage::SrcWithdrawal => self.src_withdrawal_start as u64,
            Stage::SrcPublicWithdrawal => self.src_public_withdrawal_start as u64,
            Stage::SrcCancellation => self.src_cancellation_start as u64,
            Stage::SrcPublicCancellation => self.src_public_cancellation_start as u64,
        }
    }

    /// The absolute time at which `stage` starts.
    pub open spec fn stage_time(self, stage: Stage) -> int {
        stage_at(self.deployed_at, self.offset(stage))
    }

    /// The stages start in their order, each strictly after the one before.
    pub open spec fn schedule_ordered(self) -> bool {
        self.src_withdrawal_start < self.src_public_withdrawal_start
            < self.src_cancellation_start < self.src_public_cancellation_start
    }

    /// These terms with `deployed_at` replaced.
    pub open spec fn deployed(self, now: u64) -> Immutables {
        Immutables { deployed_at: now, ..self }
    }
}

/// A source escrow: it holds the maker's tokens until the taker reveals the
/// secret behind the hashlock, or returns them to the maker after the
/// timeout.
#[derive(Clone, Copy, Debug)]
pub struct EscrowSrc {
    /// The escrow's own address.
    pub address: Address,
    /// `None` until the escrow is initialized.
    pub record: Option<Record<Immutables>>,
}

impl Withdrawal {
    /// The stage at which this kind of withdrawal opens.
    pub open spec fn opens_at(self) -> Stage {
        match self {
            Withdrawal::Public => Stage::SrcPublicWithdrawal,
            _ => Stage::SrcWithdrawal,
        }
    }
}

impl EscrowSrc {
    /// The escrow with its state replaced.
    pub open spec fn settled_as(self, state: State) -> EscrowSrc {
        EscrowSrc { record: Some(Record { state, ..self.record.unwrap() }), ..self }
    }

    /// Why initializing with these values fails, given the address derived
    /// from the deployer and the salt; `None` where it succeeds.
    pub open spec fn init_error(self, derived: Address, immutables: Immutables) -> Option<Error> {
        if self.record is Some {
            Some(Error::AlreadyInitialized)
        } else if derived != self.address {
            Some(Error::InvalidAddress)
        } else if !immutables.schedule_ordered() {
            Some(Error::InvalidImmutables)
        } else {
            None
        }
    }

    /// The escrow once initialized at `now`.
    pub open spec fn initialized(
        self,
        deployer: Address,
        salt: [u8; 32],
        immutables: Immutables,
        now: u64,
    ) -> EscrowSrc {
        EscrowSrc {
            record: Some(Record { immutables: immutables.deployed(now), deployer, salt, state: State::Active }),
            ..self
        }
    }

    /// Why a withdrawal fails, given the digest of the revealed secret;
    /// `None` where it succeeds.
    pub open spec fn withdrawal_error(self, caller: Address, now: u64, how: Withdrawal, digest: Seq<u8>) -> Option<Error> {
        match self.record {
            None => Some(Error::NotInitialized),
            Some(rec) => {
                let imm = rec.immutables;
                if settled_error(rec.state) is Some {
                    settled_error(rec.state)
                } else if !(how is Public) && caller != imm.taker {
                    Some(Error::InvalidCaller)
                } else if now < imm.stage_time(how.opens_at()) || now >= imm.stage_time(Stage::SrcCancellation) {
                    Some(Error::InvalidTime)
                } else if digest != imm.hashlock@ {
                    Some(Error::InvalidSecret)
                } else {
                    None
                }
            },
        }
    }

    /// The transfers of a withdrawal: the tokens to the taker or the target,
    /// the safety deposit to the caller.
    pub open spec fn withdrawal_payout(self, caller: Address, how: Withdrawal) -> Payout {
        let imm = self.record.unwrap().immutables;
        Payout {
            token: imm.token,
            recipient: match how {
                Withdrawal::TakerTo(target) => target,
                _ => imm.taker,
            },
            amount: imm.amount,
            deposit_recipient: caller,
            safety_deposit: imm.safety_deposit,
        }
    }

    /// Why a cancellation fails; `None` where it succeeds. Only the taker may
    /// cancel before the public cancellation stage.
    pub open spec fn cancellation_error(self, caller: Address, now: u64, public: bool) -> Option<Error> {
        match self.record {
            None => Some(Error::NotInitialized),
            Some(rec) => {
                let imm = rec.immutables;
                if settled_error(rec.state) is Some {
                    settled_error(rec.state)
                } else if !public && caller != imm.taker {
                    Some(Error::InvalidCaller)
                } else if now < imm.stage_time(
                    if public { Stage::SrcPublicCancellation } else { Stage::SrcCancellation },
                ) {
                    Some(Error::InvalidTime)
                } else {
                    None
                }
            },
        }
    }

    /// The transfers of a cancellation: the tokens back to the maker, the
    /// safety deposit to the caller.
    pub open spec fn cancellation_payout(self, caller: Address) -> Payout {
        let imm = self.record.unwrap().immutables;
        Payout {
            token: imm.token,
            recipient: imm.maker,
            amount: imm.amount,
            deposit_recipient: caller,
            safety_deposit: imm.safety_deposit,
        }
    }

    /// The escrow has been withdrawn or cancelled.
    pub open spec fn is_settled(self) -> bool {
        self.record is Some && self.record.unwrap().state != State::Active
    }

    /// An escrow at `address` that has not been initialized.
    pub fn new(address: Address) -> (r: EscrowSrc)
        ensures
            r == (EscrowSrc { address, record: None }),
    {
        EscrowSrc { address, record: None }
    }

    /// The address at which `deployer` deploys an escrow with `salt`.
    pub fn compute_address(network: &Network, deployer: &Address, salt: &[u8; 32]) -> (r: Address)
        ensures
            r == EscrowSrc::compute_address_spec(network, *deployer, *salt),
    {
        network.contract_address(deployer, salt)
    }

    /// Initializes the escrow, given `derived`, the address derived from
    /// `deployer` and `salt`. The deployment time becomes `now`, whatever
    /// `immutables` says.
    pub fn init_at_address(
        &mut self,
        derived: &Address,
        deployer: Address,
        salt: [u8; 32],
        immutables: Immutables,
        now: u64,
    ) -> (r: Result<(), Error>)
        ensures
            match old(self).init_error(*derived, immutables) {
                Some(e) => r == Err::<(), Error>(e) && *final(self) == *old(self),
                None => r is Ok && *final(self) == old(self).initialized(deployer, salt, immutables, now),
            },
            old(self).record is Some ==> r == Err::<(), Error>(Error::AlreadyInitialized) && *final(self) == *old(self),
    {
        if self.record.is_some() {
            return Err(Error::AlreadyInitialized);
        }
        if *derived != self.address {
            return Err(Error::InvalidAddress);
        }
        if !(immutables.src_withdrawal_start < immutables.src_public_withdrawal_start
            && immutables.src_public_withdrawal_start < immutables.src_cancellation_start
            && immutables.src_cancellation_start < immutables.src_public_cancellation_start) {
            return Err(Error::InvalidImmutables);
        }
        let mut fixed = immutables;
        fixed.deployed_at = now;
        self.record = Some(Record { immutables: fixed, deployer, salt, state: State::Active });
        Ok(())
    }

    /// Initializes the escrow deployed by `deployer` with `salt`. Fails with
    /// `AlreadyInitialized` the second time, with `InvalidAddress` where this
    /// escrow's address is not the one derived from `deployer` and `salt`,
    /// and with `InvalidImmutables` where the schedule is out of order. The
    /// deployment time becomes `now`, whatever `immutables` says.
    pub fn init(
        &mut self,
        network: &Network,
        deployer: Address,
        salt: [u8; 32],
        immutables: Immutables,
        now: u64,
    ) -> (r: Result<(), Error>)
        ensures
            match old(self).init_error(EscrowSrc::compute_address_spec(network, deployer, salt), immutables) {
                Some(e) => r == Err::<(), Error>(e) && *final(self) == *old(self),
                None => r is Ok && *final(self) == old(self).initialized(deployer, salt, immutables, now),
            },
            old(self).record is Some ==> r == Err::<(), Error>(Error::AlreadyInitialized) && *final(self) == *old(self),
    {
        let derived = EscrowSrc::compute_address(network, &deployer, &salt);
        self.init_at_address(&derived, deployer, salt, immutables, now)
    }

    /// The address that `compute_address` returns.
    pub open spec fn compute_address_spec(network: &Network, deployer: Address, salt: [u8; 32]) -> Address {
        Address::Contract(contract_id_of(network.network_id(), deployer, salt@))
    }

    /// Settles the escrow in favour of the holder of the secret, given
    /// `digest`, the SHA-256 digest of the revealed secret.
    pub fn withdraw_with_digest(&mut self, caller: &Address, now: u64, how: Withdrawal, digest: &[u8; 32]) -> (r: Result<Payout, Error>)
        ensures
            match old(self).withdrawal_error(*caller, now, how, digest@) {
                Some(e) => r == Err::<Payout, Error>(e) && *final(self) == *old(self),
                None => r == Ok::<Payout, Error>(old(self).withdrawal_payout(*caller, how))
                    && *final(self) == old(self).settled_as(State::Withdrawn),
            },
            old(self).is_settled() ==> r is Err && *final(self) == *old(self),
    {
        let rec = match self.record {
            Some(rec) => rec,
            None => return Err(Error::NotInitialized),
        };
        let imm = rec.immutables;
        require_active(rec.state)?;
        let opens = match how {
            Withdrawal::Public => imm.src_public_withdrawal_start,
            _ => {
                if *caller != imm.taker {
                    return Err(Error::InvalidCaller);
                }
                imm.src_withdrawal_start
            },
        };
        require_after(now, stage_time(imm.deployed_at, opens as u64))?;
        require_before(now, stage_time(imm.deployed_at, imm.src_cancellation_start as u64))?;
        check_digest(digest, &imm.hashlock)?;
        let recipient = match how {
            Withdrawal::TakerTo(target) => target,
            _ => imm.taker,
        };
        self.record = Some(Record { state: State::Withdrawn, ..rec });
        Ok(Payout {
            token: imm.token,
            recipient,
            amount: imm.amount,
            deposit_recipient: *caller,
            safety_deposit: imm.safety_deposit,
        })
    }

    /// The taker withdraws by revealing `secret`: between the withdrawal
    /// and the cancellation stage, the tokens go to the taker and the safety
    /// deposit to the caller, and the escrow becomes `Withdrawn`.
    pub fn withdraw(&mut self, network: &Network, caller: &Address, now: u64, secret: &[u8; 32]) -> (r: Result<Payout, Error>)
        ensures
            match old(self).withdrawal_error(*caller, now, Withdrawal::Taker, sha256_of(secret@)) {
                Some(e) => r == Err::<Payout, Error>(e) && *final(self) == *old(self),
                None => r == Ok::<Payout, Error>(old(self).withdrawal_payout(*caller, Withdrawal::Taker))
                    && *final(self) == old(self).settled_as(State::Withdrawn),
            },
            old(self).is_settled() ==> r is Err && *final(self) == *old(self),
            ({
                let imm = old(self).record.unwrap().immutables;
                old(self).record is Some && old(self).record.unwrap().state == State::Active && *caller == imm.taker
                    ==> ((now < imm.stage_time(Stage::SrcWithdrawal) || now >= imm.stage_time(Stage::SrcCancellation))
                            ==> r == Err::<Payout, Error>(Error::InvalidTime))
                        && ((imm.stage_time(Stage::SrcWithdrawal) <= now < imm.stage_time(Stage::SrcCancellation))
                            ==> r == (if sha256_of(secret@) == imm.hashlock@ {
                                Ok::<Payout, Error>(old(self).withdrawal_payout(*caller, Withdrawal::Taker))
                            } else {
                                Err(Error::InvalidSecret)
                            }))
            }),
            old(self).record is Some && sha256_of(secret@) != old(self).record.unwrap().immutables.hashlock@ ==> r is Err,
    {
        let digest = network.commitment(secret);
        self.withdraw_with_digest(caller, now, Withdrawal::Taker, &digest)
    }

    /// The taker withdraws by revealing `secret`, with the tokens sent to
    /// `target`; otherwise as `withdraw`.
    pub fn wdrawto(&mut self, network: &Network, caller: &Address, now: u64, secret: &[u8; 32], target: &Address) -> (r: Result<Payout, Error>)
        ensures
            match old(self).withdrawal_error(*caller, now, Withdrawal::TakerTo(*target), sha256_of(secret@)) {
                Some(e) => r == Err::<Payout, Error>(e) && *final(self) == *old(self),
                None => r == Ok::<Payout, Error>(old(self).withdrawal_payout(*caller, Withdrawal::TakerTo(*target)))
                    && *final(self) == old(self).settled_as(State::Withdrawn),
            },
            old(self).is_settled() ==> r is Err && *final(self) == *old(self),
            old(self).record is Some && sha256_of(secret@) != old(self).record.unwrap().immutables.hashlock@ ==> r is Err,
    {
        let digest = network.commitment(secret);
        self.withdraw_with_digest(caller, now, Withdrawal::TakerTo(*target), &digest)
    }

    /// Anyone withdraws for the taker by revealing `secret`: between the
    /// public withdrawal and the cancellation stage, the tokens go to the
    /// taker and the safety deposit to the caller.
    pub fn public_withdraw(&mut self, network: &Network, caller: &Address, now: u64, secret: &[u8; 32]) -> (r: Result<Payout, Error>)
        ensures
            match old(self).withdrawal_error(*caller, now, Withdrawal::Public, sha256_of(secret@)) {
                Some(e) => r == Err::<Payout, Error>(e) && *final(self) == *old(self),
                None => r == Ok::<Payout, Error>(old(self).withdrawal_payout(*caller, Withdrawal::Public))
                    && *final(self) == old(self).settled_as(State::Withdrawn),
            },
            old(self).is_settled() ==> r is Err && *final(self) == *old(self),
            ({
                let imm = old(self).record.unwrap().immutables;
                old(self).record is Some && old(self).record.unwrap().state == State::Active
                    && imm.stage_time(Stage::SrcPublicWithdrawal) <= now < imm.stage_time(Stage::SrcCancellation)
                    ==> r == (if sha256_of(secret@) == imm.hashlock@ {
                        Ok::<Payout, Error>(old(self).withdrawal_payout(*caller, Withdrawal::Public))
                    } else {
                        Err(Error::InvalidSecret)
                    })
            }),
            old(self).record is Some && sha256_of(secret@) != old(self).record.unwrap().immutables.hashlock@ ==> r is Err,
    {
        let digest = network.commitment(secret);
        self.withdraw_with_digest(caller, now, Withdrawal::Public, &digest)
    }

    fn cancel_as(&mut self, caller: &Address, now: u64, public: bool) -> (r: Result<Payout, Error>)
        ensures
            match old(self).cancellation_error(*caller, now, public) {
                Some(e) => r == Err::<Payout, Error>(e) && *final(self) == *old(self),
                None => r == Ok::<Payout, Error>(old(self).cancellation_payout(*caller))
                    && *final(self) == old(self).settled_as(State::Cancelled),
            },
    {
        let rec = match self.record {
            Some(rec) => rec,
            None => return Err(Error::NotInitialized),
        };
        let imm = rec.immutables;
        require_active(rec.state)?;
        let opens = if public {
            imm.src_public_cancellation_start
        } else {
            if *caller != imm.taker {
                return Err(Error::InvalidCaller);
            }
            imm.src_cancellation_start
        };
        require_after(now, stage_time(imm.deployed_at, opens as u64))?;
        self.record = Some(Record { state: State::Cancelled, ..rec });
        Ok(Payout {
            token: imm.token,
            recipient: imm.maker,
            amount: imm.amount,
            deposit_recipient: *caller,
            safety_deposit: imm.safety_deposit,
        })
    }

    /// The taker cancels from the cancellation stage on: the tokens go back
    /// to the maker and the safety deposit to the caller, and the escrow
    /// becomes `Cancelled`.
    pub fn cancel(&mut self, caller: &Address, now: u64) -> (r: Result<Payout, Error>)
        ensures
            match old(self).cancellation_error(*caller, now, false) {
                Some(e) => r == Err::<Payout, Error>(e) && *final(self) == *old(self),
                None => r == Ok::<Payout, Error>(old(self).cancellation_payout(*caller))
                    && *final(self) == old(self).settled_as(State::Cancelled),
            },
            old(self).is_settled() ==> r is Err && *final(self) == *old(self),
    {
        self.cancel_as(caller, now, false)
    }

    /// Anyone cancels from the public cancellation stage on; otherwise as
    /// `cancel`.
    pub fn public_cancel(&mut self, caller: &Address, now: u64) -> (r: Result<Payout, Error>)
        ensures
            match old(self).cancellation_error(*caller, now, true) {
                Some(e) => r == Err::<Payout, Error>(e) && *final(self) == *old(self),
                None => r == Ok::<Payout, Error>(old(self).cancellation_payout(*caller))
                    && *final(self) == old(self).settled_as(State::Cancelled),
            },
            old(self).is_settled() ==> r is Err && *final(self) == *old(self),
    {
        self.cancel_as(caller, now, true)
    }

    /// The absolute time at which `stage` starts.
    pub fn get_stage_time(immutables: &Immutables, stage: Stage) -> (r: u128)
        ensures
            r == immutables.stage_time(stage),
    {
        let offset = match stage {
            Stage::SrcWithdrawal => immutables.src_withdrawal_start,
            Stage::SrcPublicWithdrawal => immutables.src_public_withdrawal_start,
            Stage::SrcCancellation => immutables.src_cancellation_start,
            Stage::SrcPublicCancellation => immutables.src_public_cancellation_start,
        };
        stage_time(immutables.deployed_at, offset as u64)
    }

    /// The seconds from `now` until `stage` starts: zero once it has started,
    /// and at most `i64::MAX`.
    pub fn time_until_stage(&self, stage: Stage, now: u64) -> (r: Result<i64, Error>)
        ensures
            r == (match self.record {
                Some(rec) => Ok::<i64, Error>(seconds_until(now as int, rec.immutables.stage_time(stage)) as i64),
                None => Err(Error::NotInitialized),
            }),
    {
        let imm = self.get_immutables()?;
        Ok(time_until(now, EscrowSrc::get_stage_time(&imm, stage)))
    }

    /// The escrow's terms.
    pub fn get_immutables(&self) -> (r: Result<Immutables, Error>)
        ensures
            r == (match self.record {
                Some(rec) => Ok::<Immutables, Error>(rec.immutables),
                None => Err(Error::NotInitialized),
            }),
    {
        match &self.record {
            Some(rec) => Ok(rec.immutables),
            None => Err(Error::NotInitialized),
        }
    }

    /// The escrow's state.
    pub fn get_state(&self) -> (r: Result<State, Error>)
        ensures
            r == (match self.record {
                Some(rec) => Ok::<State, Error>(rec.state),
                None => Err(Error::NotInitialized),
            }),
    {
        match &self.record {
            Some(rec) => Ok(rec.state),
            None => Err(Error::NotInitialized),
        }
    }
}

} // verus!
