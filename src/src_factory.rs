use crate::address::Address;
pub use crate::factory::Error;
use crate::factory::{lemma_salt_injective, salt_from, salt_of};
use crate::network::{contract_id_of, Network};
use vstd::prelude::*;

verus! {

/// The terms a maker offers when creating a source escrow. The offsets are
/// seconds after `deployed_at`.
#[derive(Clone, Copy, Debug)]
pub struct Immutables {
    pub order_hash: [u8; 32],
    pub hashlock: [u8; 32],
    pub maker: Address,
    pub taker: Address,
    pub token: Address,
    pub amount: i128,
    pub safety_deposit: i128,
    pub deployed_at: u64,
    pub src_withdrawal_start: u32,
    pub src_public_withdrawal_start: u32,
    pub src_cancellation_start: u32,
    pub src_public_cancellation_start: u32,
}

/// Creates source escrows at addresses derived from their terms, so that
/// both parties can tell where an escrow will be before it exists.
#[derive(Clone, Copy, Debug)]
pub struct EscrowSrcFactory {
    /// The factory's own address, which deploys every escrow it creates.
    pub address: Address,
}

impl EscrowSrcFactory {
    /// The address of the escrow created for `immutables`.
    pub open spec fn escrow_address(self, network: &Network, immutables: Immutables) -> Address {
        Address::Contract(
            contract_id_of(network.network_id(), self.address, salt_of(immutables.order_hash@, immutables.hashlock@)),
        )
    }

    /// A factory at `address`.
    pub fn new(address: Address) -> (r: EscrowSrcFactory)
        ensures
            r.address == address,
    {
        EscrowSrcFactory { address }
    }

    /// The salt of the escrow created for `immutables`: the first 16 bytes of
    /// the order hash followed by the first 16 bytes of the hashlock.
    pub fn compute_salt(immutables: &Immutables) -> (r: [u8; 32])
        ensures
            r@ == salt_of(immutables.order_hash@, immutables.hashlock@),
    {
        salt_from(&immutables.order_hash, &immutables.hashlock)
    }

    /// The address of the escrow created for `immutables`, known before the
    /// escrow exists.
    pub fn compute_escrow_address(&self, network: &Network, immutables: &Immutables) -> (r: Address)
        ensures
            r == self.escrow_address(network, *immutables),
    {
        let salt = EscrowSrcFactory::compute_salt(immutables);
        network.contract_address(&self.address, &salt)
    }

    /// Creates the escrow for `src_immutables`, which the maker has
    /// authorized, and returns its address.
    pub fn createsrc(&self, network: &Network, src_immutables: &Immutables) -> (r: Result<Address, Error>)
        ensures
            r == Ok::<Address, Error>(self.escrow_address(network, *src_immutables)),
    {
        Ok(self.compute_escrow_address(network, src_immutables))
    }

    /// The escrow address depends on nothing but the network, the factory,
    /// and the first 16 bytes of the order hash and of the hashlock: terms
    /// that agree there get the same address, identical terms above all.
    pub proof fn lemma_escrow_address_deterministic(self, network: &Network, a: Immutables, b: Immutables)
        requires
            a.order_hash@.subrange(0, 16) == b.order_hash@.subrange(0, 16),
            a.hashlock@.subrange(0, 16) == b.hashlock@.subrange(0, 16),
        ensures
            self.escrow_address(network, a) == self.escrow_address(network, b),
    {
        lemma_salt_injective(a.order_hash@, a.hashlock@, b.order_hash@, b.hashlock@);
    }
}

} // verus!
