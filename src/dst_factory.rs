use crate::address::Address;
pub use crate::escrow_src::Immutables;
pub use crate::factory::Error;
use crate::factory::{lemma_salt_injective, salt_from, salt_of};
use crate::network::{contract_id_of, Network};
use vstd::prelude::*;

verus! {

/// Creates destination escrows at addresses derived from their terms, and
/// only where the destination leg times out no later than the source leg.
/// Its terms are the combined terms of both legs.
#[derive(Clone, Copy, Debug)]
pub struct EscrowDstFactory {
    /// The factory's own address, which deploys every escrow it creates.
    pub address: Address,
}

/// The absolute time at which the destination leg can be cancelled.
pub open spec fn dst_cancellation_time(immutables: Immutables) -> int {
    immutables.deployed_at + immutables.dst_cancellation_start
}

impl EscrowDstFactory {
    /// The address of the escrow created for `immutables`.
    pub open spec fn escrow_address(self, network: &Network, immutables: Immutables) -> Address {
        Address::Contract(
            contract_id_of(network.network_id(), self.address, salt_of(immutables.order_hash@, immutables.hashlock@)),
        )
    }

    /// A factory at `address`.
    pub fn new(address: Address) -> (r: EscrowDstFactory)
        ensures
            r.address == address,
    {
        EscrowDstFactory { address }
    }

    /// The salt of the escrow created for `immutables`: the first 16 bytes of
    /// the order hash followed by the first 16 bytes of the hashlock.
    pub fn compute_salt(immutables: &Immutables) -> (r: [u8; 32])
        ensures
            r@ == salt_of(immutables.order_hash@, immutables.hashlock@),
    {
        salt_from(&immutables.order_hash, &immutables.hashlock)
    }

    /// The address of the escrow created for `immutables`, known before the
    /// escrow exists.
    pub fn compute_escrow_address(&self, network: &Network, immutables: &Immutables) -> (r: Address)
        ensures
            r == self.escrow_address(network, *immutables),
    {
        let salt = EscrowDstFactory::compute_salt(immutables);
        network.contract_address(&self.address, &salt)
    }

    /// Creates the escrow for `dst_immutables`, which the taker has
    /// authorized, and returns its address. Fails with `InvalidCreationTime`
    /// where the destination leg would become cancellable after
    /// `src_cancellation_timestamp`, when the source leg does.
    pub fn create_dst_escrow(
        &self,
        network: &Network,
        dst_immutables: &Immutables,
        src_cancellation_timestamp: u64,
    ) -> (r: Result<Address, Error>)
        ensures
            r == (if dst_cancellation_time(*dst_immutables) > src_cancellation_timestamp {
                Err::<Address, Error>(Error::InvalidCreationTime)
            } else {
                Ok(self.escrow_address(network, *dst_immutables))
            }),
    {
        let offset = dst_immutables.dst_cancellation_start as u64;
        if offset > src_cancellation_timestamp || dst_immutables.deployed_at > src_cancellation_timestamp - offset {
            return Err(Error::InvalidCreationTime);
        }
        Ok(self.compute_escrow_address(network, dst_immutables))
    }

    /// The escrow address depends on nothing but the network, the factory,
    /// and the first 16 bytes of the order hash and of the hashlock: terms
    /// that agree there get the same address, identical terms above all.
    pub proof fn lemma_escrow_address_deterministic(self, network: &Network, a: Immutables, b: Immutables)
        requires
            a.order_hash@.subrange(0, 16) == b.order_hash@.subrange(0, 16),
            a.hashlock@.subrange(0, 16) == b.hashlock@.subrange(0, 16),
        ensures
            self.escrow_address(network, a) == self.escrow_address(network, b),
    {
        lemma_salt_injective(a.order_hash@, a.hashlock@, b.order_hash@, b.hashlock@);
    }
}

} // verus!
