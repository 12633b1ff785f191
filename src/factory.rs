use vstd::prelude::*;

verus! {

/// Why a factory refused to create an escrow.
#[derive(Clone, Copy, Debug, PartialEq, Eq, Structural)]
pub enum Error {
    InsufficientEscrowBalance,
    InvalidCreationTime,
    TransferFailed,
    InvalidImmutables,
    EscrowCreationFailed,
}

/// The salt an escrow is deployed with: the first 16 bytes of the order hash
/// followed by the first 16 bytes of the hashlock.
pub open spec fn salt_of(order_hash: Seq<u8>, hashlock: Seq<u8>) -> Seq<u8> {
    order_hash.subrange(0, 16) + hashlock.subrange(0, 16)
}

/// The salt an escrow is deployed with: the first 16 bytes of the order hash
/// followed by the first 16 bytes of the hashlock.
pub fn salt_from(order_hash: &[u8; 32], hashlock: &[u8; 32]) -> (r: [u8; 32])
    ensures
        r@ == salt_of(order_hash@, hashlock@),
{
    let mut salt = [0u8; 32];
    let mut i: usize = 0;
    while i < 16
        invariant
            0 <= i <= 16,
            salt@.len() == 32,
            forall|j: int| 0 <= j < i ==> salt@[j] == order_hash@[j],
            forall|j: int| 0 <= j < i ==> salt@[16 + j] == hashlock@[j],
        decreases 16 - i,
    {
        salt[i] = order_hash[i];
        salt[16 + i] = hashlock[i];
        i = i + 1;
    }
    assert(salt@ =~= salt_of(order_hash@, hashlock@));
    salt
}

/// Two escrows get the same salt exactly when their order hashes agree in
/// the first 16 bytes and their hashlocks agree in the first 16 bytes.
pub proof fn lemma_salt_injective(order_a: Seq<u8>, lock_a: Seq<u8>, order_b: Seq<u8>, lock_b: Seq<u8>)
    requires
        order_a.len() == 32,
        lock_a.len() == 32,
        order_b.len() == 32,
        lock_b.len() == 32,
    ensures
        salt_of(order_a, lock_a) == salt_of(order_b, lock_b) <==> (order_a.subrange(0, 16)
            == order_b.subrange(0, 16) && lock_a.subrange(0, 16) == lock_b.subrange(0, 16)),
{
    let sa = salt_of(order_a, lock_a);
    let sb = salt_of(order_b, lock_b);
    if sa == sb {
        assert(order_a.subrange(0, 16) =~= sa.subrange(0, 16));
        assert(order_b.subrange(0, 16) =~= sb.subrange(0, 16));
        assert(lock_a.subrange(0, 16) =~= sa.subrange(16, 32));
        assert(lock_b.subrange(0, 16) =~= sb.subrange(16, 32));
    }
}

} // verus!
