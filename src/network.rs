use crate::address::Address;
use soroban_sdk::xdr::{AccountId, ContractId, PublicKey, ScAddress, Uint256};
use soroban_sdk::{Bytes, BytesN, Env, TryFromVal};
use vstd::prelude::*;

verus! {

#[verifier::external_type_specification]
#[verifier::external_body]
pub struct ExEnv(Env);

/// The SHA-256 digest of `data`.
pub uninterp spec fn sha256_of(data: Seq<u8>) -> Seq<u8>;

/// The id of the contract that `deployer` deploys with `salt` on the network
/// whose id is `network_id`.
pub uninterp spec fn contract_id_of(network_id: Seq<u8>, deployer: Address, salt: Seq<u8>) -> [u8; 32];

/// Relies on soroban_sdk's `Ledger::network_id`: the id of the network that
/// the ledger of `env` belongs to.
#[verifier::external_body]
fn ledger_network_id(env: &Env) -> (r: [u8; 32]) {
    env.ledger().network_id().to_array()
}

/// The host ledger that escrows run on, together with its network id, which
/// the address of every deployed contract depends on.
pub struct Network {
    env: Env,
    id: [u8; 32],
}

impl Network {
    /// The id of the network.
    pub closed spec fn network_id(&self) -> Seq<u8> {
        self.id@
    }

    /// The ledger of `env`. Its network id is read once, here, so that every
    /// address derived through this value is derived for one network.
    pub fn new(env: Env) -> (r: Network) {
        let id = ledger_network_id(&env);
        Network { env, id }
    }

    /// Relies on soroban_sdk's `Crypto::sha256`: the SHA-256 digest of the
    /// bytes, which depends on them alone.
    #[verifier::external_body]
    fn sha256(&self, data: &[u8; 32]) -> (r: [u8; 32])
        ensures
            r@ == sha256_of(data@),
    {
        self.env.crypto().sha256(&Bytes::from_array(&self.env, data)).to_array()
    }

    /// Relies on soroban_sdk's `DeployerWithAddress::deployed_address`: the
    /// host derives the address of a contract deployed by `deployer` with
    /// `salt` from the ledger's network id, the deployer and the salt alone,
    /// and it is always a contract address. `self.id` is that network id:
    /// `new` read it from the same ledger.
    #[verifier::external_body]
    fn deployed_address(&self, deployer: &Address, salt: &[u8; 32]) -> (r: Option<Address>)
        ensures
            r == Some(Address::Contract(contract_id_of(self.network_id(), *deployer, salt@))),
    {
        let key = match deployer {
            Address::Account(k) => ScAddress::Account(AccountId(PublicKey::PublicKeyTypeEd25519(Uint256(*k)))),
            Address::Contract(h) => ScAddress::Contract(ContractId(soroban_sdk::xdr::Hash(*h))),
        };
        let from = soroban_sdk::Address::try_from_val(&self.env, &key).unwrap();
        let derived = self.env.deployer().with_address(from, BytesN::from_array(&self.env, salt)).deployed_address();
        match ScAddress::from(&derived) {
            ScAddress::Contract(ContractId(soroban_sdk::xdr::Hash(h))) => Some(Address::Contract(h)),
            _ => None,
        }
    }

    /// The hashlock that commits to `secret`: its SHA-256 digest.
    pub fn commitment(&self, secret: &[u8; 32]) -> (r: [u8; 32])
        ensures
            r@ == sha256_of(secret@),
    {
        self.sha256(secret)
    }

    /// The address at which `deployer` deploys a contract with `salt`.
    pub fn contract_address(&self, deployer: &Address, salt: &[u8; 32]) -> (r: Address)
        ensures
            r == Address::Contract(contract_id_of(self.network_id(), *deployer, salt@)),
    {
        let derived = self.deployed_address(deployer, salt);
        derived.unwrap()
    }
}

} // verus!
