//! Fixed-width account addresses and the deterministic deployment-address
//! predictor.
use vstd::prelude::*;

verus! {

/// The number of bytes in an account address.
pub const ADDRESS_WIDTH: usize = 20;

/// A fixed-width (20-byte) account identifier. Equality is byte-exact.
#[derive(Debug)]
pub struct Address {
    pub bytes: Vec<u8>,
}

impl View for Address {
    type V = Seq<u8>;

    open spec fn view(&self) -> Seq<u8> {
        self.bytes@
    }
}

/// The all-zero address, used as the sentinel meaning "no explicit target
/// address was supplied".
pub open spec fn zero_address_seq() -> Seq<u8> {
    Seq::new(ADDRESS_WIDTH as nat, |i: int| 0u8)
}

impl Address {
    /// An address is well formed when it holds exactly `ADDRESS_WIDTH` bytes.
    pub open spec fn wf(&self) -> bool {
        self@.len() == ADDRESS_WIDTH
    }

    /// Builds an address from raw bytes; rejects any input that is not
    /// exactly `ADDRESS_WIDTH` bytes long.
    pub fn from_bytes(bytes: Vec<u8>) -> (r: Option<Address>)
        ensures
            match r {
                Some(a) => a.wf() && a@ == bytes@,
                None => bytes@.len() != ADDRESS_WIDTH,
            },
    {
        if bytes.len() == ADDRESS_WIDTH {
            Some(Address { bytes })
        } else {
            None
        }
    }

    /// The zero-address sentinel.
    pub fn zero() -> (r: Address)
        ensures
            r.wf(),
            r@ == zero_address_seq(),
    {
        let mut bytes: Vec<u8> = Vec::new();
        let mut i: usize = 0;
        while i < ADDRESS_WIDTH
            invariant
                i <= ADDRESS_WIDTH,
                bytes@.len() == i,
                forall|k: int| 0 <= k < i ==> bytes@[k] == 0u8,
            decreases ADDRESS_WIDTH - i,
        {
            bytes.push(0u8);
            i = i + 1;
        }
        proof {
            assert(bytes@ =~= zero_address_seq());
        }
        Address { bytes }
    }

    /// True exactly when this is the zero-address sentinel.
    pub fn is_zero(&self) -> (r: bool)
        requires
            self.wf(),
        ensures
            r == (self@ == zero_address_seq()),
    {
        let mut i: usize = 0;
        while i < ADDRESS_WIDTH
            invariant
                self.wf(),
                i <= ADDRESS_WIDTH,
                forall|k: int| 0 <= k < i ==> self@[k] == 0u8,
            decreases ADDRESS_WIDTH - i,
        {
            if self.bytes[i] != 0u8 {
                proof {
                    assert(self@[i as int] != zero_address_seq()[i as int]);
                }
                return false;
            }
            i = i + 1;
        }
        proof {
            assert(self@ =~= zero_address_seq());
        }
        true
    }

    /// Byte-exact equality of two addresses.
    pub fn eq_bytes(&self, other: &Address) -> (r: bool)
        requires
            self.wf(),
            other.wf(),
        ensures
            r == (self@ == other@),
    {
        let mut i: usize = 0;
        while i < ADDRESS_WIDTH
            invariant
                self.wf(),
                other.wf(),
                i <= ADDRESS_WIDTH,
                forall|k: int| 0 <= k < i ==> self@[k] == other@[k],
            decreases ADDRESS_WIDTH - i,
        {
            if self.bytes[i] != other.bytes[i] {
                return false;
            }
            i = i + 1;
        }
        proof {
            assert(self@ =~= other@);
        }
        true
    }

    /// A fresh address holding the same bytes.
    pub fn duplicate(&self) -> (r: Address)
        requires
            self.wf(),
        ensures
            r.wf(),
            r@ == self@,
    {
        let mut bytes: Vec<u8> = Vec::new();
        let mut i: usize = 0;
        while i < ADDRESS_WIDTH
            invariant
                self.wf(),
                i <= ADDRESS_WIDTH,
                bytes@ == self@.take(i as int),
            decreases ADDRESS_WIDTH - i,
        {
            bytes.push(self.bytes[i]);
            proof {
                assert(bytes@ =~= self@.take(i + 1));
            }
            i = i + 1;
        }
        proof {
            assert(bytes@ =~= self@);
        }
        Address { bytes }
    }
}

/// The address that the standard sender-and-nonce derivation assigns to a
/// contract created by `sender` at transaction count `nonce`. Its value is a
/// function of the two arguments alone.
pub uninterp spec fn derived_address(sender: Seq<u8>, nonce: u64) -> Seq<u8>;

/// Relies on ethers_core::utils::get_contract_address: the standard
/// deterministic contract-address derivation (a keyed hash over the RLP
/// encoding of sender and nonce, truncated to address width); its 20-byte
/// result depends on the sender bytes and the nonce alone.
#[verifier::external_body]
fn contract_address_bytes(sender: &Vec<u8>, nonce: u64) -> (r: Vec<u8>)
    requires
        sender@.len() == ADDRESS_WIDTH,
    ensures
        r@.len() == ADDRESS_WIDTH,
        r@ == derived_address(sender@, nonce),
{
    let s = ethers_core::types::H160::from_slice(sender.as_slice());
    let a = ethers_core::utils::get_contract_address(s, ethers_core::types::U256::from(nonce));
    a.as_bytes().to_vec()
}

/// Derives the deterministic deployment address for `signer` at transaction
/// count `nonce`. Pure: the result is a function of the two inputs alone.
pub fn predict_address(signer: &Address, nonce: u64) -> (r: Address)
    requires
        signer.wf(),
    ensures
        r.wf(),
        r@ == derived_address(signer@, nonce),
{
    Address { bytes: contract_address_bytes(&signer.bytes, nonce) }
}

/// Law: address prediction is deterministic — equal signer bytes and an
/// equal nonce always derive equal addresses, in every run.
pub proof fn lemma_predict_deterministic(s1: Seq<u8>, s2: Seq<u8>, n1: u64, n2: u64)
    requires
        s1 == s2,
        n1 == n2,
    ensures
        derived_address(s1, n1) == derived_address(s2, n2),
{
}

} // verus!
