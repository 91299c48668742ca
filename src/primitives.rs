//! Ledger identities, 32-byte values and the Keccak-256 digest.

use vstd::prelude::*;

verus! {

broadcast use vstd::array::group_array_axioms;

/// Largest input handed to the digest: far inside the host's default
/// metering budget for one hash.
pub const MAX_HASH_INPUT: usize = 65536;

/// A ledger identity: an account's public key or a contract's id.
#[derive(Clone, Copy, Debug)]
pub enum Address {
    Account([u8; 32]),
    Contract([u8; 32]),
}

/// Whether two 32-byte values are equal.
pub fn bytes_equal(a: &[u8; 32], b: &[u8; 32]) -> (r: bool)
    ensures
        r == (*a == *b),
        r == (a@ == b@),
{
    let mut i: usize = 0;
    while i < 32
        invariant
            0 <= i <= 32,
            forall|j: int| 0 <= j < i ==> a@[j] == b@[j],
        decreases 32 - i,
    {
        if a[i] != b[i] {
            assert(a@[i as int] != b@[i as int]);
            return false;
        }
        i += 1;
    }
    assert(*a =~= *b);
    true
}

impl PartialEq for Address {
    fn eq(&self, other: &Address) -> (r: bool)
        ensures
            r == (*self == *other),
    {
        match (self, other) {
            (Address::Account(a), Address::Account(b)) => bytes_equal(a, b),
            (Address::Contract(a), Address::Contract(b)) => bytes_equal(a, b),
            _ => false,
        }
    }
}

impl vstd::std_specs::cmp::PartialEqSpecImpl for Address {
    open spec fn obeys_eq_spec() -> bool {
        true
    }

    open spec fn eq_spec(&self, other: &Address) -> bool {
        *self == *other
    }
}

impl Eq for Address {
}

/// The ledger's XDR encoding of an address as a contract value: the value
/// tag, the address kind (and key kind for an account), then the 32 bytes.
pub open spec fn address_xdr(a: Address) -> Seq<u8> {
    match a {
        Address::Account(key) => seq![0u8, 0, 0, 18, 0, 0, 0, 0, 0, 0, 0, 0] + key@,
        Address::Contract(id) => seq![0u8, 0, 0, 18, 0, 0, 0, 1] + id@,
    }
}

/// `x` as `n` big-endian bytes (its low `n` bytes when it does not fit).
pub open spec fn be_bytes(x: nat, n: nat) -> Seq<u8>
    decreases n,
{
    if n == 0 {
        Seq::empty()
    } else {
        be_bytes(x / 256, (n - 1) as nat).push((x % 256) as u8)
    }
}

pub proof fn lemma_be_bytes_len(x: nat, n: nat)
    ensures
        be_bytes(x, n).len() == n,
    decreases n,
{
    if n > 0 {
        lemma_be_bytes_len(x / 256, (n - 1) as nat);
    }
}

/// Appends `data` to `out`.
pub fn append_bytes(out: &mut Vec<u8>, data: &[u8])
    ensures
        final(out)@ == old(out)@ + data@,
{
    let ghost start = out@;
    let mut i: usize = 0;
    while i < data.len()
        invariant
            0 <= i <= data@.len(),
            out@ == start + data@.subrange(0, i as int),
        decreases data@.len() - i,
    {
        out.push(data[i]);
        i += 1;
        assert(out@ =~= start + data@.subrange(0, i as int));
    }
    assert(data@.subrange(0, data@.len() as int) =~= data@);
}

/// Appends the low `n` bytes of `x`, most significant first.
pub fn append_be(out: &mut Vec<u8>, x: u128, n: usize)
    ensures
        final(out)@ == old(out)@ + be_bytes(x as nat, n as nat),
    decreases n,
{
    if n == 0 {
        assert(old(out)@ + be_bytes(x as nat, 0) =~= old(out)@);
        return;
    }
    let ghost start = out@;
    append_be(out, x / 256, n - 1);
    out.push((x % 256) as u8);
    assert(out@ =~= start + be_bytes(x as nat, n as nat));
}

fn copy32(data: &[u8], start: usize) -> (r: [u8; 32])
    requires
        start + 32 <= data@.len(),
        start <= 64,
    ensures
        r@ == data@.subrange(start as int, start + 32),
{
    let mut out = [0u8; 32];
    let mut i: usize = 0;
    while i < 32
        invariant
            0 <= i <= 32,
            start + 32 <= data@.len(),
            start <= 64,
            forall|j: int| 0 <= j < i ==> out@[j] == data@[start + j],
        decreases 32 - i,
    {
        out[i] = data[start + i];
        i += 1;
    }
    assert(out@ =~= data@.subrange(start as int, start + 32));
    out
}

/// Reads an address back from its XDR encoding; anything else is refused.
pub fn address_from_xdr(data: &[u8]) -> (r: Option<Address>)
    ensures
        r matches Some(a) ==> data@ == address_xdr(a),
        r is None ==> forall|a: Address| data@ != address_xdr(a),
{
    let n = data.len();
    if n == 44 && data[0] == 0 && data[1] == 0 && data[2] == 0 && data[3] == 18 && data[4] == 0
        && data[5] == 0 && data[6] == 0 && data[7] == 0 && data[8] == 0 && data[9] == 0
        && data[10] == 0 && data[11] == 0 {
        let key = copy32(data, 12);
        let a = Address::Account(key);
        assert(data@ =~= address_xdr(a));
        return Some(a);
    }
    if n == 40 && data[0] == 0 && data[1] == 0 && data[2] == 0 && data[3] == 18 && data[4] == 0
        && data[5] == 0 && data[6] == 0 && data[7] == 1 {
        let id = copy32(data, 8);
        let a = Address::Contract(id);
        assert(data@ =~= address_xdr(a));
        return Some(a);
    }
    assert forall|a: Address| data@ != address_xdr(a) by {
        if data@ == address_xdr(a) {
            match a {
                Address::Account(k) => {
                    assert(data@[7] == address_xdr(a)[7]);
                    assert(data@[11] == address_xdr(a)[11]);
                },
                Address::Contract(h) => {
                    assert(data@[7] == address_xdr(a)[7]);
                },
            }
        }
    }
    None
}

/// Appends the XDR encoding of `a`.
pub fn append_address_xdr(out: &mut Vec<u8>, a: &Address)
    ensures
        final(out)@ == old(out)@ + address_xdr(*a),
{
    let ghost start = out@;
    match a {
        Address::Account(key) => {
            append_be(out, 18, 4);
            append_be(out, 0, 4);
            append_be(out, 0, 4);
            append_bytes(out, key);
            assert(be_bytes(18, 4) =~= seq![0u8, 0, 0, 18]) by { reveal_with_fuel(be_bytes, 5); }
            assert(be_bytes(0, 4) =~= seq![0u8, 0, 0, 0]) by { reveal_with_fuel(be_bytes, 5); }
            assert(out@ =~= start + address_xdr(*a));
        },
        Address::Contract(id) => {
            append_be(out, 18, 4);
            append_be(out, 1, 4);
            append_bytes(out, id);
            assert(be_bytes(18, 4) =~= seq![0u8, 0, 0, 18]) by { reveal_with_fuel(be_bytes, 5); }
            assert(be_bytes(1, 4) =~= seq![0u8, 0, 0, 1]) by { reveal_with_fuel(be_bytes, 5); }
            assert(out@ =~= start + address_xdr(*a));
        },
    }
}

/// The Keccak-256 digest of a byte string.
pub uninterp spec fn keccak_of(data: Seq<u8>) -> Seq<u8>;

/// Relies on soroban_sdk's `Crypto::keccak256`, run on a fresh host: the
/// Keccak-256 digest of the bytes, which depends on the bytes alone.
#[verifier::external_body]
pub(crate) fn keccak256(data: &[u8]) -> (r: [u8; 32])
    requires
        data@.len() <= MAX_HASH_INPUT,
    ensures
        r@ == keccak_of(data@),
{
    let env = soroban_sdk::Env::default();
    env.crypto().keccak256(&soroban_sdk::Bytes::from_slice(&env, data)).to_array()
}

} // verus!
