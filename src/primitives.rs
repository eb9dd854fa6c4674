//! Fixed-size ledger values and the 32-byte words in which the ledger encodes them.
use vstd::prelude::*;

verus! {

/// Length in bytes of one encoded word of event data.
pub const WORD_LEN: usize = 32;

/// A 20-byte account address on the ledger.
#[derive(Clone, Copy, Debug, PartialEq, Eq)]
pub struct Address {
    pub bytes: [u8; 20],
}

/// A 32-byte transaction identifier (its hash).
#[derive(Clone, Copy, Debug, PartialEq, Eq)]
pub struct TxId {
    pub bytes: [u8; 32],
}

/// Big-endian value of a byte string.
pub open spec fn be_value(s: Seq<u8>) -> nat
    decreases s.len(),
{
    if s.len() == 0 {
        0
    } else {
        be_value(s.drop_last()) * 256 + s.last() as nat
    }
}

/// The `i`-th 32-byte word of `data`.
pub open spec fn word_at(data: Seq<u8>, i: int) -> Seq<u8> {
    data.subrange(i * 32, i * 32 + 32)
}

/// The word as an unsigned 64-bit number, when its value fits.
pub open spec fn word_u64(w: Seq<u8>) -> Option<u64> {
    if be_value(w) <= u64::MAX as nat {
        Some(be_value(w) as u64)
    } else {
        None
    }
}

/// The word as an address: twelve zero bytes of padding, then the twenty bytes.
pub open spec fn word_address(w: Seq<u8>) -> Option<Seq<u8>> {
    if forall|i: int| 0 <= i < 12 ==> w[i] == 0u8 {
        Some(w.subrange(12, 32))
    } else {
        None
    }
}

/// A prefix never has a larger value than the whole string.
proof fn lemma_be_value_prefix(s: Seq<u8>, k: int)
    requires
        0 <= k <= s.len(),
    ensures
        be_value(s.subrange(0, k)) <= be_value(s),
    decreases s.len(),
{
    if k < s.len() {
        lemma_be_value_prefix(s.drop_last(), k);
        assert(s.drop_last().subrange(0, k) =~= s.subrange(0, k));
    } else {
        assert(s.subrange(0, k) =~= s);
    }
}

/// Whether two addresses hold the same bytes.
pub fn same_address(a: &Address, b: &Address) -> (r: bool)
    ensures
        r == (a.bytes@ == b.bytes@),
{
    let mut i: usize = 0;
    while i < 20
        invariant
            i <= 20,
            forall|j: int| 0 <= j < i ==> a.bytes@[j] == b.bytes@[j],
        decreases 20 - i,
    {
        if a.bytes[i] != b.bytes[i] {
            return false;
        }
        i += 1;
    }
    assert(a.bytes@ =~= b.bytes@);
    true
}

/// Whether two transaction identifiers hold the same bytes.
pub fn same_tx_id(a: &TxId, b: &TxId) -> (r: bool)
    ensures
        r == (a.bytes@ == b.bytes@),
{
    same_word(&a.bytes, &b.bytes)
}

/// Whether two 32-byte words are equal.
pub fn same_word(a: &[u8; 32], b: &[u8; 32]) -> (r: bool)
    ensures
        r == (a@ == b@),
{
    let mut i: usize = 0;
    while i < 32
        invariant
            i <= 32,
            forall|j: int| 0 <= j < i ==> a@[j] == b@[j],
        decreases 32 - i,
    {
        if a[i] != b[i] {
            return false;
        }
        i += 1;
    }
    assert(a@ =~= b@);
    true
}

/// Reads the `i`-th word of `data` as a 64-bit number; `None` when its value
/// does not fit.
pub fn read_word_u64(data: &Vec<u8>, i: usize) -> (r: Option<u64>)
    requires
        i * 32 + 32 <= data@.len(),
    ensures
        r == word_u64(word_at(data@, i as int)),
{
    let ghost w = word_at(data@, i as int);
    let n = data.len();
    assert(i * 32 <= n);
    let start = i * WORD_LEN;
    let mut acc: u64 = 0;
    let mut k: usize = 0;
    while k < WORD_LEN
        invariant
            start == i * 32,
            start + 32 <= data@.len(),
            w == data@.subrange(start as int, start + 32),
            k <= 32,
            acc as nat == be_value(w.subrange(0, k as int)),
        decreases 32 - k,
    {
        let b = data[start + k];
        proof {
            let p = w.subrange(0, k as int + 1);
            assert(p.drop_last() =~= w.subrange(0, k as int));
            assert(p.last() == b);
        }
        if acc > (u64::MAX - b as u64) / 256 {
            proof {
                lemma_be_value_prefix(w, k as int + 1);
                assert(acc as nat * 256 + b as nat > u64::MAX as nat) by (nonlinear_arith)
                    requires
                        acc > (u64::MAX - b as u64) / 256,
                ;
            }
            return None;
        }
        proof {
            assert(acc * 256 + b <= u64::MAX) by (nonlinear_arith)
                requires
                    acc <= (u64::MAX - b as u64) / 256,
            ;
        }
        acc = acc * 256 + b as u64;
        k += 1;
    }
    assert(w.subrange(0, 32) =~= w);
    Some(acc)
}

/// Reads the `i`-th word of `data` as an address; `None` when its padding is
/// not zero.
pub fn read_word_address(data: &Vec<u8>, i: usize) -> (r: Option<Address>)
    requires
        i * 32 + 32 <= data@.len(),
    ensures
        match word_address(word_at(data@, i as int)) {
            Some(a) => r is Some && r->0.bytes@ == a,
            None => r is None,
        },
{
    let ghost w = word_at(data@, i as int);
    let n = data.len();
    assert(i * 32 <= n);
    let start = i * WORD_LEN;
    let mut k: usize = 0;
    while k < 12
        invariant
            start == i * 32,
            start + 32 <= data@.len(),
            w == data@.subrange(start as int, start + 32),
            k <= 12,
            forall|j: int| 0 <= j < k ==> w[j] == 0u8,
        decreases 12 - k,
    {
        if data[start + k] != 0 {
            assert(w[k as int] != 0u8);
            return None;
        }
        k += 1;
    }
    let mut bytes: [u8; 20] = [0u8; 20];
    let mut j: usize = 0;
    while j < 20
        invariant
            start == i * 32,
            start + 32 <= data@.len(),
            w == data@.subrange(start as int, start + 32),
            j <= 20,
            bytes@.len() == 20,
            forall|m: int| 0 <= m < j ==> bytes@[m] == w[12 + m],
        decreases 20 - j,
    {
        bytes[j] = data[start + 12 + j];
        j += 1;
    }
    assert(bytes@ =~= w.subrange(12, 32));
    Some(Address { bytes })
}

} // verus!
