//! RFC1071 ones-complement checksum primitives.
use vstd::prelude::*;

verus! {

/// The big-endian 16-bit word made of bytes `2k` and `2k + 1`.
pub open spec fn word_at(data: Seq<u8>, k: int) -> int {
    data[2 * k] as int * 256 + data[2 * k + 1] as int
}

/// Sum of the first `n` complete big-endian 16-bit words of `data`.
pub open spec fn pair_sum(data: Seq<u8>, n: nat) -> int
    decreases n,
{
    if n == 0 {
        0
    } else {
        pair_sum(data, (n - 1) as nat) + word_at(data, n - 1)
    }
}

/// Sum of `data` read as big-endian 16-bit words, a trailing odd byte being
/// the high byte of a last word whose low byte is zero.
pub open spec fn word_sum(data: Seq<u8>) -> int {
    pair_sum(data, data.len() / 2) + if data.len() % 2 == 1 {
        data[data.len() - 1] as int * 256
    } else {
        0
    }
}

/// Folds the bits above the low 16 into the low 16 until the value fits.
pub open spec fn fold16(c: int) -> int
    decreases c,
{
    if c <= 0xffff || c < 0 {
        c
    } else {
        fold16(c / 65536 + c % 65536)
    }
}

proof fn lemma_pair_sum_bounds(data: Seq<u8>, k: nat, n: nat)
    requires
        k <= n,
        2 * n <= data.len(),
    ensures
        0 <= pair_sum(data, k) <= pair_sum(data, n),
    decreases n,
{
    if n > 0 {
        if k < n {
            lemma_pair_sum_bounds(data, k, (n - 1) as nat);
        } else {
            lemma_pair_sum_bounds(data, (n - 1) as nat, (n - 1) as nat);
        }
    }
}

/// Outcome of verifying one layer's checksum.
#[derive(Debug, Clone, Copy)]
pub struct ChecksumVerificationResult {
    /// Whether the checksum found matches the one computed.
    pub valid: bool,
    /// The checksum computed over the layer.
    pub correct: u32,
    /// The checksum found in the layer.
    pub actual: u32,
}

/// What verifying a layer's checksum gives.
#[derive(Debug, Clone)]
pub enum ChecksumOutcome {
    /// The layer carries no checksum.
    NotSupported,
    /// The checksum was verified, with this result.
    Verified(ChecksumVerificationResult),
    /// Verification itself failed, for the reason given.
    Failed(String),
}

/// A checksum that was found not to match, with the layer that carries it.
#[derive(Debug, Clone, Copy)]
pub struct ChecksumMismatch {
    /// The verification outcome, whose `valid` is false.
    pub result: ChecksumVerificationResult,
    /// Type id of the layer that carries the checksum.
    pub layer_type: usize,
    /// Position of the layer in decode order.
    pub layer_index: usize,
}

/// Adds `data`, read as big-endian 16-bit words, to the running total
/// `csum`; carries are left for `fold_checksum`.
pub fn compute_checksum(data: &[u8], csum: u32) -> (r: u32)
    requires
        csum as int + word_sum(data@) <= u32::MAX,
    ensures
        r as int == csum as int + word_sum(data@),
{
    let length = data.len();
    let pairs = length / 2;
    let mut total: u32 = csum;
    let mut k: usize = 0;
    proof {
        lemma_pair_sum_bounds(data@, 0, pairs as nat);
    }
    while k < pairs
        invariant
            pairs == data@.len() / 2,
            length == data@.len(),
            k <= pairs,
            csum as int + word_sum(data@) <= u32::MAX,
            total as int == csum as int + pair_sum(data@, k as nat),
        decreases pairs - k,
    {
        proof {
            lemma_pair_sum_bounds(data@, (k + 1) as nat, pairs as nat);
        }
        let hi = data[2 * k] as u32;
        let lo = data[2 * k + 1] as u32;
        total = total + hi * 256 + lo;
        k = k + 1;
    }
    if length % 2 == 1 {
        total = total + (data[length - 1] as u32) * 256;
    }
    total
}

/// Folds a 32-bit running total into 16 bits and returns its ones-complement.
pub fn fold_checksum(csum: u32) -> (r: u16)
    ensures
        r as int == 0xffff - fold16(csum as int),
{
    let mut c: u32 = csum;
    while c > 0xffff
        invariant
            fold16(c as int) == fold16(csum as int),
        decreases c,
    {
        let hi = c >> 16;
        let lo = c & 0xffff;
        assert(hi == c / 65536 && lo == c % 65536) by (bit_vector)
            requires
                hi == c >> 16,
                lo == c & 0xffff,
        ;
        c = hi + lo;
    }
    let f = c as u16;
    let r = !f;
    assert(r == 0xffff - f) by (bit_vector)
        requires
            r == !f,
    ;
    r
}

} // verus!
