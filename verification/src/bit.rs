use vstd::prelude::*;

verus! {

/// Bit `i` of a byte string, least-significant first within each byte:
/// bit `i` is bit `i % 8` of byte `i / 8`.
pub open spec fn spec_bit_at(bytes: Seq<u8>, i: int) -> bool {
    (bytes[i / 8] >> ((i % 8) as u8)) & 1 == 1
}

/// The first `n` bits of a byte string, LSB-first within each byte.
pub open spec fn spec_bits_from_bytes(bytes: Seq<u8>, n: nat) -> Seq<bool> {
    Seq::new(n, |i: int| spec_bit_at(bytes, i))
}

/// Unpacks the first `n` bits of a byte string, LSB-first within each
/// byte.
pub fn bits_from_bytes(bytes: &Vec<u8>, n: usize) -> (r: Vec<bool>)
    requires
        n <= 0x1000_0000,
        bytes@.len() == (n + 7) / 8,
    ensures
        r@ == spec_bits_from_bytes(bytes@, n as nat),
        r@.len() == n,
{
    let mut out: Vec<bool> = Vec::new();
    let mut i: usize = 0;
    while i < n
        invariant
            n <= 0x1000_0000,
            bytes@.len() == (n + 7) / 8,
            0 <= i <= n,
            out@.len() == i,
            forall|k: int| 0 <= k < i ==> out@[k] == spec_bit_at(bytes@, k),
        decreases n - i,
    {
        let byte = bytes[i / 8];
        let shift: u8 = (i % 8) as u8;
        let bit = (byte >> shift) & 1 == 1;
        out.push(bit);
        i += 1;
    }
    assert(out@ =~= spec_bits_from_bytes(bytes@, n as nat));
    out
}

/// Samples `n` uniformly random bits: the minimum number of CSPRNG bytes
/// that covers them, unpacked by `bits_from_bytes` (LSB-first within each
/// byte, only the first `n` bits used). Fails only if the CSPRNG does.
pub fn sample(n: usize, rng: &ring::rand::SystemRandom) -> (r: Option<Vec<bool>>)
    requires
        n <= 0x1000_0000,
    ensures
        r is Some ==> r.unwrap()@.len() == n,
{
    let byte_count = (n + 7) / 8;
    let bytes = match crate::rng::random_bytes(rng, byte_count) {
        Some(b) => b,
        None => {
            return None;
        },
    };
    Some(bits_from_bytes(&bytes, n))
}

} // verus!
