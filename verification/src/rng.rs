use vstd::prelude::*;

use crate::com::Com;
use crate::tensor::{is_rect, mat_view, Matrix};

verus! {

#[verifier::external_type_specification]
#[verifier::external_body]
pub struct ExSystemRandom(ring::rand::SystemRandom);

/// Relies on ring::rand::SystemRandom::new: constructs the OS-backed
/// cryptographically secure random number generator; the constructor itself
/// always succeeds (initialisation is deferred to the first fill).
#[verifier::external_body]
pub fn new_system_random() -> ring::rand::SystemRandom {
    ring::rand::SystemRandom::new()
}

/// Relies on ring::rand::SecureRandom::fill: fills a buffer with bytes from
/// the operating system's CSPRNG, or reports failure. The bytes are random,
/// so nothing is promised of them; only the length of a successful result is
/// stated.
#[verifier::external_body]
pub fn random_bytes(rng: &ring::rand::SystemRandom, n: usize) -> (r: Option<Vec<u8>>)
    ensures
        r is Some ==> r.unwrap()@.len() == n,
{
    let mut buf: Vec<u8> = vec![0u8; n];
    match ring::rand::SecureRandom::fill(rng, &mut buf) {
        Ok(()) => Some(buf),
        Err(_) => None,
    }
}

/// How `n` scalars are packed into `2n` bytes: scalar `i` reads bytes
/// `2i` (low) and `2i + 1` (high), little-endian.
pub open spec fn spec_coms_from_bytes(bytes: Seq<u8>, n: nat) -> Seq<Com> {
    Seq::new(n, |i: int| Com { raw: (bytes[2 * i] + 0x100 * bytes[2 * i + 1]) as u16 })
}

/// Reads `n` scalars out of `2n` bytes, little-endian.
pub fn coms_from_bytes(bytes: &Vec<u8>, n: usize) -> (r: Vec<Com>)
    requires
        n <= 0x1000_0000,
        bytes@.len() == 2 * n,
    ensures
        r@ == spec_coms_from_bytes(bytes@, n as nat),
        r@.len() == n,
{
    let mut out: Vec<Com> = Vec::new();
    let mut i: usize = 0;
    while i < n
        invariant
            n <= 0x1000_0000,
            bytes@.len() == 2 * n,
            0 <= i <= n,
            out@.len() == i,
            forall|k: int|
                0 <= k < i ==> out@[k] == (Com {
                    raw: (bytes@[2 * k] + 0x100 * bytes@[2 * k + 1]) as u16,
                }),
        decreases n - i,
    {
        let lo = bytes[2 * i];
        let hi = bytes[2 * i + 1];
        let raw: u16 = lo as u16 + (hi as u16) * 0x100;
        out.push(Com { raw });
        i += 1;
    }
    assert(out@ =~= spec_coms_from_bytes(bytes@, n as nat));
    out
}

/// Samples `n` uniformly random scalars: `2n` CSPRNG bytes, read
/// little-endian by `coms_from_bytes`. Fails only if the CSPRNG does.
pub fn sample_com(n: usize, rng: &ring::rand::SystemRandom) -> (r: Option<Vec<Com>>)
    requires
        n <= 0x1000_0000,
    ensures
        r is Some ==> r.unwrap()@.len() == n,
{
    let bytes = match random_bytes(rng, 2 * n) {
        Some(b) => b,
        None => {
            return None;
        },
    };
    Some(coms_from_bytes(&bytes, n))
}

/// Samples a uniformly random matrix of scalars, row by row.
pub fn sample_com_matrix(
    rows: usize,
    cols: usize,
    rng: &ring::rand::SystemRandom,
) -> (r: Option<Matrix>)
    requires
        cols <= 0x1000_0000,
    ensures
        r is Some ==> mat_view(&r.unwrap()).len() == rows && is_rect(
            mat_view(&r.unwrap()),
            cols as nat,
        ),
{
    let mut out: Vec<Vec<Com>> = Vec::new();
    let mut i: usize = 0;
    while i < rows
        invariant
            cols <= 0x1000_0000,
            0 <= i <= rows,
            out@.len() == i,
            forall|k: int| 0 <= k < i ==> #[trigger] out@[k]@.len() == cols,
        decreases rows - i,
    {
        let row = match sample_com(cols, rng) {
            Some(v) => v,
            None => {
                return None;
            },
        };
        out.push(row);
        i += 1;
    }
    let m = Matrix { rows: out };
    assert(forall|k: int| 0 <= k < rows ==> #[trigger] mat_view(&m)[k].len() == cols);
    Some(m)
}

} // verus!
