//! Identity-seeded pseudo-random generator used to jitter retry delays.

use vstd::arithmetic::div_mod::{lemma_fundamental_div_mod, lemma_mod_multiples_vanish};
use vstd::prelude::*;

verus! {

/// Multiplier of the linear-congruential recurrence.
pub const LCG_A: u64 = 1664525;

/// Increment of the linear-congruential recurrence.
pub const LCG_C: u64 = 1013904223;

/// Modulus of the linear-congruential recurrence.
pub const LCG_M: u64 = 0x1_0000_0000;

/// One step of the recurrence: `(A * seed + C) mod 2^32`.
pub open spec fn lcg(seed: u64) -> u64 {
    ((LCG_A * seed + LCG_C) % (LCG_M as int)) as u64
}

/// The big-endian integer that a byte sequence denotes.
pub open spec fn be_value(s: Seq<u8>) -> nat
    decreases s.len(),
{
    if s.len() == 0 {
        0
    } else {
        (be_value(s.drop_last()) * 256 + s.last()) as nat
    }
}

/// The seed a generator holds right after seeding from an identity and a sample.
pub open spec fn initial_seed(dev_eui: Seq<u8>, sample: u64) -> u64 {
    lcg((lcg(be_value(dev_eui) as u64) + lcg(sample)) as u64)
}

/// The values that successive draws with the given bounds return, starting from `seed`.
pub open spec fn rand_outputs(seed: u64, bounds: Seq<u64>) -> Seq<u64>
    decreases bounds.len(),
{
    if bounds.len() == 0 || bounds[0] == 0 {
        Seq::empty()
    } else {
        let v = (lcg(seed) % bounds[0]) as u64;
        seq![v] + rand_outputs(v, bounds.drop_first())
    }
}

/// The generator's state: the value that the next draw starts from.
pub struct Rng {
    pub seed: u64,
}

/// One step of the recurrence, computed without overflow.
pub fn calc_rand(seed: u64) -> (r: u64)
    ensures
        r == lcg(seed),
        r < LCG_M,
{
    let low: u64 = seed % LCG_M;
    proof {
        let q = seed as int / LCG_M as int;
        lemma_fundamental_div_mod(seed as int, LCG_M as int);
        assert(LCG_A * seed + LCG_C == LCG_M * (LCG_A * q) + (LCG_A * low + LCG_C))
            by (nonlinear_arith)
            requires
                seed == LCG_M * q + low,
        ;
        lemma_mod_multiples_vanish(LCG_A * q, LCG_A * low + LCG_C, LCG_M as int);
    }
    (LCG_A * low + LCG_C) % LCG_M
}

proof fn lemma_be_value_bound(s: Seq<u8>)
    ensures
        be_value(s) < pow256(s.len()),
    decreases s.len(),
{
    if s.len() > 0 {
        lemma_be_value_bound(s.drop_last());
        let p = pow256((s.len() - 1) as nat);
        assert(be_value(s.drop_last()) * 256 + s.last() < p * 256) by (nonlinear_arith)
            requires
                be_value(s.drop_last()) < p,
                s.last() < 256,
        ;
    }
}

spec fn pow256(n: nat) -> nat
    decreases n,
{
    if n == 0 {
        1
    } else {
        (pow256((n - 1) as nat) * 256) as nat
    }
}

/// Folds the eight identity bytes into one integer, most significant byte first.
fn fold_eui(dev_eui: &[u8; 8]) -> (r: u64)
    ensures
        r == be_value(dev_eui@),
{
    let mut acc: u64 = 0;
    let mut i: usize = 0;
    while i < 8
        invariant
            i <= 8,
            dev_eui@.len() == 8,
            acc == be_value(dev_eui@.subrange(0, i as int)),
        decreases 8 - i,
    {
        let ghost prefix = dev_eui@.subrange(0, i as int);
        proof {
            lemma_be_value_bound(prefix);
            assert(pow256(i as nat) <= pow256(7)) by {
                lemma_pow256_mono(i as nat, 7);
            }
            reveal_with_fuel(pow256, 8);
            assert(pow256(7) == 0x100_0000_0000_0000);
        }
        assert(dev_eui@.subrange(0, i + 1).drop_last() == prefix);
        acc = acc * 256 + dev_eui[i] as u64;
        i = i + 1;
    }
    assert(dev_eui@.subrange(0, 8) == dev_eui@);
    acc
}

proof fn lemma_pow256_mono(a: nat, b: nat)
    requires
        a <= b,
    ensures
        pow256(a) <= pow256(b),
    decreases b,
{
    if a < b {
        lemma_pow256_mono(a, (b - 1) as nat);
    }
}

/// Seeds a generator from the device identity and an entropy sample.
///
/// Both inputs go through one step of the recurrence before they are summed;
/// the sum is stepped once more and becomes the seed.
pub fn init_seed(dev_eui: &[u8; 8], seed_v: u64) -> (r: Rng)
    ensures
        r.seed == initial_seed(dev_eui@, seed_v),
{
    let seed_eui = calc_rand(fold_eui(dev_eui));
    let seed_v = calc_rand(seed_v);
    let mut rng = Rng { seed: seed_eui + seed_v };
    let _ = rand(&mut rng, u64::MAX);
    rng
}

/// Draws a value below `v` and keeps it as the next seed.
pub fn rand(rng: &mut Rng, v: u64) -> (r: u64)
    requires
        v > 0,
    ensures
        r == lcg(old(rng).seed) % v,
        r < v,
        final(rng).seed == r,
{
    let seed = calc_rand(rng.seed);
    let num = seed % v;
    rng.seed = num;
    num
}

/// Draws once for each bound, in order, and returns the values drawn.
pub fn draw_sequence(rng: &mut Rng, bounds: &Vec<u64>) -> (r: Vec<u64>)
    requires
        forall|i: int| 0 <= i < bounds@.len() ==> #[trigger] bounds@[i] > 0,
    ensures
        r@ == rand_outputs(old(rng).seed, bounds@),
{
    let mut out: Vec<u64> = Vec::new();
    let mut i: usize = 0;
    assert(bounds@.subrange(0, bounds@.len() as int) =~= bounds@);
    assert(out@ + rand_outputs(rng.seed, bounds@) =~= rand_outputs(rng.seed, bounds@));
    while i < bounds.len()
        invariant
            i <= bounds@.len(),
            forall|k: int| 0 <= k < bounds@.len() ==> #[trigger] bounds@[k] > 0,
            out@ + rand_outputs(rng.seed, bounds@.subrange(i as int, bounds@.len() as int))
                == rand_outputs(old(rng).seed, bounds@),
        decreases bounds@.len() - i,
    {
        let ghost rest = bounds@.subrange(i as int, bounds@.len() as int);
        let ghost seed = rng.seed;
        let ghost before = out@;
        let x = rand(rng, bounds[i]);
        assert(rest.drop_first() =~= bounds@.subrange(i + 1, bounds@.len() as int));
        assert(rand_outputs(seed, rest) == seq![x] + rand_outputs(x, rest.drop_first()));
        out.push(x);
        i = i + 1;
        assert(out@ + rand_outputs(rng.seed, bounds@.subrange(i as int, bounds@.len() as int))
            =~= before + seq![x] + rand_outputs(x, rest.drop_first()));
    }
    assert(bounds@.subrange(bounds@.len() as int, bounds@.len() as int) =~= Seq::<u64>::empty());
    assert(out@ + Seq::<u64>::empty() =~= out@);
    out
}

/// Two generators seeded from the same identity and the same sample return
/// the same values for the same sequence of bounds, and every value stays
/// below its bound.
pub proof fn lemma_rand_deterministic(
    eui_a: Seq<u8>,
    sample_a: u64,
    eui_b: Seq<u8>,
    sample_b: u64,
    bounds: Seq<u64>,
)
    requires
        eui_a == eui_b,
        sample_a == sample_b,
    ensures
        rand_outputs(initial_seed(eui_a, sample_a), bounds) == rand_outputs(
            initial_seed(eui_b, sample_b),
            bounds,
        ),
        forall|i: int|
            0 <= i < rand_outputs(initial_seed(eui_a, sample_a), bounds).len() ==> #[trigger] rand_outputs(
                initial_seed(eui_a, sample_a),
                bounds,
            )[i] < bounds[i],
{
    lemma_rand_outputs_below(initial_seed(eui_a, sample_a), bounds);
}

proof fn lemma_rand_outputs_below(seed: u64, bounds: Seq<u64>)
    ensures
        rand_outputs(seed, bounds).len() <= bounds.len(),
        forall|i: int|
            0 <= i < rand_outputs(seed, bounds).len() ==> #[trigger] rand_outputs(seed, bounds)[i]
                < bounds[i],
    decreases bounds.len(),
{
    if bounds.len() > 0 && bounds[0] != 0 {
        let v = (lcg(seed) % bounds[0]) as u64;
        lemma_rand_outputs_below(v, bounds.drop_first());
        assert forall|i: int| 0 <= i < rand_outputs(seed, bounds).len() implies #[trigger] rand_outputs(seed, bounds)[i]
            < bounds[i] by {
            if i > 0 {
                assert(rand_outputs(seed, bounds)[i] == rand_outputs(v, bounds.drop_first())[i - 1]);
            }
        }
    }
}

/// Whether `c` is an ASCII hexadecimal digit of either case.
pub open spec fn is_hex_digit(c: u8) -> bool {
    (48 <= c <= 57) || (97 <= c <= 102) || (65 <= c <= 70)
}

/// The value of an ASCII hexadecimal digit.
pub open spec fn hex_digit_value(c: u8) -> u8 {
    if 48 <= c <= 57 {
        (c - 48) as u8
    } else if 97 <= c <= 102 {
        (c - 97 + 10) as u8
    } else {
        (c - 65 + 10) as u8
    }
}

/// Whether `s` is exactly sixteen hexadecimal digits.
pub open spec fn is_eui_hex(s: Seq<u8>) -> bool {
    s.len() == 16 && forall|i: int| 0 <= i < 16 ==> is_hex_digit(#[trigger] s[i])
}

/// The eight bytes that sixteen hexadecimal digits denote, two digits per byte.
pub open spec fn eui_bytes(s: Seq<u8>) -> Seq<u8> {
    Seq::new(8, |j: int| (hex_digit_value(s[2 * j]) * 16 + hex_digit_value(s[2 * j + 1])) as u8)
}

/// Relies on hex::decode_to_slice: it succeeds exactly when the input has twice
/// as many digits as the output has bytes and every one is a hexadecimal digit,
/// and then writes byte `j` from digits `2j` (high) and `2j + 1` (low).
#[verifier::external_body]
fn decode_eui_hex(data: &[u8], out: &mut [u8; 8]) -> (ok: bool)
    ensures
        ok == is_eui_hex(data@),
        ok ==> final(out)@ == eui_bytes(data@),
{
    hex::decode_to_slice(data, out).is_ok()
}

/// The identity bytes that seed the generator: the decoded DevEUI, or eight
/// zero bytes when the DevEUI is not sixteen hexadecimal digits.
pub open spec fn seed_identity(dev_eui_hex: Seq<u8>) -> Seq<u8> {
    if is_eui_hex(dev_eui_hex) {
        eui_bytes(dev_eui_hex)
    } else {
        Seq::new(8, |j: int| 0u8)
    }
}

/// Seeds a generator from the textual DevEUI reported by the radio module and
/// an entropy sample.
pub fn seed_from_dev_eui(dev_eui_hex: &[u8], sample: u64) -> (r: Rng)
    ensures
        r.seed == initial_seed(seed_identity(dev_eui_hex@), sample),
{
    let mut eui: [u8; 8] = [0; 8];
    if !decode_eui_hex(dev_eui_hex, &mut eui) {
        eui = [0; 8];
        assert(eui@ =~= Seq::new(8, |j: int| 0u8));
    }
    init_seed(&eui, sample)
}

} // verus!
