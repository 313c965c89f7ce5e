//! Deterministic fixture data for microbenchmarks.
//!
//! Each generation call seeds its own ChaCha engine from a 64-bit seed and
//! draws a fixed-length sequence of synthetic values: bounded integers, or
//! optional strings made of spaces. The contracts pin every result to a
//! specification-level sequence that depends on the arguments alone, so the
//! same seed and parameters always reproduce the same fixture, across calls,
//! processes and platforms.

use vstd::prelude::*;

pub mod rng;

use crate::rng::draw_i32_in;
use crate::rng::draw_u64;
use crate::rng::draw_usize_in;
use crate::rng::engine_from_seed;
use crate::rng::engine_state;
use crate::rng::i32_range_draw;
use crate::rng::seeded_state;
use crate::rng::u64_draw;
use crate::rng::usize_range_draw;

verus! {

/// The engine state after `k` bounded i32 draws over `[low, high)`, starting
/// from an engine freshly seeded with `seed`.
pub open spec fn int_state(seed: u64, low: i32, high: i32, k: nat) -> int
    decreases k,
{
    if k == 0 {
        seeded_state(seed)
    } else {
        i32_range_draw(int_state(seed, low, high, (k - 1) as nat), low, high).1
    }
}

/// The sequence of `n` bounded i32 draws over `[low, high)` from an engine
/// freshly seeded with `seed`: a function of the arguments alone.
pub open spec fn bounded_int_seq(seed: u64, low: i32, high: i32, n: nat) -> Seq<i32> {
    Seq::new(n, |i: int| i32_range_draw(int_state(seed, low, high, i as nat), low, high).0)
}

/// Draws `n` integers uniformly from `[low, high)`, in index order, from a
/// ChaCha engine freshly seeded with `seed`. The result equals
/// `bounded_int_seq(seed, low, high, n)`, so two calls with equal arguments
/// return equal sequences, and every element lies in `[low, high)`.
pub fn random_array(seed: u64, low: i32, high: i32, n: usize) -> (r: Vec<i32>)
    requires
        low < high,
    ensures
        r@ == bounded_int_seq(seed, low, high, n as nat),
        r@.len() == n,
        forall|i: int| 0 <= i < n ==> low <= #[trigger] r@[i] < high,
{
    let mut e = engine_from_seed(seed);
    let mut out: Vec<i32> = Vec::new();
    let mut i: usize = 0;
    while i < n
        invariant
            low < high,
            i <= n,
            out@.len() == i as nat,
            engine_state(e) == int_state(seed, low, high, i as nat),
            forall|j: int| 0 <= j < i ==> out@[j] == bounded_int_seq(seed, low, high, n as nat)[j],
            forall|j: int| 0 <= j < i ==> low <= #[trigger] out@[j] < high,
        decreases n - i,
    {
        let v = draw_i32_in(&mut e, low, high);
        out.push(v);
        i = i + 1;
    }
    proof {
        assert(out@ =~= bounded_int_seq(seed, low, high, n as nat));
    }
    out
}

/// An input the hardened generator entry points refuse.
#[derive(Clone, Copy, Debug, PartialEq, Eq, Structural)]
pub enum GenError {
    /// The integer range `[low, high)` is empty: `low >= high`.
    InvalidRange,
    /// The requested length is zero.
    InvalidLength,
}

/// The hardened form of `random_array`: instead of a caller obligation, an
/// empty range comes back as `InvalidRange` and a zero length as
/// `InvalidLength`, the range checked first. On every other input it
/// returns exactly what `random_array` returns.
pub fn try_random_array(seed: u64, low: i32, high: i32, n: usize) -> (r: Result<
    Vec<i32>,
    GenError,
>)
    ensures
        low >= high ==> r == Result::<Vec<i32>, GenError>::Err(GenError::InvalidRange),
        low < high && n == 0 ==> r == Result::<Vec<i32>, GenError>::Err(GenError::InvalidLength),
        low < high && n > 0 ==> (r matches Ok(v) && v@ == bounded_int_seq(
            seed,
            low,
            high,
            n as nat,
        )),
{
    if low >= high {
        Err(GenError::InvalidRange)
    } else if n == 0 {
        Err(GenError::InvalidLength)
    } else {
        Ok(random_array(seed, low, high, n))
    }
}

/// Every present optional-string slot is strictly shorter than this bound.
pub const STRING_LEN_BOUND: usize = 20;

/// The characters of a string of `len` spaces.
pub open spec fn spaces_seq(len: nat) -> Seq<char> {
    Seq::new(len, |i: int| ' ')
}

/// Builds the string of `len` spaces.
fn spaces(len: usize) -> (s: String)
    ensures
        s@ == spaces_seq(len as nat),
{
    let mut s = String::new();
    let mut i: usize = 0;
    proof {
        assert(s@ =~= spaces_seq(0));
    }
    while i < len
        invariant
            i <= len,
            s@ == spaces_seq(i as nat),
        decreases len - i,
    {
        s.append(" ");
        i = i + 1;
        proof {
            reveal_strlit(" ");
            assert(s@ =~= spaces_seq(i as nat));
        }
    }
    s
}

/// Where the fair coin sends a 64-bit draw: values below 2^63 make the slot
/// absent. This is the decision rule of rand's Bernoulli distribution at
/// probability one half — one 64-bit draw compared against half of 2^64 —
/// so the presence coin consumes exactly one draw from the engine.
pub open spec fn coin_absent(u: u64) -> bool {
    u < 0x8000_0000_0000_0000u64
}

/// One optional-string slot produced at engine state `st`, paired with the
/// state the engine is left in. The presence coin is drawn first; the
/// length draw is consumed only when the slot is present.
pub open spec fn opt_slot(st: int) -> (Option<Seq<char>>, int) {
    let coin = u64_draw(st);
    if coin_absent(coin.0) {
        (None, coin.1)
    } else {
        let len = usize_range_draw(coin.1, 0, STRING_LEN_BOUND);
        (Some(spaces_seq(len.0 as nat)), len.1)
    }
}

/// The engine state after `k` optional-string slots, starting from an
/// engine freshly seeded with `seed`.
pub open spec fn opt_state(seed: u64, k: nat) -> int
    decreases k,
{
    if k == 0 {
        seeded_state(seed)
    } else {
        opt_slot(opt_state(seed, (k - 1) as nat)).1
    }
}

/// The sequence of `n` optional-string slots drawn from an engine freshly
/// seeded with `seed`: a function of the arguments alone.
pub open spec fn opt_string_seq(seed: u64, n: nat) -> Seq<Option<Seq<char>>> {
    Seq::new(n, |i: int| opt_slot(opt_state(seed, i as nat)).0)
}

/// Every character of `s` is a space.
pub open spec fn all_spaces(s: Seq<char>) -> bool {
    forall|j: int| 0 <= j < s.len() ==> s[j] == ' '
}

/// A well-formed slot: absent, or a string of fewer than
/// `STRING_LEN_BOUND` spaces.
pub open spec fn present_slot_ok(o: Option<String>) -> bool {
    o matches Some(s) ==> s@.len() < STRING_LEN_BOUND && all_spaces(s@)
}

/// Draws `n` optional strings, in index order, from a ChaCha engine freshly
/// seeded with `seed`. Each slot flips a fair coin for presence and, only
/// when present, draws a length uniformly from `[0, STRING_LEN_BOUND)` and
/// holds that many spaces. The characters of the result equal
/// `opt_string_seq(seed, n)`, so two calls with equal arguments return
/// equal sequences.
pub fn random_string_array(seed: u64, n: usize) -> (r: Vec<Option<String>>)
    ensures
        r.deep_view() == opt_string_seq(seed, n as nat),
        r@.len() == n,
        forall|i: int| 0 <= i < n ==> present_slot_ok(#[trigger] r@[i]),
{
    let mut e = engine_from_seed(seed);
    let mut out: Vec<Option<String>> = Vec::new();
    let mut i: usize = 0;
    while i < n
        invariant
            i <= n,
            out@.len() == i as nat,
            engine_state(e) == opt_state(seed, i as nat),
            forall|j: int|
                0 <= j < i ==> #[trigger] out.deep_view()[j] == opt_string_seq(seed, n as nat)[j],
            forall|j: int| 0 <= j < i ==> present_slot_ok(#[trigger] out@[j]),
        decreases n - i,
    {
        let ghost st0: int = engine_state(e);
        let ghost prior: Seq<Option<Seq<char>>> = out.deep_view();
        let u = draw_u64(&mut e);
        if u < 0x8000_0000_0000_0000u64 {
            out.push(None);
        } else {
            let len = draw_usize_in(&mut e, 0, STRING_LEN_BOUND);
            out.push(Some(spaces(len)));
        }
        i = i + 1;
        proof {
            assert(opt_state(seed, i as nat) == opt_slot(st0).1);
            assert forall|j: int| 0 <= j < i implies #[trigger] out.deep_view()[j]
                == opt_string_seq(seed, n as nat)[j] by {
                if j < i - 1 {
                    assert(out.deep_view()[j] == prior[j]);
                } else {
                    assert(out.deep_view()[j] == out@[j].deep_view());
                    assert(out@[j].deep_view() == opt_slot(st0).0);
                }
            }
        }
    }
    proof {
        assert(out.deep_view() =~= opt_string_seq(seed, n as nat));
    }
    out
}

/// The hardened form of `random_string_array`: a zero length comes back as
/// `InvalidLength` instead of being a caller obligation. On every other
/// input it returns exactly what `random_string_array` returns.
pub fn try_random_string_array(seed: u64, n: usize) -> (r: Result<Vec<Option<String>>, GenError>)
    ensures
        n == 0 ==> r == Result::<Vec<Option<String>>, GenError>::Err(GenError::InvalidLength),
        n > 0 ==> (r matches Ok(v) && v.deep_view() == opt_string_seq(seed, n as nat) && v@.len()
            == n),
{
    if n == 0 {
        Err(GenError::InvalidLength)
    } else {
        Ok(random_string_array(seed, n))
    }
}

/// Determinism of the optional-string generator: two results of
/// `random_string_array` for equal seed and length hold equal characters,
/// because each is pinned to `opt_string_seq` of those arguments.
pub proof fn lemma_random_string_array_deterministic(
    a: Seq<Option<Seq<char>>>,
    b: Seq<Option<Seq<char>>>,
    seed: u64,
    n: nat,
)
    requires
        a == opt_string_seq(seed, n),
        b == opt_string_seq(seed, n),
    ensures
        a == b,
{
}

/// Determinism of the bounded-integer generator: two results of
/// `random_array` for equal seed, bounds and length are equal, because each
/// is pinned to `bounded_int_seq` of those arguments.
pub proof fn lemma_random_array_deterministic(
    a: Seq<i32>,
    b: Seq<i32>,
    seed: u64,
    low: i32,
    high: i32,
    n: nat,
)
    requires
        a == bounded_int_seq(seed, low, high, n),
        b == bounded_int_seq(seed, low, high, n),
    ensures
        a == b,
{
}

/// A range of size one admits only its lower bound: a sequence whose
/// elements all lie in `[low, low + 1)` — as every result of `random_array`
/// over that range does — is constant `low`.
pub proof fn lemma_unit_range_constant(s: Seq<i32>, low: i32, high: i32)
    requires
        high == low + 1,
        forall|i: int| 0 <= i < s.len() ==> low <= #[trigger] s[i] < high,
    ensures
        forall|i: int| 0 <= i < s.len() ==> #[trigger] s[i] == low,
{
}

} // verus!
