use vstd::prelude::*;

use crate::error::InstallError;
use vstd::arithmetic::div_mod::{lemma_fundamental_div_mod, lemma_mod_bound};

verus! {

/// Bytes in a GiB.
pub const GIB: u64 = 1073741824;

/// The largest memory size, in bytes, that swap sizing accepts (4 EiB): the
/// recommended size must still fit a 64-bit byte count.
pub const MAX_MEMORY_BYTES: u64 = 4611686018427387904;

/// `n / d` rounded to the nearest integer, halves upwards (`n`, `d` >= 0).
pub open spec fn round_div(n: int, d: int) -> int {
    (2 * n + d) / (2 * d)
}

/// `1.3 * m + 0.7`, rounded: the rule for up to 5 GiB of memory.
pub open spec fn swap_low(m: int) -> int {
    round_div(13 * m + 7, 10)
}

/// `1.1543 * m + 1.36328`, rounded: the rule from 5 to 32 GiB.
pub open spec fn swap_mid(m: int) -> int {
    round_div(115430 * m + 136328, 100000)
}

/// `1.009945 * m + 16.087529`, rounded: the rule above 32 GiB.
pub open spec fn swap_high(m: int) -> int {
    round_div(1009945 * m + 16087529, 1000000)
}

/// The recommended swap size in GiB for `m` GiB of memory.
pub open spec fn swap_gib(m: int) -> int {
    if m <= 5 {
        swap_low(m)
    } else if m <= 32 {
        swap_mid(m)
    } else {
        swap_high(m)
    }
}

/// The recommended swap size in bytes for `total` bytes of memory, counted
/// in whole GiB.
pub open spec fn recommended_swap_bytes(total: int) -> int {
    swap_gib(total / GIB as int) * GIB
}

/// Whether a swapfile of `candidate` bytes allows hibernation on a machine
/// with `total` bytes of memory: `Some(true)` from the recommended size up,
/// `Some(false)` from the recommended size less the memory size up, and
/// `None` (too small) below that.
pub open spec fn hibernation_verdict(candidate: int, total: int) -> Option<bool> {
    let rec = recommended_swap_bytes(total);
    if candidate >= rec {
        Some(true)
    } else if candidate >= rec - total {
        Some(false)
    } else {
        None
    }
}

/// The rounded quotient `q` of `n / d` satisfies `2d*q <= 2n + d < 2d*q + 2d`.
pub proof fn lemma_round_div(n: int, d: int)
    requires
        0 < d,
    ensures
        2 * d * round_div(n, d) <= 2 * n + d < 2 * d * round_div(n, d) + 2 * d,
{
    lemma_fundamental_div_mod(2 * n + d, 2 * d);
    lemma_mod_bound(2 * n + d, 2 * d);
}

/// The bounds of the rounded quotient for each rule at `m`.
proof fn lemma_swap_pieces(m: int)
    ensures
        20 * swap_low(m) <= 26 * m + 24 < 20 * swap_low(m) + 20,
        200000 * swap_mid(m) <= 230860 * m + 372656 < 200000 * swap_mid(m) + 200000,
        2000000 * swap_high(m) <= 2019890 * m + 33175058 < 2000000 * swap_high(m) + 2000000,
{
    lemma_round_div(13 * m + 7, 10);
    lemma_round_div(115430 * m + 136328, 100000);
    lemma_round_div(1009945 * m + 16087529, 1000000);
}

/// The recommended size is always above the memory size.
pub proof fn lemma_recommended_above_memory(total: int)
    requires
        0 <= total,
    ensures
        swap_gib(total / GIB as int) >= total / GIB as int + 1,
        recommended_swap_bytes(total) > total,
{
    let m = total / GIB as int;
    assert(0 <= m) by (nonlinear_arith)
        requires
            m == total / GIB as int,
            0 <= total,
    ;
    lemma_swap_pieces(m);
    assert(swap_gib(m) >= m + 1);
    assert(total < (m + 1) * GIB) by (nonlinear_arith)
        requires
            m == total / GIB as int,
            0 <= total,
    ;
    assert(swap_gib(m) * GIB >= (m + 1) * GIB) by (nonlinear_arith)
        requires
            swap_gib(m) >= m + 1,
    ;
}

proof fn lemma_swap_gib_bound(m: int)
    requires
        0 <= m <= MAX_MEMORY_BYTES / GIB,
    ensures
        1 <= swap_gib(m) <= 2 * m + 17,
{
    lemma_swap_pieces(m);
}

/// The recommended swapfile size, in bytes, for a machine with
/// `total_memory` bytes of memory.
pub fn get_recommand_swap_size(total_memory: u64) -> (r: u64)
    requires
        total_memory <= MAX_MEMORY_BYTES,
    ensures
        r == recommended_swap_bytes(total_memory as int),
{
    let m: u64 = total_memory / GIB;
    proof {
        lemma_swap_gib_bound(m as int);
    }
    let gib: u64 = if m <= 5 {
        (2 * (13 * m + 7) + 10) / 20
    } else if m <= 32 {
        (2 * (115430 * m + 136328) + 100000) / 200000
    } else {
        (2 * (1009945 * m + 16087529) + 1000000) / 2000000
    };
    assert(gib == swap_gib(m as int));
    assert(gib * GIB <= u64::MAX) by (nonlinear_arith)
        requires
            gib <= 2 * m + 17,
            m <= MAX_MEMORY_BYTES / GIB,
    ;
    gib * GIB
}

/// Whether a custom swapfile of `custom_size` bytes allows hibernation on a
/// machine with `total_memory` bytes of memory; fails with `TooSmall`,
/// carrying the recommended size in GiB, when it is below the recommended
/// size less the memory size.
pub fn is_enable_hibernation(custom_size: u64, total_memory: u64) -> (r: Result<bool, InstallError>)
    requires
        total_memory <= MAX_MEMORY_BYTES,
    ensures
        match hibernation_verdict(custom_size as int, total_memory as int) {
            Some(b) => r == Ok::<bool, InstallError>(b),
            None => r == Err::<bool, InstallError>(
                InstallError::TooSmall {
                    recommended_gib: swap_gib(total_memory as int / GIB as int) as u64,
                },
            ),
        },
{
    let recommended = get_recommand_swap_size(total_memory);
    proof {
        lemma_recommended_above_memory(total_memory as int);
    }
    let floor = recommended - total_memory;
    if custom_size >= floor && custom_size < recommended {
        Ok(false)
    } else if custom_size >= recommended {
        Ok(true)
    } else {
        Err(InstallError::TooSmall { recommended_gib: recommended / GIB })
    }
}

/// At the 5 GiB boundary the low and middle rules give the same size, so
/// the recommendation has no step there beyond rounding.
pub proof fn lemma_swap_continuous_at_five()
    ensures
        swap_low(5) == swap_mid(5),
        swap_gib(5) == 7,
        swap_gib(6) == 8,
{
    lemma_swap_pieces(5);
    lemma_swap_pieces(6);
}

/// Away from the 32 GiB boundary, one more GiB of memory raises the
/// recommendation by one or two GiB: rounding is the only step.
pub proof fn lemma_swap_steps_by_rounding(m: int)
    requires
        0 <= m,
        m != 32,
    ensures
        1 <= swap_gib(m + 1) - swap_gib(m) <= 2,
{
    lemma_swap_pieces(m);
    lemma_swap_pieces(m + 1);
}

/// The swapfile of the recommended size allows hibernation, and one byte
/// below the recommended size less the memory size is too small.
pub proof fn lemma_hibernation_thresholds(total: int)
    requires
        0 <= total,
    ensures
        hibernation_verdict(recommended_swap_bytes(total), total) == Some(true),
        hibernation_verdict(recommended_swap_bytes(total) - total - 1, total) is None,
        recommended_swap_bytes(total) - total - 1 >= 0,
{
    lemma_recommended_above_memory(total);
}

/// How the swapfile size of an installation was chosen, as the summary
/// reports it.
#[derive(Debug, Clone, Copy, PartialEq, Eq, Structural)]
pub enum SwapChoice {
    /// The recommended size.
    Recommended,
    /// No swapfile.
    Disabled,
    /// A size the operator typed.
    Custom,
}

/// Classifies the swapfile size `size` against the recommended size
/// `recommended`; sizes are whole bytes and compared exactly.
pub fn classify_swap(size: u64, recommended: u64) -> (r: SwapChoice)
    ensures
        size == recommended ==> r == SwapChoice::Recommended,
        size != recommended && size == 0 ==> r == SwapChoice::Disabled,
        size != recommended && size != 0 ==> r == SwapChoice::Custom,
{
    if size == recommended {
        SwapChoice::Recommended
    } else if size == 0 {
        SwapChoice::Disabled
    } else {
        SwapChoice::Custom
    }
}

/// Whether a swapfile of `swap_size` bytes fits on a partition of
/// `partition_size` bytes beside a system of `install_size` bytes, keeping
/// `reserve` bytes free.
pub fn swap_fits(install_size: u64, swap_size: u64, partition_size: u64, reserve: u64) -> (r: bool)
    ensures
        r == (install_size + swap_size + reserve <= partition_size),
{
    if reserve > partition_size {
        return false;
    }
    let room = partition_size - reserve;
    if install_size > room {
        return false;
    }
    swap_size <= room - install_size
}

} // verus!
