use deploykit::error::InstallError;
use deploykit::swap::{
    classify_swap, get_recommand_swap_size, is_enable_hibernation, swap_fits, SwapChoice, GIB,
};

#[test]
fn recommended_swap_sizes() {
    assert_eq!(get_recommand_swap_size(0), GIB);
    assert_eq!(get_recommand_swap_size(4 * GIB), 6 * GIB);
    assert_eq!(get_recommand_swap_size(5 * GIB), 7 * GIB);
    assert_eq!(get_recommand_swap_size(6 * GIB), 8 * GIB);
    assert_eq!(get_recommand_swap_size(8 * GIB), 11 * GIB);
    assert_eq!(get_recommand_swap_size(16 * GIB), 20 * GIB);
    assert_eq!(get_recommand_swap_size(32 * GIB), 38 * GIB);
    assert_eq!(get_recommand_swap_size(33 * GIB), 49 * GIB);
    assert_eq!(get_recommand_swap_size(64 * GIB), 81 * GIB);
}

#[test]
fn memory_counts_in_whole_gib() {
    assert_eq!(get_recommand_swap_size(8 * GIB - 1), get_recommand_swap_size(7 * GIB));
}

#[test]
fn swap_steps_by_rounding_except_at_32() {
    for m in 0..200u64 {
        let a = get_recommand_swap_size(m * GIB) / GIB;
        let b = get_recommand_swap_size((m + 1) * GIB) / GIB;
        if m == 32 {
            assert_eq!(b - a, 11);
        } else {
            assert!((1..=2).contains(&(b - a)), "step at {m}");
        }
    }
}

#[test]
fn hibernation_thresholds() {
    let total = 8 * GIB;
    let rec = get_recommand_swap_size(total);
    let floor = rec - total;
    assert_eq!(is_enable_hibernation(rec, total), Ok(true));
    assert_eq!(is_enable_hibernation(rec + 1, total), Ok(true));
    assert_eq!(is_enable_hibernation(rec - 1, total), Ok(false));
    assert_eq!(is_enable_hibernation(floor, total), Ok(false));
    assert_eq!(
        is_enable_hibernation(floor - 1, total),
        Err(InstallError::TooSmall { recommended_gib: 11 })
    );
    assert_eq!(
        is_enable_hibernation(0, total),
        Err(InstallError::TooSmall { recommended_gib: 11 })
    );
}

#[test]
fn swap_summary_classification() {
    let rec = get_recommand_swap_size(16 * GIB);
    assert_eq!(classify_swap(rec, rec), SwapChoice::Recommended);
    assert_eq!(classify_swap(0, rec), SwapChoice::Disabled);
    assert_eq!(classify_swap(rec + 1, rec), SwapChoice::Custom);
    assert_eq!(classify_swap(0, 0), SwapChoice::Recommended);
}

#[test]
fn swap_space_check() {
    assert!(swap_fits(10, 5, 20, 5));
    assert!(!swap_fits(10, 6, 20, 5));
    assert!(!swap_fits(0, 0, 4, 5));
    assert!(!swap_fits(u64::MAX, u64::MAX, u64::MAX, 0));
    assert!(swap_fits(0, 0, 0, 0));
}
