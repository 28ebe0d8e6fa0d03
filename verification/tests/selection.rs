use prefetch_hint::{
    is_supported_locality, prefetch_x86, select_backend, Arch, Backend, BuildConfig, Hint,
    MAX_LOCALITY,
};

fn build(compiler_intrinsic: bool, arch: Arch, fallback: bool) -> BuildConfig {
    BuildConfig { compiler_intrinsic, arch, fallback }
}

#[test]
fn levels_zero_to_three_are_supported() {
    assert!(is_supported_locality(0));
    assert!(is_supported_locality(1));
    assert!(is_supported_locality(2));
    assert!(is_supported_locality(3));
}

#[test]
fn levels_above_three_are_not_supported() {
    assert!(!is_supported_locality(4));
    assert!(!is_supported_locality(5));
    assert!(!is_supported_locality(255));
    assert!(!is_supported_locality(u32::MAX));
}

#[test]
fn most_local_level_is_three() {
    assert_eq!(MAX_LOCALITY, 3);
    assert!(is_supported_locality(MAX_LOCALITY));
    assert!(!is_supported_locality(MAX_LOCALITY + 1));
}

#[test]
fn level_zero_is_the_non_temporal_hint() {
    assert_eq!(prefetch_x86::<0>(), Hint::NonTemporal);
}

#[test]
fn level_one_targets_the_outermost_cache() {
    assert_eq!(prefetch_x86::<1>(), Hint::Outermost);
}

#[test]
fn level_two_targets_the_second_level_cache() {
    assert_eq!(prefetch_x86::<2>(), Hint::SecondLevel);
}

#[test]
fn level_three_targets_all_cache_levels() {
    assert_eq!(prefetch_x86::<3>(), Hint::AllLevels);
}

#[test]
fn distinct_levels_give_distinct_hints() {
    let hints = [
        prefetch_x86::<0>(),
        prefetch_x86::<1>(),
        prefetch_x86::<2>(),
        prefetch_x86::<3>(),
    ];
    for i in 0..hints.len() {
        for j in 0..hints.len() {
            assert_eq!(hints[i] == hints[j], i == j);
        }
    }
}

#[test]
fn only_the_x86_family_has_a_hint_instruction() {
    assert!(Arch::X86.supports_hint_instruction());
    assert!(Arch::X86_64.supports_hint_instruction());
    assert!(!Arch::Other.supports_hint_instruction());
}

#[test]
fn compiler_intrinsic_wins_over_everything() {
    for arch in [Arch::X86, Arch::X86_64, Arch::Other] {
        for fallback in [false, true] {
            assert_eq!(
                select_backend(build(true, arch, fallback)),
                Backend::CompilerIntrinsic
            );
        }
    }
}

#[test]
fn x86_family_uses_the_architecture_backend() {
    for arch in [Arch::X86, Arch::X86_64] {
        for fallback in [false, true] {
            assert_eq!(
                select_backend(build(false, arch, fallback)),
                Backend::Architecture
            );
        }
    }
}

#[test]
fn fallback_needs_to_be_enabled_and_no_native_hint() {
    assert_eq!(
        select_backend(build(false, Arch::Other, true)),
        Backend::Fallback
    );
}

#[test]
fn nothing_enabled_selects_the_inert_backend() {
    assert_eq!(
        select_backend(build(false, Arch::Other, false)),
        Backend::Inert
    );
}

#[test]
fn selection_depends_on_the_build_alone() {
    let b = build(false, Arch::X86_64, true);
    assert_eq!(select_backend(b), select_backend(b));
    assert_eq!(b, build(false, Arch::X86_64, true));
}
