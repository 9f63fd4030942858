use leucite::{into_rlimit, Error, Limit, MemorySize, ResourceLimit};

#[test]
fn both_bounds_are_the_ceiling() {
    assert_eq!(
        into_rlimit(5_000_000),
        ResourceLimit {
            soft: 5_000_000,
            hard: 5_000_000
        }
    );
    assert_eq!(into_rlimit(0), ResourceLimit { soft: 0, hard: 0 });
    assert_eq!(
        into_rlimit(u64::MAX),
        ResourceLimit {
            soft: u64::MAX,
            hard: u64::MAX
        }
    );
}

#[test]
fn the_bounds_of_a_limit_are_the_size_in_bytes() {
    let bounds = Limit::Data.bounds(MemorySize::from_mb(5));
    assert_eq!(bounds.soft, 5_000_000);
    assert_eq!(bounds.hard, 5_000_000);
    let bounds = Limit::FileSize.bounds(MemorySize::from_kib(4));
    assert_eq!(bounds.soft, 4_096);
    assert_eq!(bounds.hard, 4_096);
}

#[test]
fn a_return_of_zero_is_success() {
    assert!(Limit::Data.outcome(0, 0).is_ok());
    assert!(Limit::FileSize.outcome(0, 22).is_ok());
}

#[test]
fn any_other_return_is_the_failure_of_that_limit_with_the_error_number() {
    assert!(matches!(
        Limit::Data.outcome(-1, 22),
        Err(Error::ResourceLimitFailed {
            kind: Limit::Data,
            errno: 22
        })
    ));
    assert!(matches!(
        Limit::FileSize.outcome(-1, 1),
        Err(Error::ResourceLimitFailed {
            kind: Limit::FileSize,
            errno: 1
        })
    ));
    assert!(matches!(
        Limit::NumberFiles.outcome(1, 0),
        Err(Error::ResourceLimitFailed {
            kind: Limit::NumberFiles,
            errno: 0
        })
    ));
}

#[test]
fn a_failed_limit_names_no_kernel_stage() {
    let error = Limit::Stack.outcome(-1, 1).unwrap_err();
    assert_eq!(error.stage(), None);
}
