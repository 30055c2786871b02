use netscope_scan::batch::infer_batch_size;
use netscope_scan::input::Opts;

#[test]
fn batch_size_lowered() {
    let opts = Opts {
        batch_size: 50_000,
        ..Default::default()
    };
    let batch_size = infer_batch_size(&opts, 120);
    assert!(batch_size < opts.batch_size);
}

#[test]
fn batch_size_lowered_average_size() {
    let opts = Opts {
        batch_size: 50_000,
        ..Default::default()
    };
    let batch_size = infer_batch_size(&opts, 9_000);
    assert!(batch_size == 3_000);
}

#[test]
fn batch_size_equals_ulimit_lowered() {
    let opts = Opts {
        batch_size: 50_000,
        ..Default::default()
    };
    let batch_size = infer_batch_size(&opts, 5_000);
    assert!(batch_size == 4_900);
}

#[test]
fn test_high_ulimit() {
    let opts = Opts {
        batch_size: 10,
        ..Default::default()
    };
    let batch_size = infer_batch_size(&opts, 1_000_000);
    assert!(batch_size == opts.batch_size);
}

#[test]
fn batch_size_at_the_edges_of_each_rule() {
    let opts = Opts { batch_size: 50_000, ..Default::default() };
    assert_eq!(infer_batch_size(&opts, 120), 60);
    assert_eq!(infer_batch_size(&opts, 2_999), 1_499);
    assert_eq!(infer_batch_size(&opts, 3_000), 2_900);
    assert_eq!(infer_batch_size(&opts, 8_000), 7_900);
    assert_eq!(infer_batch_size(&opts, 8_001), 3_000);
    assert_eq!(infer_batch_size(&opts, 50_000), 50_000);
    assert_eq!(infer_batch_size(&opts, 49_999), 3_000);
}

#[test]
fn batch_size_never_exceeds_request_or_limit() {
    for requested in [0usize, 1, 10, 2_999, 3_000, 4_500, 8_000, 50_000] {
        let opts = Opts { batch_size: requested, ..Default::default() };
        for ulimit in [0usize, 1, 120, 2_999, 3_000, 5_000, 8_000, 8_001, 1_000_000] {
            let b = infer_batch_size(&opts, ulimit);
            assert!(b <= requested && b <= ulimit, "{requested} {ulimit} {b}");
        }
    }
}
