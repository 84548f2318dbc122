use memwatch::counters::Counters;

#[test]
fn counters_start_at_zero() {
    let c = Counters::new();
    assert_eq!(c.errors_found(), 0);
    assert_eq!(c.iterations_done(), 0);
}

#[test]
fn record_scan_accumulates() {
    let mut c = Counters::new();
    c.record_scan(3);
    assert_eq!(c.errors_found(), 3);
    assert_eq!(c.iterations_done(), 1);
    c.record_scan(0);
    assert_eq!(c.errors_found(), 3);
    assert_eq!(c.iterations_done(), 2);
    c.record_scan(2);
    assert_eq!(c.errors_found(), 5);
    assert_eq!(c.iterations_done(), 3);
}

#[test]
fn counters_never_decrease() {
    let mut c = Counters::new();
    let mut last_errors = c.errors_found();
    let mut last_iterations = c.iterations_done();
    for pass in 0..10 {
        c.record_scan(if pass % 2 == 0 { 4 } else { 0 });
        assert!(c.errors_found() >= last_errors);
        assert!(c.iterations_done() >= last_iterations);
        last_errors = c.errors_found();
        last_iterations = c.iterations_done();
    }
    assert_eq!(c.errors_found(), 20);
    assert_eq!(c.iterations_done(), 10);
}
