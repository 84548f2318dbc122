use memwatch::watchdog::Phase;
use memwatch::watchdog::Report;
use memwatch::watchdog::Watchdog;

#[test]
fn lifecycle_runs_through_all_phases() {
    let mut wd = Watchdog::new(4096).expect("allocation should succeed");
    assert_eq!(wd.current_phase(), Phase::Initializing);
    wd.record_pin_outcome(true);
    assert_eq!(wd.current_phase(), Phase::Sleeping);
    wd.wake();
    assert_eq!(wd.current_phase(), Phase::Scanning);
    let found = wd.run_scan();
    assert!(found.is_empty());
    assert_eq!(wd.current_phase(), Phase::Sleeping);
    let report = wd.interrupt();
    assert_eq!(report, Report { errors: 0, iterations: 1 });
    assert_eq!(wd.current_phase(), Phase::Terminated);
}

#[test]
fn report_totals_accumulate_over_passes() {
    let mut wd = Watchdog::new(2048).expect("allocation should succeed");
    wd.record_pin_outcome(true);
    for _ in 0..4 {
        wd.wake();
        let found = wd.run_scan();
        assert!(found.is_empty());
    }
    assert_eq!(wd.errors_found(), 0);
    assert_eq!(wd.iterations_done(), 4);
    let report = wd.interrupt();
    assert_eq!(report, Report { errors: 0, iterations: 4 });
}

#[test]
fn interrupt_can_fire_before_any_scan() {
    let mut wd = Watchdog::new(1024).expect("allocation should succeed");
    let report = wd.interrupt();
    assert_eq!(report, Report { errors: 0, iterations: 0 });
    assert_eq!(wd.current_phase(), Phase::Terminated);
}

#[test]
fn pin_failure_is_tolerated() {
    let mut wd = Watchdog::new(4096).expect("allocation should succeed");
    wd.record_pin_outcome(false);
    assert_eq!(wd.current_phase(), Phase::Sleeping);
    wd.wake();
    let found = wd.run_scan();
    assert!(found.is_empty());
    assert_eq!(wd.iterations_done(), 1);
}

#[test]
fn buffer_words_expose_the_pattern() {
    let wd = Watchdog::new(80).expect("allocation should succeed");
    let words = wd.buffer_words();
    assert_eq!(words.len(), 10);
    for i in 0..words.len() {
        assert_eq!(words[i], i);
    }
}
