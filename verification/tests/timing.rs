use emscripten_functions::main_loop::{MainLoopHost, StatefulLoop};
use emscripten_functions::timing::{MainLoopInvalidTiming, MainLoopTiming};

type PlainHost = MainLoopHost<StatefulLoop<fn(u64) -> u64, u64>>;

fn increment(n: u64) -> u64 {
    n + 1
}

#[test]
fn timing_raw_round_trip_covers_every_modeled_mode() {
    let descriptors = vec![
        MainLoopTiming::SetTimeout(33),
        MainLoopTiming::SetTimeout(0),
        MainLoopTiming::RequestAnimationFrame(1),
        MainLoopTiming::RequestAnimationFrame(2),
        MainLoopTiming::SetImmediate,
    ];
    for t in descriptors {
        let (mode, value) = t.to_raw();
        assert_eq!(MainLoopTiming::from_raw(mode, value), Ok(t));
    }
}

#[test]
fn set_then_get_timing_returns_the_descriptor() {
    let mut host: PlainHost = MainLoopHost::new();
    for t in [
        MainLoopTiming::SetTimeout(33),
        MainLoopTiming::RequestAnimationFrame(2),
        MainLoopTiming::SetImmediate,
    ] {
        host.set_main_loop_timing(&t);
        assert_eq!(host.get_main_loop_timing(), Ok(t));
    }
}

#[test]
fn set_timing_reports_whether_a_loop_is_registered() {
    let mut host: PlainHost = MainLoopHost::new();
    assert!(!host.set_main_loop_timing(&MainLoopTiming::SetTimeout(16)));
    host.set_main_loop_with_arg(increment as fn(u64) -> u64, 0u64, 10, false);
    assert!(host.set_main_loop_timing(&MainLoopTiming::SetTimeout(16)));
    assert_eq!(
        host.get_main_loop_timing(),
        Ok(MainLoopTiming::SetTimeout(16))
    );
}

#[test]
fn unmodeled_mode_reads_back_as_the_written_pair() {
    let mut host: PlainHost = MainLoopHost::new();
    host.set_raw_timing(7, 42);
    assert_eq!(
        host.get_main_loop_timing(),
        Err(MainLoopInvalidTiming { mode: 7, value: 42 })
    );
}

#[test]
fn liveness_probe_preserves_raw_words_and_reports_the_slot() {
    let mut host: PlainHost = MainLoopHost::new();
    host.set_raw_timing(7, 42);
    assert!(!host.is_main_loop_set());
    // The read-write-back probe left even the unmodeled words untouched.
    assert_eq!(
        host.get_main_loop_timing(),
        Err(MainLoopInvalidTiming { mode: 7, value: 42 })
    );
    host.set_main_loop_with_arg(increment as fn(u64) -> u64, 0u64, 10, false);
    assert!(host.is_main_loop_set());
    host.cancel_main_loop();
    assert!(!host.is_main_loop_set());
}

#[test]
fn invalid_timing_message_names_the_pair() {
    let err = MainLoopInvalidTiming { mode: 7, value: 42 };
    assert_eq!(
        err.message(),
        "Invalid main loop timing parameters: mode = 7, value = 42"
    );
    let negative = MainLoopInvalidTiming {
        mode: -3,
        value: -2147483648,
    };
    assert_eq!(
        negative.message(),
        "Invalid main loop timing parameters: mode = -3, value = -2147483648"
    );
}
