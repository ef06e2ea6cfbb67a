use bb_runner::resource::{
    checked_wait4, timeval_to_duration, wait4, Duration, ExitResources, ExitStatus, PosixResourceUsage,
    ProtoDuration, RawUsage, ResourceUsage, TimeVal, WaitFailure, RSS_MULTIPLIER,
};

fn raw(maxrss: i64) -> RawUsage {
    RawUsage {
        ru_utime: TimeVal { tv_sec: 2, tv_usec: 500_000 },
        ru_stime: TimeVal { tv_sec: 0, tv_usec: 7 },
        ru_maxrss: maxrss,
    }
}

#[test]
fn timeval_becomes_microseconds() {
    let d = timeval_to_duration(TimeVal { tv_sec: 3, tv_usec: 141_592 });
    assert_eq!(d, Duration { micros: 3_141_592 });
    assert_eq!(d.as_secs(), 3);
    assert_eq!(d.subsec_nanos(), 141_592_000);
    assert_eq!(timeval_to_duration(TimeVal { tv_sec: 0, tv_usec: 0 }).micros, 0);
}

#[test]
fn negative_timeval_is_read_as_unsigned() {
    let d = timeval_to_duration(TimeVal { tv_sec: 0, tv_usec: -1 });
    assert_eq!(d.micros, u64::MAX);
}

#[test]
fn wait4_reports_failure_running_and_exit() {
    assert_eq!(wait4(-1, ExitStatus::Other, raw(0)), Err(WaitFailure));
    assert_eq!(wait4(0, ExitStatus::Other, raw(0)), Ok(None));
    assert_eq!(
        wait4(4242, ExitStatus::Exited(7), raw(100)),
        Ok(Some(ExitResources {
            status: ExitStatus::Exited(7),
            rusage: ResourceUsage {
                utime: Duration { micros: 2_500_000 },
                stime: Duration { micros: 7 },
                maxrss: 102_400,
            },
        }))
    );
}

#[test]
fn max_rss_is_reported_in_bytes() {
    assert_eq!(RSS_MULTIPLIER, 1024);
    let reaped = wait4(1, ExitStatus::Signaled(9), raw(3)).unwrap().unwrap();
    assert_eq!(reaped.rusage.maxrss, 3072);
    assert_eq!(reaped.status.signal(), Some(9));
    assert_eq!(reaped.status.code(), None);
}

#[test]
fn exit_status_tells_code_from_signal() {
    assert_eq!(ExitStatus::Exited(0).code(), Some(0));
    assert_eq!(ExitStatus::Exited(0).signal(), None);
    assert_eq!(ExitStatus::Signaled(11).code(), None);
    assert_eq!(ExitStatus::Signaled(11).signal(), Some(11));
    assert_eq!(ExitStatus::Other.code(), None);
    assert_eq!(ExitStatus::Other.signal(), None);
}

#[test]
fn usage_record_takes_seconds_and_nanoseconds() {
    let usage = ResourceUsage {
        utime: Duration::from_micros(61_000_001),
        stime: Duration::from_micros(999_999),
        maxrss: 1 << 20,
    };
    assert_eq!(
        PosixResourceUsage::from(usage),
        PosixResourceUsage {
            user_time: Some(ProtoDuration { seconds: 61, nanos: 1_000 }),
            system_time: Some(ProtoDuration { seconds: 0, nanos: 999_999_000 }),
            maximum_resident_set_size: 1 << 20,
        }
    );
}

#[test]
fn usage_record_of_the_longest_span() {
    let usage = ResourceUsage {
        utime: Duration::from_micros(u64::MAX),
        stime: Duration::from_micros(0),
        maxrss: 0,
    };
    let record = PosixResourceUsage::from(usage);
    assert_eq!(
        record.user_time,
        Some(ProtoDuration { seconds: 18_446_744_073_709, nanos: 551_615_000 })
    );
    assert_eq!(record.system_time, Some(ProtoDuration { seconds: 0, nanos: 0 }));
}

#[test]
fn usage_record_drops_a_size_beyond_the_signed_range() {
    let fits = ResourceUsage {
        utime: Duration::from_micros(0),
        stime: Duration::from_micros(0),
        maxrss: i64::MAX as u64,
    };
    assert_eq!(PosixResourceUsage::from(fits).maximum_resident_set_size, i64::MAX);
    let too_large = ResourceUsage { maxrss: (i64::MAX as u64) + 1, ..fits };
    assert_eq!(PosixResourceUsage::from(too_large).maximum_resident_set_size, 0);
}

#[test]
fn usage_record_agrees_with_the_protocol_library() {
    for micros in [0u64, 1, 999_999, 1_000_000, 86_400_000_000, u64::MAX] {
        let record = PosixResourceUsage::from(ResourceUsage {
            utime: Duration::from_micros(micros),
            stime: Duration::from_micros(0),
            maxrss: 0,
        });
        let expected =
            prost_types::Duration::try_from(std::time::Duration::from_micros(micros)).unwrap();
        let got = record.user_time.unwrap();
        assert_eq!((got.seconds, got.nanos), (expected.seconds, expected.nanos));
    }
}

#[test]
fn type_url_names_the_usage_message() {
    assert_eq!(
        PosixResourceUsage::type_url(),
        "type.googleapis.com/buildbarn.resourceusage.POSIXResourceUsage"
    );
}

#[test]
fn usage_that_does_not_fit_is_a_failed_wait() {
    assert!(raw(100).is_representable());
    assert_eq!(
        checked_wait4(4242, ExitStatus::Exited(7), raw(100)),
        wait4(4242, ExitStatus::Exited(7), raw(100))
    );
    assert_eq!(checked_wait4(0, ExitStatus::Other, raw(-1)), Ok(None));
    assert_eq!(checked_wait4(-1, ExitStatus::Other, raw(-1)), Err(WaitFailure));

    let negative = raw(-1);
    assert!(!negative.is_representable());
    assert_eq!(checked_wait4(1, ExitStatus::Exited(0), negative), Err(WaitFailure));

    let late = RawUsage { ru_utime: TimeVal { tv_sec: i64::MAX, tv_usec: 0 }, ..raw(1) };
    assert!(!late.ru_utime.is_representable());
    assert_eq!(checked_wait4(1, ExitStatus::Exited(0), late), Err(WaitFailure));
    let edge = RawUsage { ru_maxrss: (u64::MAX / 1024) as i64, ..raw(1) };
    assert!(edge.is_representable());
    assert!(checked_wait4(1, ExitStatus::Exited(0), edge).is_ok());
}
