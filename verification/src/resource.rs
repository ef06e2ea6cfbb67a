//! What a finished process used, and how it ended.
use vstd::prelude::*;
use vstd::std_specs::convert::FromSpecImpl;

verus! {

/// Factor between the kernel's unit for the peak resident set size
/// (kibibytes) and bytes.
pub const RSS_MULTIPLIER: u64 = 1024;

pub const MICROS_PER_SECOND: u64 = 1_000_000;

pub const NANOS_PER_MICRO: u64 = 1_000;

/// A span of processor time, kept at microsecond precision.
#[derive(Clone, Copy, Debug, PartialEq, Eq, Structural)]
pub struct Duration {
    pub micros: u64,
}

impl Duration {
    pub open spec fn spec_as_secs(&self) -> u64 {
        self.micros / MICROS_PER_SECOND
    }

    pub open spec fn spec_subsec_nanos(&self) -> u32 {
        ((self.micros % MICROS_PER_SECOND) * NANOS_PER_MICRO) as u32
    }

    /// The span of `micros` microseconds.
    pub fn from_micros(micros: u64) -> (d: Duration)
        ensures
            d.micros == micros,
    {
        Duration { micros }
    }

    /// The whole seconds of the span.
    pub fn as_secs(&self) -> (secs: u64)
        ensures
            secs == self.spec_as_secs(),
    {
        self.micros / MICROS_PER_SECOND
    }

    /// The part of the span beyond its whole seconds, in nanoseconds.
    pub fn subsec_nanos(&self) -> (nanos: u32)
        ensures
            nanos == self.spec_subsec_nanos(),
            nanos < 1_000_000_000,
    {
        ((self.micros % MICROS_PER_SECOND) * NANOS_PER_MICRO) as u32
    }
}

/// Resources used by a process.
#[derive(Clone, Copy, Debug, PartialEq, Eq, Structural)]
pub struct ResourceUsage {
    /// Time spent in user mode.
    pub utime: Duration,
    /// Time spent in kernel mode.
    pub stime: Duration,
    /// Peak resident set size, in bytes.
    pub maxrss: u64,
}

/// How a process ended.
#[derive(Clone, Copy, Debug, PartialEq, Eq, Structural)]
pub enum ExitStatus {
    /// It returned this exit code.
    Exited(i32),
    /// This signal terminated it.
    Signaled(i32),
    /// The wait status reports neither an exit nor a terminating signal.
    Other,
}

impl ExitStatus {
    pub open spec fn spec_code(&self) -> Option<i32> {
        match *self {
            ExitStatus::Exited(code) => Some(code),
            _ => None,
        }
    }

    pub open spec fn spec_signal(&self) -> Option<i32> {
        match *self {
            ExitStatus::Signaled(signal) => Some(signal),
            _ => None,
        }
    }

    /// The exit code, if the process exited by itself.
    pub fn code(&self) -> (code: Option<i32>)
        ensures
            code == self.spec_code(),
    {
        match *self {
            ExitStatus::Exited(code) => Some(code),
            _ => None,
        }
    }

    /// The terminating signal, if a signal ended the process.
    pub fn signal(&self) -> (signal: Option<i32>)
        ensures
            signal == self.spec_signal(),
    {
        match *self {
            ExitStatus::Signaled(signal) => Some(signal),
            _ => None,
        }
    }
}

/// Exit status of a process together with the resources it used.
#[derive(Clone, Copy, Debug, PartialEq, Eq, Structural)]
pub struct ExitResources {
    pub status: ExitStatus,
    /// Resources used by the process and all its children.
    pub rusage: ResourceUsage,
}

/// A kernel time value: seconds and microseconds.
#[derive(Clone, Copy, Debug, PartialEq, Eq, Structural)]
pub struct TimeVal {
    pub tv_sec: i64,
    pub tv_usec: i64,
}

impl TimeVal {
    /// The value in microseconds.
    pub open spec fn micros(&self) -> int {
        self.tv_sec * 1_000_000 + self.tv_usec
    }

    /// The microsecond count fits the machine's signed 64-bit arithmetic.
    pub open spec fn representable(&self) -> bool {
        &&& i64::MIN <= self.tv_sec * 1_000_000 <= i64::MAX
        &&& i64::MIN <= self.micros() <= i64::MAX
    }
}

impl TimeVal {
    /// Whether the microsecond count fits the machine's signed 64-bit
    /// arithmetic.
    pub fn is_representable(&self) -> (fits: bool)
        ensures
            fits == self.representable(),
    {
        match self.tv_sec.checked_mul(1_000_000) {
            Some(micros) => micros.checked_add(self.tv_usec).is_some(),
            None => false,
        }
    }
}

/// The duration that a kernel time value stands for, at microsecond
/// precision. A negative count is read as the unsigned number with the same
/// 64 bits.
pub fn timeval_to_duration(val: TimeVal) -> (d: Duration)
    requires
        val.representable(),
    ensures
        d.micros == val.micros() as i64 as u64,
{
    let v: i64 = val.tv_sec * 1_000_000 + val.tv_usec;
    Duration::from_micros(v as u64)
}

/// What the kernel's accounting record holds of a reaped process.
#[derive(Clone, Copy, Debug, PartialEq, Eq, Structural)]
pub struct RawUsage {
    pub ru_utime: TimeVal,
    pub ru_stime: TimeVal,
    /// Peak resident set size in the kernel's unit.
    pub ru_maxrss: i64,
}

impl RawUsage {
    /// Both times are representable and the peak size in bytes fits 64 bits.
    pub open spec fn representable(&self) -> bool {
        &&& self.ru_utime.representable()
        &&& self.ru_stime.representable()
        &&& (self.ru_maxrss as u64) * RSS_MULTIPLIER <= u64::MAX
    }

    /// The record in the library's units.
    pub open spec fn usage(&self) -> ResourceUsage {
        ResourceUsage {
            utime: Duration { micros: self.ru_utime.micros() as i64 as u64 },
            stime: Duration { micros: self.ru_stime.micros() as i64 as u64 },
            maxrss: ((self.ru_maxrss as u64) * RSS_MULTIPLIER) as u64,
        }
    }
}

impl RawUsage {
    /// Whether both times are representable and the peak size in bytes fits
    /// 64 bits.
    pub fn is_representable(&self) -> (fits: bool)
        ensures
            fits == self.representable(),
    {
        self.ru_utime.is_representable() && self.ru_stime.is_representable() && (
        self.ru_maxrss as u64) <= u64::MAX / RSS_MULTIPLIER
    }
}

/// The wait call itself failed.
#[derive(Clone, Copy, Debug, PartialEq, Eq, Structural)]
pub struct WaitFailure;

/// What one non-blocking wait says of the child: `returned` is the call's
/// return value, `status` and `raw` are what it filled in.
pub open spec fn spec_wait4(returned: i32, status: ExitStatus, raw: RawUsage) -> Result<
    Option<ExitResources>,
    WaitFailure,
> {
    if returned < 0 {
        Err(WaitFailure)
    } else if returned == 0 {
        Ok(None)
    } else {
        Ok(Some(ExitResources { status, rusage: raw.usage() }))
    }
}

/// Reads the result of one non-blocking wait: a negative return value is a
/// failure, zero means that the child still runs, and a process id comes with
/// the child's status and its resource usage, the peak resident set size
/// converted to bytes.
pub fn wait4(returned: i32, status: ExitStatus, raw: RawUsage) -> (r: Result<
    Option<ExitResources>,
    WaitFailure,
>)
    requires
        returned > 0 ==> raw.representable(),
    ensures
        r == spec_wait4(returned, status, raw),
{
    if returned < 0 {
        Err(WaitFailure)
    } else if returned == 0 {
        Ok(None)
    } else {
        Ok(
            Some(
                ExitResources {
                    status,
                    rusage: ResourceUsage {
                        utime: timeval_to_duration(raw.ru_utime),
                        stime: timeval_to_duration(raw.ru_stime),
                        maxrss: (raw.ru_maxrss as u64) * RSS_MULTIPLIER,
                    },
                },
            ),
        )
    }
}

/// What one non-blocking wait says of the child where nothing is known of
/// the accounting record: as `spec_wait4`, but a record whose numbers do not
/// fit is a failure of the wait.
pub open spec fn spec_checked_wait4(returned: i32, status: ExitStatus, raw: RawUsage) -> Result<
    Option<ExitResources>,
    WaitFailure,
> {
    if returned > 0 && !raw.representable() {
        Err(WaitFailure)
    } else {
        spec_wait4(returned, status, raw)
    }
}

/// Reads the result of one non-blocking wait, whatever the accounting
/// record holds: a record whose numbers do not fit counts as a failed wait.
pub fn checked_wait4(returned: i32, status: ExitStatus, raw: RawUsage) -> (r: Result<
    Option<ExitResources>,
    WaitFailure,
>)
    ensures
        r == spec_checked_wait4(returned, status, raw),
{
    if returned > 0 && !raw.is_representable() {
        Err(WaitFailure)
    } else {
        wait4(returned, status, raw)
    }
}

/// A protocol-buffer duration: signed seconds and nanoseconds.
#[derive(Clone, Copy, Debug, PartialEq, Eq, Structural)]
pub struct ProtoDuration {
    pub seconds: i64,
    pub nanos: i32,
}

/// The protocol-buffer form of a span: its whole seconds and the rest in
/// nanoseconds.
pub open spec fn spec_proto_duration(d: Duration) -> ProtoDuration {
    ProtoDuration { seconds: d.spec_as_secs() as i64, nanos: d.spec_subsec_nanos() as i32 }
}

/// Calls `prost_types::Duration::try_from` on the standard duration of
/// `d.micros` microseconds. That conversion takes the whole seconds and the
/// nanoseconds of the started second, fails only when the seconds exceed the
/// signed 64-bit range, and normalizes the pair, which changes nothing where
/// both parts are non-negative and the nanoseconds are below one second. A
/// span counted in 64-bit microseconds always meets these conditions, so the
/// result is always present.
#[verifier::external_body]
fn proto_duration(d: Duration) -> (r: Option<ProtoDuration>)
    ensures
        r == Some(spec_proto_duration(d)),
{
    match prost_types::Duration::try_from(std::time::Duration::from_micros(d.micros)) {
        Ok(p) => Some(ProtoDuration { seconds: p.seconds, nanos: p.nanos }),
        Err(_) => None,
    }
}

/// The resource-usage record as the reply carries it.
#[derive(Clone, Copy, Debug, PartialEq, Eq, Structural)]
pub struct PosixResourceUsage {
    pub user_time: Option<ProtoDuration>,
    pub system_time: Option<ProtoDuration>,
    /// Peak resident set size in bytes; zero where the size does not fit the
    /// signed field.
    pub maximum_resident_set_size: i64,
}

impl PosixResourceUsage {
    /// The type under which the record travels inside a reply.
    pub fn type_url() -> (url: &'static str)
        ensures
            url@ == "type.googleapis.com/buildbarn.resourceusage.POSIXResourceUsage"@,
    {
        "type.googleapis.com/buildbarn.resourceusage.POSIXResourceUsage"
    }
}

impl From<ResourceUsage> for PosixResourceUsage {
    fn from(val: ResourceUsage) -> (pbres: PosixResourceUsage) {
        let mut pbres = PosixResourceUsage {
            user_time: None,
            system_time: None,
            maximum_resident_set_size: 0,
        };
        if let Some(n) = proto_duration(val.utime) {
            pbres.user_time = Some(n);
        }
        if let Some(n) = proto_duration(val.stime) {
            pbres.system_time = Some(n);
        }
        if val.maxrss <= i64::MAX as u64 {
            pbres.maximum_resident_set_size = val.maxrss as i64;
        }
        pbres
    }
}

impl FromSpecImpl<ResourceUsage> for PosixResourceUsage {
    open spec fn obeys_from_spec() -> bool {
        true
    }

    open spec fn from_spec(val: ResourceUsage) -> PosixResourceUsage {
        PosixResourceUsage {
            user_time: Some(spec_proto_duration(val.utime)),
            system_time: Some(spec_proto_duration(val.stime)),
            maximum_resident_set_size: if val.maxrss <= i64::MAX {
                val.maxrss as i64
            } else {
                0
            },
        }
    }
}

} // verus!
