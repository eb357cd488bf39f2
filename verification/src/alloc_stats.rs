//! Allocator statistics as the JVM sees them: jemalloc's counters read
//! through `jemalloc_ctl`, reported as Java `long` values.
use vstd::prelude::*;

verus! {

#[verifier::external_type_specification]
#[verifier::external_body]
pub struct ExIoError(std::io::Error);

/// A statistic could not be read: jemalloc's `mallctl` refused the request.
/// `code` is the operating-system error code it reported, where there is one.
#[derive(Clone, Copy, PartialEq, Eq, Debug)]
pub struct StatError {
    pub code: Option<i32>,
}

/// The Java `long` that a counter of `value` bytes becomes: the value itself
/// where it fits, else the value wrapped into the signed 64-bit range.
pub open spec fn jlong_of(value: usize) -> int {
    if value <= i64::MAX {
        value as int
    } else {
        value - 0x1_0000_0000_0000_0000int
    }
}

/// Converts a byte counter to a Java `long`, wrapping as a cast to `i64`
/// does.
pub fn stat_to_jlong(value: usize) -> (r: i64)
    ensures
        r as int == jlong_of(value),
{
    let v: u64 = value as u64;
    if v <= 0x7fff_ffff_ffff_ffff {
        v as i64
    } else {
        let low: u64 = v - 0x8000_0000_0000_0000;
        (low as i64) + i64::MIN
    }
}

/// What a counter read becomes for the JVM: a value is converted by
/// [`stat_to_jlong`], an error is passed on unchanged.
pub open spec fn stat_result_to_jlong_spec(r: Result<usize, StatError>) -> Result<i64, StatError> {
    match r {
        Ok(v) => Ok(jlong_of(v) as i64),
        Err(e) => Err(e),
    }
}

/// Converts the outcome of a counter read to what the JVM is handed.
pub fn stat_result_to_jlong(r: Result<usize, StatError>) -> (out: Result<i64, StatError>)
    ensures
        out == stat_result_to_jlong_spec(r),
        out matches Ok(v) ==> r matches Ok(s) && v as int == jlong_of(s),
{
    match r {
        Ok(v) => Ok(stat_to_jlong(v)),
        Err(e) => Err(e),
    }
}

/// `std::io::Error::raw_os_error`: the operating-system error code that the
/// error was made from, if it was made from one. Nothing is claimed of the
/// value.
#[verifier::external_body]
fn os_error_code(e: &std::io::Error) -> Option<i32> {
    e.raw_os_error()
}

/// Maps an outcome of a `jemalloc_ctl` read to this library's error type,
/// keeping the value.
fn from_io<T>(r: Result<T, std::io::Error>) -> (out: Result<T, StatError>)
    ensures
        r is Ok <==> out is Ok,
        r matches Ok(v) ==> out == Ok::<T, StatError>(v),
{
    match r {
        Ok(v) => Ok(v),
        Err(e) => Err(StatError { code: os_error_code(&e) }),
    }
}

/// `jemalloc_ctl::epoch`: advances jemalloc's statistics epoch, which
/// refreshes the cached counters, and returns the new epoch. The value
/// depends on the allocator's state, so nothing is claimed of it.
#[verifier::external_body]
fn ctl_epoch() -> std::result::Result<u64, std::io::Error> {
    jemalloc_ctl::epoch()
}

/// `jemalloc_ctl::stats::allocated`: bytes allocated by the application, as
/// of the last epoch. Depends on the allocator's state; nothing is claimed.
#[verifier::external_body]
fn ctl_allocated() -> std::result::Result<usize, std::io::Error> {
    jemalloc_ctl::stats::allocated()
}

/// `jemalloc_ctl::stats::active`: bytes in active pages, as of the last
/// epoch. Depends on the allocator's state; nothing is claimed.
#[verifier::external_body]
fn ctl_active() -> std::result::Result<usize, std::io::Error> {
    jemalloc_ctl::stats::active()
}

/// `jemalloc_ctl::stats::metadata`: bytes of allocator metadata, as of the
/// last epoch. Depends on the allocator's state; nothing is claimed.
#[verifier::external_body]
fn ctl_metadata() -> std::result::Result<usize, std::io::Error> {
    jemalloc_ctl::stats::metadata()
}

/// `jemalloc_ctl::stats::resident`: bytes in physically resident pages, as
/// of the last epoch. Depends on the allocator's state; nothing is claimed.
#[verifier::external_body]
fn ctl_resident() -> std::result::Result<usize, std::io::Error> {
    jemalloc_ctl::stats::resident()
}

/// `jemalloc_ctl::stats::mapped`: bytes in active extents mapped by the
/// allocator, as of the last epoch. Depends on the allocator's state;
/// nothing is claimed.
#[verifier::external_body]
fn ctl_mapped() -> std::result::Result<usize, std::io::Error> {
    jemalloc_ctl::stats::mapped()
}

/// `jemalloc_ctl::stats::retained`: bytes in virtual memory mappings that
/// were retained rather than returned to the system, as of the last epoch.
/// Depends on the allocator's state; nothing is claimed.
#[verifier::external_body]
fn ctl_retained() -> std::result::Result<usize, std::io::Error> {
    jemalloc_ctl::stats::retained()
}

/// Advances the statistics epoch so that the counters below are refreshed,
/// and returns the new epoch.
///
/// Each reader below reports one of jemalloc's counters converted by
/// [`stat_result_to_jlong`]. The counter's value, and whether jemalloc hands
/// it out, depend on the allocator's state, so their contracts claim nothing
/// of them.
pub fn advance_epoch() -> Result<u64, StatError> {
    from_io(ctl_epoch())
}

/// Bytes allocated by the application, as a Java `long`.
pub fn allocated() -> Result<i64, StatError> {
    stat_result_to_jlong(from_io(ctl_allocated()))
}

/// Bytes in active pages, as a Java `long`.
pub fn active() -> Result<i64, StatError> {
    stat_result_to_jlong(from_io(ctl_active()))
}

/// Bytes of allocator metadata, as a Java `long`.
pub fn metadata() -> Result<i64, StatError> {
    stat_result_to_jlong(from_io(ctl_metadata()))
}

/// Bytes in physically resident pages, as a Java `long`.
pub fn resident() -> Result<i64, StatError> {
    stat_result_to_jlong(from_io(ctl_resident()))
}

/// Bytes mapped by the allocator, as a Java `long`.
pub fn mapped() -> Result<i64, StatError> {
    stat_result_to_jlong(from_io(ctl_mapped()))
}

/// Bytes retained by the allocator, as a Java `long`.
pub fn retained() -> Result<i64, StatError> {
    stat_result_to_jlong(from_io(ctl_retained()))
}

/// A counter that fits in a Java `long` reaches the JVM unchanged.
pub proof fn lemma_small_counter_unchanged(value: usize)
    requires
        value <= i64::MAX,
    ensures
        jlong_of(value) == value,
{
}

} // verus!
