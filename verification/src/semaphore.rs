//! The named semaphore that signals a queue: its name, and the decisions of its wait loops.
use vstd::prelude::*;
use sha2::Digest;
use crate::text::push_char;

verus! {

/// SHA-256 of a byte string, as the `sha2` crate computes it.
pub uninterp spec fn sha256_digest(data: Seq<u8>) -> Seq<u8>;

/// Base64 text of a byte string in the URL-safe alphabet with `=` padding, as the `base64` crate
/// writes it.
pub uninterp spec fn base64_url_safe(data: Seq<u8>) -> Seq<char>;

/// Calls `sha2::Sha256::digest`. Claimed: the digest is the named function of the input bytes and is
/// 32 bytes long (the output size of SHA-256).
#[verifier::external_body]
fn sha256(data: &[u8]) -> (digest: Vec<u8>)
    ensures
        digest@ == sha256_digest(data@),
        digest@.len() == 32,
{
    sha2::Sha256::digest(data).to_vec()
}

/// A character of the URL-safe base64 alphabet (`A-Z a-z 0-9 - _`) or the padding `=`.
pub open spec fn is_base64_url_char(c: char) -> bool {
    ('A' <= c && c <= 'Z') || ('a' <= c && c <= 'z') || ('0' <= c && c <= '9') || c == '-' || c
        == '_' || c == '='
}

/// Calls `base64::Engine::encode` on the padded URL-safe engine. Claimed: the text is the named
/// function of the input; it has four characters for each started group of three bytes (the
/// crate's `encoded_len` with padding); and each character is of the URL-safe alphabet or the
/// padding `=` (the crate's `alphabet::URL_SAFE` and its padding byte).
/// The crate panics when that length overflows `usize`, which the bound on the input rules out.
#[verifier::external_body]
fn encode_base64_url(data: &[u8]) -> (text: String)
    requires
        data@.len() <= usize::MAX / 2,
    ensures
        text@ == base64_url_safe(data@),
        text@.len() == 4 * ((data@.len() + 2) / 3),
        forall|i: int| 0 <= i < text@.len() ==> is_base64_url_char(#[trigger] text@[i]),
{
    base64::Engine::encode(&base64::prelude::BASE64_URL_SAFE, data)
}


/// The semaphore name of a queue on systems with `sem_timedwait`: `/ct.ip.{memory_view_name}`.
pub open spec fn posix_name_text(memory_view_name: Seq<char>) -> Seq<char> {
    "/ct.ip."@ + memory_view_name
}

/// The semaphore name on macOS, where names are short: `/sem_` and the first 24 characters of the
/// URL-safe base64 of the SHA-256 of the UTF-8 bytes of the POSIX name.
pub open spec fn macos_name_text(memory_view_name: Seq<char>) -> Seq<char> {
    "/sem_"@ + base64_url_safe(
        sha256_digest(vstd::utf8::encode_utf8(posix_name_text(memory_view_name))),
    ).take(24)
}

/// The name under which the semaphore of a queue is opened on the given platform.
pub open spec fn semaphore_name_text(memory_view_name: Seq<char>, on_macos: bool) -> Seq<char> {
    if on_macos {
        macos_name_text(memory_view_name)
    } else {
        posix_name_text(memory_view_name)
    }
}

/// Why a semaphore name cannot be handed to the operating system.
#[derive(Debug, Clone, Copy, PartialEq, Eq)]
pub enum SemaphoreNameError {
    /// The name holds a NUL byte, which a C string cannot carry.
    ContainsNul,
}

/// Whether a byte string holds a NUL byte.
pub fn has_nul_byte(bytes: &[u8]) -> (found: bool)
    ensures
        found == bytes@.contains(0u8),
{
    let n = bytes.len();
    let mut i: usize = 0;
    while i < n
        invariant
            n == bytes@.len(),
            i <= n,
            forall|j: int| 0 <= j < i ==> bytes@[j] != 0u8,
        decreases n - i,
    {
        if bytes[i] == 0u8 {
            assert(bytes@[i as int] == 0u8);
            return true;
        }
        i = i + 1;
    }
    false
}

/// The name of the semaphore of the queue `memory_view_name`, checked to be a valid C string.
///
/// On macOS the name is hashed (see [`macos_name_text`]): it is then 29 ASCII characters and never
/// rejected. Elsewhere it is `/ct.ip.{name}`, rejected when the queue name holds a NUL.
pub fn semaphore_name(memory_view_name: &str, on_macos: bool) -> (res: Result<
    String,
    SemaphoreNameError,
>)
    ensures
        match res {
            Ok(name) => name@ == semaphore_name_text(memory_view_name@, on_macos)
                && !vstd::utf8::encode_utf8(name@).contains(0u8),
            Err(e) => e == SemaphoreNameError::ContainsNul && vstd::utf8::encode_utf8(
                semaphore_name_text(memory_view_name@, on_macos),
            ).contains(0u8),
        },
        on_macos ==> (res matches Ok(name) && name@.len() == 29 && vstd::utf8::is_ascii_chars(
            name@,
        )),
{
    let mut full = String::from_str("/ct.ip.");
    full.append(memory_view_name);
    let name = if on_macos {
        let bytes = full.as_str().as_bytes();
        let digest = sha256(bytes);
        let encoded = encode_base64_url(digest.as_slice());
        let head = encoded.as_str().substring_char(0, 24);
        let mut short = String::from_str("/sem_");
        short.append(head);
        proof {
            reveal_strlit("/sem_");
            assert(forall|i: int| 0 <= i < 24 ==> is_base64_url_char(#[trigger] head@[i]));
            assert forall|i: int| 0 <= i < short@.len() implies '\u{1}' <= #[trigger] short@[i]
                <= '\u{7f}' by {
                if i >= 5 {
                    assert(short@[i] == head@[i - 5]);
                }
            }
            vstd::utf8::is_ascii_chars_encode_utf8(short@);
            assert forall|i: int| 0 <= i < vstd::utf8::encode_utf8(short@).len() implies #[trigger] vstd::utf8::encode_utf8(
                short@,
            )[i] != 0u8 by {
                assert(short@[i] as u8 == vstd::utf8::encode_utf8(short@)[i]);
            }
        }
        short
    } else {
        full
    };
    if has_nul_byte(name.as_str().as_bytes()) {
        Err(SemaphoreNameError::ContainsNul)
    } else {
        Ok(name)
    }
}


/// How a wait with a timeout is carried out.
#[derive(Debug, Clone, Copy, PartialEq, Eq)]
pub enum WaitStrategy {
    /// A zero timeout: one non-blocking attempt.
    TryOnce,
    /// Platforms without `sem_timedwait` (Apple): non-blocking attempts until the deadline.
    Poll,
    /// A blocking wait with an absolute deadline.
    TimedWait,
}

/// Chooses how to wait for `timeout_nanos` nanoseconds.
pub fn wait_strategy(timeout_nanos: u128, on_apple: bool) -> (s: WaitStrategy)
    ensures
        s == (if timeout_nanos == 0 {
            WaitStrategy::TryOnce
        } else if on_apple {
            WaitStrategy::Poll
        } else {
            WaitStrategy::TimedWait
        }),
{
    if timeout_nanos == 0 {
        WaitStrategy::TryOnce
    } else if on_apple {
        WaitStrategy::Poll
    } else {
        WaitStrategy::TimedWait
    }
}

/// What one attempt on the semaphore came to.
#[derive(Debug, Clone, Copy, PartialEq, Eq)]
pub enum AttemptOutcome {
    /// The semaphore was decremented.
    Acquired,
    /// The call was interrupted by a signal (`EINTR`).
    Interrupted,
    /// The semaphore was not available (`EAGAIN`, `EBUSY`).
    Unavailable,
    /// The deadline of a timed wait passed (`ETIMEDOUT`).
    TimedOut,
    /// Any other failure of the call.
    Failed,
    /// A polling wait found its deadline passed before the attempt.
    DeadlinePassed,
}

/// The error numbers of the platform that the semaphore calls may report.
#[derive(Debug, Clone, Copy, PartialEq, Eq)]
pub struct ErrnoCodes {
    /// `EINTR`.
    pub interrupted: i32,
    /// `EAGAIN`.
    pub would_block: i32,
    /// `EBUSY`.
    pub busy: i32,
    /// `ETIMEDOUT`.
    pub timed_out: i32,
}

/// The outcome of a failed call that left the error number `errno`; an interruption is recognised
/// first, then an unavailable semaphore, then a passed deadline.
pub open spec fn failure_outcome(errno: i32, codes: ErrnoCodes) -> AttemptOutcome {
    if errno == codes.interrupted {
        AttemptOutcome::Interrupted
    } else if errno == codes.would_block || errno == codes.busy {
        AttemptOutcome::Unavailable
    } else if errno == codes.timed_out {
        AttemptOutcome::TimedOut
    } else {
        AttemptOutcome::Failed
    }
}

/// Classifies a failed semaphore call by the error number it left, 0 when none could be read.
pub fn classify_failure(errno: Option<i32>, codes: ErrnoCodes) -> (outcome: AttemptOutcome)
    ensures
        outcome == failure_outcome(
            match errno {
                Some(e) => e,
                None => 0,
            },
            codes,
        ),
{
    let e: i32 = match errno {
        Some(e) => e,
        None => 0,
    };
    if e == codes.interrupted {
        AttemptOutcome::Interrupted
    } else if e == codes.would_block || e == codes.busy {
        AttemptOutcome::Unavailable
    } else if e == codes.timed_out {
        AttemptOutcome::TimedOut
    } else {
        AttemptOutcome::Failed
    }
}

/// What the wait loop does next.
#[derive(Debug, Clone, Copy, PartialEq, Eq)]
pub enum WaitStep {
    /// Stop and report whether the semaphore was acquired.
    Finish(bool),
    /// Make another attempt (after yielding, when polling).
    Retry,
}

/// The decision after an attempt, in the loop of the given strategy.
///
/// An acquired semaphore ends every wait with `true`; an interrupted call is always made again.
/// A polling wait keeps trying until its deadline passes; the other waits give up with `false` on
/// any other failure.
pub fn next_wait_step(strategy: WaitStrategy, outcome: AttemptOutcome) -> (step: WaitStep)
    ensures
        outcome == AttemptOutcome::Acquired ==> step == WaitStep::Finish(true),
        outcome == AttemptOutcome::Interrupted ==> step == WaitStep::Retry,
        outcome == AttemptOutcome::DeadlinePassed ==> step == WaitStep::Finish(false),
        (outcome == AttemptOutcome::Unavailable || outcome == AttemptOutcome::TimedOut || outcome
            == AttemptOutcome::Failed) ==> step == (if strategy == WaitStrategy::Poll {
            WaitStep::Retry
        } else {
            WaitStep::Finish(false)
        }),
{
    match outcome {
        AttemptOutcome::Acquired => WaitStep::Finish(true),
        AttemptOutcome::Interrupted => WaitStep::Retry,
        AttemptOutcome::DeadlinePassed => WaitStep::Finish(false),
        _ => {
            match strategy {
                WaitStrategy::Poll => WaitStep::Retry,
                _ => WaitStep::Finish(false),
            }
        },
    }
}

/// A point in time as `struct timespec` holds it: seconds and nanoseconds.
#[derive(Debug, Clone, Copy, PartialEq, Eq)]
pub struct Timespec {
    pub sec: i64,
    pub nsec: i64,
}

/// Nanoseconds in a second.
pub open spec fn nanos_per_sec() -> int {
    1_000_000_000
}

/// Integer division rounding toward zero, as Rust's `/` on signed integers (for `b > 0`).
pub open spec fn div_toward_zero(a: int, b: int) -> int {
    if a >= 0 {
        a / b
    } else {
        -((-a) / b)
    }
}

/// The remainder that goes with [`div_toward_zero`], as Rust's `%` (it has the sign of `a`).
pub open spec fn rem_toward_zero(a: int, b: int) -> int {
    if a >= 0 {
        a % b
    } else {
        -((-a) % b)
    }
}

/// The length of a timeout in nanoseconds, capped at `i128::MAX`.
pub open spec fn timeout_nanos(secs: u64, subsec_nanos: u32) -> int {
    let n = secs * nanos_per_sec() + subsec_nanos;
    if n > i128::MAX {
        i128::MAX as int
    } else {
        n
    }
}

/// The deadline, in nanoseconds since the epoch of `now`, that lies a timeout after `now`.
pub open spec fn deadline_nanos(now: Timespec, secs: u64, subsec_nanos: u32) -> int {
    now.sec * nanos_per_sec() + now.nsec + timeout_nanos(secs, subsec_nanos)
}

/// The absolute deadline for a timed wait: `now` plus the timeout, split into seconds and
/// nanoseconds by division toward zero; the seconds are cut to the width of `time_t`, as the
/// conversion with `as` does.
pub fn deadline_after(now: Timespec, timeout_secs: u64, timeout_subsec_nanos: u32) -> (deadline:
    Timespec)
    requires
        timeout_subsec_nanos < 1_000_000_000,
    ensures
        deadline.sec == div_toward_zero(
            deadline_nanos(now, timeout_secs, timeout_subsec_nanos),
            nanos_per_sec(),
        ) as i64,
        deadline.nsec == rem_toward_zero(
            deadline_nanos(now, timeout_secs, timeout_subsec_nanos),
            nanos_per_sec(),
        ),
{
    let per_sec: u128 = 1_000_000_000;
    assert(timeout_secs * 1_000_000_000 <= 18446744073709551615 * 1_000_000_000) by (nonlinear_arith);
    let timeout: u128 = (timeout_secs as u128) * per_sec + (timeout_subsec_nanos as u128);
    let add: i128 = if timeout > (i128::MAX as u128) {
        i128::MAX
    } else {
        timeout as i128
    };
    assert(-9223372036854775808 * 1_000_000_000 <= now.sec * 1_000_000_000 <= 9223372036854775807
        * 1_000_000_000) by (nonlinear_arith)
        requires
            -9223372036854775808 <= now.sec <= 9223372036854775807,
    ;
    let total: i128 = (now.sec as i128) * 1_000_000_000i128 + (now.nsec as i128) + add;
    if total >= 0 {
        let t: u128 = total as u128;
        let q: u128 = t / per_sec;
        let r: u128 = t % per_sec;
        Timespec { sec: q as i64, nsec: r as i64 }
    } else {
        let t: u128 = (0i128 - total) as u128;
        let q: u128 = t / per_sec;
        let r: u128 = t % per_sec;
        let sec: i128 = 0i128 - (q as i128);
        let nsec: i128 = 0i128 - (r as i128);
        Timespec { sec: sec as i64, nsec: nsec as i64 }
    }
}


/// A timed wait started at a normalized `now` (at or after the epoch, nanoseconds below a second)
/// ends at a normalized deadline that lies exactly the timeout after `now`, as long as the
/// deadline's seconds fit in `time_t`.
pub proof fn lemma_deadline_is_timeout_after_now(now: Timespec, secs: u64, subsec_nanos: u32)
    requires
        0 <= now.sec,
        0 <= now.nsec < nanos_per_sec(),
        subsec_nanos < nanos_per_sec(),
        deadline_nanos(now, secs, subsec_nanos) / nanos_per_sec() <= i64::MAX,
    ensures
        ({
            let total = deadline_nanos(now, secs, subsec_nanos);
            let sec = div_toward_zero(total, nanos_per_sec()) as i64;
            let nsec = rem_toward_zero(total, nanos_per_sec());
            &&& 0 <= nsec < nanos_per_sec()
            &&& sec * nanos_per_sec() + nsec == now.sec * nanos_per_sec() + now.nsec + secs
                * nanos_per_sec() + subsec_nanos
        }),
{
    assert(secs * 1_000_000_000 <= 18446744073709551615 * 1_000_000_000) by (nonlinear_arith);
    assert(0 <= now.sec * 1_000_000_000) by (nonlinear_arith)
        requires
            0 <= now.sec,
    ;
    assert(0 <= secs * 1_000_000_000) by (nonlinear_arith);
    let total = deadline_nanos(now, secs, subsec_nanos);
    assert(total >= 0);
    let q = total / nanos_per_sec();
    let r = total % nanos_per_sec();
    assert(q * nanos_per_sec() + r == total) by (nonlinear_arith)
        requires
            q == total / nanos_per_sec(),
            r == total % nanos_per_sec(),
            nanos_per_sec() == 1_000_000_000,
    ;
    assert(q >= 0) by (nonlinear_arith)
        requires
            q == total / nanos_per_sec(),
            total >= 0,
            nanos_per_sec() == 1_000_000_000,
    ;
}


/// Outside macOS the semaphore name is `/ct.ip.` followed by the whole queue name, so distinct
/// queue names get distinct semaphores.
pub proof fn lemma_posix_name_keeps_queue_name(a: Seq<char>, b: Seq<char>)
    ensures
        posix_name_text(a).len() == 7 + a.len(),
        posix_name_text(a).take(7) == "/ct.ip."@,
        posix_name_text(a).skip(7) == a,
        posix_name_text(a) == posix_name_text(b) ==> a == b,
{
    reveal_strlit("/ct.ip.");
    assert(posix_name_text(a).take(7) =~= "/ct.ip."@);
    assert(posix_name_text(a).skip(7) =~= a);
    assert(posix_name_text(b).skip(7) =~= b);
}

/// A failed call is an interruption exactly when its error number is `EINTR`; `EAGAIN` and
/// `EBUSY` mean the semaphore was unavailable, `ETIMEDOUT` a passed deadline (each when no earlier
/// code has the same number), and any other number, or none (read as 0), is a failure.
pub proof fn lemma_failure_classes(errno: i32, codes: ErrnoCodes)
    ensures
        errno == codes.interrupted ==> failure_outcome(errno, codes) == AttemptOutcome::Interrupted,
        errno != codes.interrupted && (errno == codes.would_block || errno == codes.busy)
            ==> failure_outcome(errno, codes) == AttemptOutcome::Unavailable,
        errno != codes.interrupted && errno != codes.would_block && errno != codes.busy && errno
            == codes.timed_out ==> failure_outcome(errno, codes) == AttemptOutcome::TimedOut,
        errno != codes.interrupted && errno != codes.would_block && errno != codes.busy && errno
            != codes.timed_out ==> failure_outcome(errno, codes) == AttemptOutcome::Failed,
{
}

} // verus!
