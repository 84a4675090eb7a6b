//! Download-rate estimation for the buffered-vs-streamed playback decision.
//!
//! While a response's audio arrives, the orchestrator measures how long the
//! download takes against how many seconds of audio it carries. The ratio of
//! the two — wall-clock seconds per second of audio — is the speed factor:
//! above one, delivery is slower than real-time playback and the next
//! response must be buffered before it is played; at or below one, chunks
//! can be streamed to the speaker as they arrive.
//!
//! All times enter as millisecond readings of a monotonic clock supplied by
//! the caller, and the factor is kept as an exact integer ratio, so the
//! decision threshold is exact.
use vstd::prelude::*;

verus! {

/// Bytes of PCM audio that play in one second (16 kHz, mono, 16-bit).
pub const BYTES_PER_SECOND: u64 = 32000;

/// `BYTES_PER_SECOND / 1000`: bytes of audio per millisecond of playback.
pub const BYTES_PER_MS: u64 = 32;

/// How long a computed speed factor stays valid, in seconds.
pub const SPEED_VALID_SECS: u64 = 30;

/// Milliseconds by which a fresh estimator predates its creation time, so
/// that it starts out stale and the first response triggers a measurement.
pub const STALE_AT_BIRTH_MS: u64 = 300000;

/// A speed factor: `num / den` wall-clock seconds per second of audio.
///
/// `den` is the byte count the measurement saw; a measurement that saw no
/// bytes has `den == 0` and compares as slower than real time whenever any
/// wall-clock time passed (`num > 0`).
#[derive(Clone, Copy, Debug)]
pub struct Speed {
    pub num: u64,
    pub den: u64,
}

impl Speed {
    /// The factor in force before any measurement: 0.8, optimistically
    /// faster than real time, so the first response streams.
    pub fn initial() -> (s: Speed)
        ensures
            s.num == 4,
            s.den == 5,
            !s.slower_than_realtime_spec(),
    {
        Speed { num: 4, den: 5 }
    }

    /// Whether the factor is strictly greater than one: delivery is slower
    /// than real-time playback, so a response must be buffered before it
    /// is played. A factor of exactly one still streams.
    pub open spec fn slower_than_realtime_spec(self) -> bool {
        self.num > self.den
    }

    /// Exact comparison of the ratio against one.
    pub fn slower_than_realtime(&self) -> (b: bool)
        ensures
            b == self.slower_than_realtime_spec(),
    {
        self.num > self.den
    }

    /// The factor in hundredths, truncated, for display; `None` when the
    /// measurement saw no bytes and the ratio is not a finite number.
    pub fn centi(&self) -> (c: Option<u128>)
        ensures
            c == if self.den == 0 {
                Option::<u128>::None
            } else {
                Option::<u128>::Some((self.num as int * 100 / self.den as int) as u128)
            },
    {
        if self.den == 0 {
            None
        } else {
            Some(self.num as u128 * 100 / self.den as u128)
        }
    }
}

/// `e * BYTES_PER_MS`, saturated to `u64::MAX` — the numerator of a speed
/// factor measured over `e` milliseconds.
pub open spec fn ms_to_audio_bytes(e: u64) -> u64 {
    if e * BYTES_PER_MS > u64::MAX {
        u64::MAX
    } else {
        (e * BYTES_PER_MS) as u64
    }
}

/// Measures one response's download: elapsed wall-clock time against bytes
/// of audio received. All clock readings are caller-supplied milliseconds
/// of a monotonic clock; readings earlier than the recorded start are
/// treated as zero elapsed time.
pub struct DownloadMetrics {
    pub start_ms: u64,
    pub data_size: u64,
    pub timeout_sec: u64,
}

impl DownloadMetrics {
    /// A fresh estimator, backdated so that it is already stale and the
    /// first response triggers a measurement.
    pub fn new(now_ms: u64) -> (m: DownloadMetrics)
        ensures
            m.start_ms == now_ms.saturating_sub(STALE_AT_BIRTH_MS),
            m.data_size == 0,
            m.timeout_sec == SPEED_VALID_SECS,
    {
        DownloadMetrics {
            start_ms: now_ms.saturating_sub(STALE_AT_BIRTH_MS),
            data_size: 0,
            timeout_sec: SPEED_VALID_SECS,
        }
    }

    /// Milliseconds since the last reset; zero if the clock reads earlier
    /// than the recorded start.
    pub open spec fn elapsed_spec(self, now_ms: u64) -> u64 {
        now_ms.saturating_sub(self.start_ms)
    }

    /// Whether the last measurement is older than the validity window, so
    /// the factor must be recomputed on the next response.
    pub open spec fn is_timeout_spec(self, now_ms: u64) -> bool {
        self.elapsed_spec(now_ms) / 1000 > self.timeout_sec
    }

    pub fn is_timeout(&self, now_ms: u64) -> (b: bool)
        ensures
            b == self.is_timeout_spec(now_ms),
    {
        now_ms.saturating_sub(self.start_ms) / 1000 > self.timeout_sec
    }

    /// Start a new measurement at the given clock reading.
    pub fn reset(&mut self, now_ms: u64)
        ensures
            final(self).start_ms == now_ms,
            final(self).data_size == 0,
            final(self).timeout_sec == old(self).timeout_sec,
    {
        self.start_ms = now_ms;
        self.data_size = 0;
    }

    /// Count received audio bytes into the current measurement.
    pub fn add_data(&mut self, size: usize)
        ensures
            final(self).data_size == old(self).data_size.saturating_add(size as u64),
            final(self).start_ms == old(self).start_ms,
            final(self).timeout_sec == old(self).timeout_sec,
    {
        self.data_size = self.data_size.saturating_add(size as u64);
    }

    pub fn elapsed(&self, now_ms: u64) -> (ms: u64)
        ensures
            ms == self.elapsed_spec(now_ms),
    {
        now_ms.saturating_sub(self.start_ms)
    }

    /// The measured speed factor: elapsed seconds per second of audio
    /// received. As a ratio,
    /// `(elapsed_ms / 1000) / (data_size / BYTES_PER_SECOND)`
    /// equals `(elapsed_ms * BYTES_PER_MS) / data_size`, which is what is
    /// returned: numerator saturated at `u64::MAX` (an elapsed time near
    /// the clock's range), denominator the byte count, zero when nothing
    /// was received.
    pub open spec fn speed_spec(self, now_ms: u64) -> Speed {
        Speed { num: ms_to_audio_bytes(self.elapsed_spec(now_ms)), den: self.data_size }
    }

    pub fn speed(&self, now_ms: u64) -> (s: Speed)
        ensures
            s == self.speed_spec(now_ms),
    {
        let elapsed_ms = now_ms.saturating_sub(self.start_ms);
        let num = match elapsed_ms.checked_mul(BYTES_PER_MS) {
            Some(n) => n,
            None => u64::MAX,
        };
        Speed { num, den: self.data_size }
    }
}

} // verus!
