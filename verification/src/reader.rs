//! Capture of a response frame without a length field.
//!
//! Modbus RTU carries no explicit frame length, so the end of a response
//! is inferred at the serial layer: capture stops once the expected
//! length is reached (when the caller knows it), once an inter-byte
//! silence longer than a gap threshold follows at least one captured
//! byte, once the buffer is full, or once an absolute timeout expires.
//! The timing loop itself belongs to the caller, who owns the clock and
//! the serial port; it reports each poll of the port as an event —
//! either a chunk of freshly arrived bytes or a moment of silence — and
//! this state machine decides whether the frame is complete.

use vstd::prelude::*;

verus! {

/// Absolute response timeout, in milliseconds.
pub const DEFAULT_TIMEOUT_MS: u32 = 300;

/// Inter-byte silence treated as end of frame, in milliseconds.
pub const DEFAULT_GAP_MS: u32 = 20;

/// Capture buffer size, in bytes.
pub const DEFAULT_MAX_LEN: usize = 64;

/// Timing thresholds and capacity of one response capture.
pub struct ReaderConfig {
    /// Absolute window for the whole response, in milliseconds.
    pub timeout_ms: u32,
    /// Inter-byte silence that ends a frame, in milliseconds.
    pub gap_ms: u32,
    /// Most bytes one capture may hold.
    pub max_len: usize,
}

impl ReaderConfig {
    /// A usable configuration has room for at least one byte.
    pub open spec fn wf(self) -> bool {
        self.max_len >= 1
    }
}

impl Default for ReaderConfig {
    /// The thresholds of a 9600-baud RTU link: 300 ms absolute timeout,
    /// 20 ms inter-byte gap, a 64-byte buffer.
    fn default() -> (cfg: Self)
        ensures
            cfg.timeout_ms == DEFAULT_TIMEOUT_MS,
            cfg.gap_ms == DEFAULT_GAP_MS,
            cfg.max_len == DEFAULT_MAX_LEN,
            cfg.wf(),
    {
        ReaderConfig { timeout_ms: DEFAULT_TIMEOUT_MS, gap_ms: DEFAULT_GAP_MS, max_len: DEFAULT_MAX_LEN }
    }
}

/// One poll of the serial port, as the caller saw it.
pub enum ReadEvent {
    /// At least one byte arrived; the chunk is at most the space left in
    /// the capture buffer, since that is all the caller may read into.
    Received(Vec<u8>),
    /// Nothing arrived; the silence since the last byte has lasted this
    /// many milliseconds.
    Idle(u32),
}

/// The state of one response capture: the bytes so far and the length at
/// which capture may stop early (0 when unknown).
pub struct ResponseReader {
    /// Bytes captured so far, in arrival order.
    pub buf: Vec<u8>,
    /// Stop as soon as this many bytes are in, unless it is 0.
    pub expected_len: usize,
    /// Thresholds and capacity.
    pub cfg: ReaderConfig,
}

/// Whether a capture is complete after an event at `elapsed_ms` since
/// the capture began: the absolute window has expired, the bytes now
/// held reach the expected length or fill the buffer, or a long enough
/// silence follows a nonempty capture.
pub open spec fn capture_done(
    buf: Seq<u8>,
    expected_len: usize,
    cfg: ReaderConfig,
    event: ReadEvent,
    elapsed_ms: u32,
) -> bool {
    ||| elapsed_ms >= cfg.timeout_ms
    ||| (event matches ReadEvent::Received(_) && {
        ||| (expected_len > 0 && buf.len() >= expected_len)
        ||| buf.len() >= cfg.max_len
    })
    ||| (event matches ReadEvent::Idle(idle_ms) && buf.len() > 0 && idle_ms > cfg.gap_ms)
}

impl ResponseReader {
    /// The capture never outgrows its buffer.
    pub open spec fn wf(self) -> bool {
        &&& self.cfg.wf()
        &&& self.buf@.len() <= self.cfg.max_len
    }

    /// Start a capture with an empty buffer.  `expected_len` of 0 means
    /// the caller does not know the response length and only the gap,
    /// capacity and timeout rules end the capture.
    pub fn new(cfg: ReaderConfig, expected_len: usize) -> (reader: Self)
        requires
            cfg.wf(),
        ensures
            reader.wf(),
            reader.buf@ == Seq::<u8>::empty(),
            reader.expected_len == expected_len,
            reader.cfg == cfg,
    {
        ResponseReader { buf: Vec::new(), expected_len, cfg }
    }

    /// Absorb one poll of the serial port and decide whether the frame
    /// is complete.  Arrived bytes are appended; silence leaves the
    /// buffer as it is.
    pub fn step(&mut self, event: ReadEvent, elapsed_ms: u32) -> (done: bool)
        requires
            old(self).wf(),
            event matches ReadEvent::Received(chunk) ==> 1 <= chunk@.len()
                <= old(self).cfg.max_len - old(self).buf@.len(),
        ensures
            final(self).wf(),
            final(self).cfg == old(self).cfg,
            final(self).expected_len == old(self).expected_len,
            event matches ReadEvent::Received(chunk) ==> final(self).buf@ == old(self).buf@
                + chunk@,
            event matches ReadEvent::Idle(_) ==> final(self).buf@ == old(self).buf@,
            done == capture_done(
                final(self).buf@,
                old(self).expected_len,
                old(self).cfg,
                event,
                elapsed_ms,
            ),
    {
        match event {
            ReadEvent::Received(chunk) => {
                let mut i: usize = 0;
                let ghost start = self.buf@;
                while i < chunk.len()
                    invariant
                        i <= chunk@.len(),
                        start.len() + chunk@.len() <= self.cfg.max_len,
                        self.buf@ =~= start + chunk@.take(i as int),
                        self.expected_len == old(self).expected_len,
                        self.cfg == old(self).cfg,
                    decreases chunk@.len() - i,
                {
                    self.buf.push(chunk[i]);
                    i = i + 1;
                }
                proof {
                    assert(self.buf@ =~= start + chunk@);
                }
                elapsed_ms >= self.cfg.timeout_ms || (self.expected_len > 0 && self.buf.len()
                    >= self.expected_len) || self.buf.len() >= self.cfg.max_len
            },
            ReadEvent::Idle(idle_ms) => {
                elapsed_ms >= self.cfg.timeout_ms || (self.buf.len() > 0 && idle_ms > self.cfg.gap_ms)
            },
        }
    }

    /// Hand the captured frame over, ending the capture.
    pub fn into_frame(self) -> (frame: Vec<u8>)
        ensures
            frame@ == self.buf@,
    {
        self.buf
    }
}

} // verus!
