//! The capture session's lifecycle. One session at most is active; it is
//! started in two steps (admit, then take the device's answer) and stopped
//! in two (end the capture, then file what was captured). The device, the
//! threads and the signal processing are the caller's; the decisions and
//! the bookkeeping are made here.

use crate::error::PipelineError;
use crate::session::SessionStore;
use crate::text::{digit_char, digit_str, glue};
use vstd::prelude::*;
use vstd::relations::injective_on;
use vstd::set_lib::{lemma_int_range, lemma_len_subset, lemma_map_size, set_int_range};
use vstd::string::*;

verus! {

/// The rate, in Hz, of every stored session.
pub const TARGET_SAMPLE_RATE: u32 = 16000;

/// How many of the latest raw samples the level meter reads per tick.
pub const LEVEL_WINDOW: usize = 4096;

/// The pause between two readings of the level meter, in milliseconds.
pub const LEVEL_INTERVAL_MS: u64 = 60;

/// How long a stop waits for the last callback before it reads the buffer,
/// in milliseconds.
pub const STOP_GRACE_MS: u64 = 50;

/// The raw samples of the running capture, in the order the device
/// delivered them, with the stream's format. `S` is the sample type.
///
/// The buffer itself knows nothing of threads: the capture callback, the
/// level meter and the stop share it behind one lock, which each holds for
/// the length of one call.
pub struct AudioBuffer<S> {
    /// What was captured and not yet taken.
    pub samples: Vec<S>,
    /// The stream's rate in Hz; 0 while the device has not reported it.
    pub sample_rate: u32,
    /// The stream's channel count; 0 while the device has not reported it.
    pub channels: u16,
}

impl<S> AudioBuffer<S> {
    /// An empty buffer for a stream of the given format.
    pub fn new(sample_rate: u32, channels: u16) -> (buffer: Self)
        ensures
            buffer.samples@ == Seq::<S>::empty(),
            buffer.sample_rate == sample_rate,
            buffer.channels == channels,
    {
        AudioBuffer { samples: Vec::new(), sample_rate, channels }
    }

    /// Appends what one callback delivered.
    pub fn append(&mut self, chunk: &mut Vec<S>)
        ensures
            final(self).samples@ == old(self).samples@ + old(chunk)@,
            final(chunk)@ == Seq::<S>::empty(),
            final(self).sample_rate == old(self).sample_rate,
            final(self).channels == old(self).channels,
    {
        self.samples.append(chunk);
    }

    /// Drops everything captured so far.
    pub fn clear(&mut self)
        ensures
            final(self).samples@ == Seq::<S>::empty(),
            final(self).sample_rate == old(self).sample_rate,
            final(self).channels == old(self).channels,
    {
        self.samples.clear();
    }

    /// Hands out everything captured so far and leaves the buffer empty.
    pub fn take(&mut self) -> (taken: Vec<S>)
        ensures
            taken@ == old(self).samples@,
            final(self).samples@ == Seq::<S>::empty(),
            final(self).sample_rate == old(self).sample_rate,
            final(self).channels == old(self).channels,
    {
        let mut taken: Vec<S> = Vec::new();
        taken.append(&mut self.samples);
        assert(taken@ =~= old(self).samples@);
        taken
    }

    /// The stream's format.
    pub fn format(&self) -> (format: CaptureFormat)
        ensures
            format.sample_rate == self.sample_rate,
            format.channels == self.channels,
    {
        CaptureFormat { sample_rate: self.sample_rate, channels: self.channels }
    }

    /// The part of the buffer that the level meter reads now.
    pub fn meter_range(&self) -> (range: (usize, usize))
        ensures
            range.1 == self.samples@.len(),
            range.0 <= range.1,
            range.1 - range.0 == if self.samples@.len() < LEVEL_WINDOW {
                self.samples@.len() as int
            } else {
                LEVEL_WINDOW as int
            },
    {
        level_window(self.samples.len())
    }
}

/// What the device reported of the stream it delivers.
#[derive(Clone, Copy, Debug, PartialEq, Eq, Structural)]
pub struct CaptureFormat {
    pub sample_rate: u32,
    pub channels: u16,
}

/// The sample encodings a device may prefer.
#[derive(Clone, Copy, Debug, PartialEq, Eq, Structural)]
pub enum SampleEncoding {
    /// 32-bit float.
    Float32,
    /// 16-bit signed integer.
    Int16,
    /// Anything else.
    Other,
}

/// How the capture callback turns the device's samples into floats.
#[derive(Clone, Copy, Debug, PartialEq, Eq, Structural)]
pub enum SampleConversion {
    /// The samples are taken as they come.
    Passthrough,
    /// Each sample is divided by the largest 16-bit magnitude.
    ScaleInt16,
}

/// Why the capture thread could not deliver a stream.
#[derive(Clone, Debug, PartialEq, Eq)]
pub enum DeviceFailure {
    /// The host has no default input device.
    NoInputDevice,
    /// The device has no default input configuration.
    ConfigUnavailable { reason: String },
    /// The device prefers an encoding that is not accepted.
    UnsupportedSampleFormat { format: String },
    /// The stream could not be built.
    BuildFailed { reason: String },
    /// The stream was built and did not start.
    StartFailed { reason: String },
    /// The thread ended before it reported anything.
    ThreadDied,
}

/// Where the one capture session stands.
#[derive(Clone, Copy, Debug, PartialEq, Eq, Structural)]
pub enum CapturePhase {
    /// No session.
    Idle,
    /// A start was admitted and the device has not answered yet.
    Starting,
    /// The device streams samples in the given format.
    Recording { format: CaptureFormat },
}

/// What a finished recording is known by.
#[derive(Clone, Debug, PartialEq, Eq)]
pub struct StopResult {
    pub session_id: String,
    pub duration_ms: u64,
    pub sample_count: usize,
}

/// The length in milliseconds, rounded down, of `sample_count` samples at
/// 16 kHz.
pub open spec fn duration_ms_of(sample_count: nat) -> nat {
    sample_count * 1000 / 16000
}

/// Whether a start is admitted in `phase`.
pub open spec fn start_admitted(phase: CapturePhase) -> bool {
    phase is Idle
}

/// The phase after a request to start.
pub open spec fn phase_after_start_request(phase: CapturePhase) -> CapturePhase {
    if start_admitted(phase) {
        CapturePhase::Starting
    } else {
        phase
    }
}

/// The phase after the device's answer: from `Starting`, a format leads to
/// `Recording` and a failure back to `Idle`; in any other phase the answer
/// belongs to no start and changes nothing.
pub open spec fn phase_after_device_answer(
    phase: CapturePhase,
    answer: Option<CaptureFormat>,
) -> CapturePhase {
    match (phase, answer) {
        (CapturePhase::Starting, Some(format)) => CapturePhase::Recording { format },
        (CapturePhase::Starting, None) => CapturePhase::Idle,
        _ => phase,
    }
}

/// The text that reports a device failure.
pub open spec fn failure_text(failure: DeviceFailure) -> Seq<char> {
    match failure {
        DeviceFailure::NoInputDevice => "Audio init failed: No input device available"@,
        DeviceFailure::ConfigUnavailable { reason } => "Audio init failed: Failed to get input config: "@
            + reason@,
        DeviceFailure::UnsupportedSampleFormat { format } => "Audio init failed: Unsupported sample format: "@
            + format@,
        DeviceFailure::BuildFailed { reason } => "Audio init failed: Failed to build stream: "@
            + reason@,
        DeviceFailure::StartFailed { reason } => "Audio init failed: Failed to start stream: "@
            + reason@,
        DeviceFailure::ThreadDied => "Capture thread died before initialization"@,
    }
}

/// Whether `error` is the report of `failure`: an unsupported encoding is
/// `UnsupportedFormat`, every other failure `DeviceUnavailable`, each with
/// the failure's text.
pub open spec fn reports_failure(error: PipelineError, failure: DeviceFailure) -> bool {
    match error {
        PipelineError::UnsupportedFormat { detail } => failure is UnsupportedSampleFormat
            && detail@ == failure_text(failure),
        PipelineError::DeviceUnavailable { detail } => !(failure is UnsupportedSampleFormat)
            && detail@ == failure_text(failure),
        _ => false,
    }
}

/// The conversion for a device that prefers `encoding`, if it is accepted.
pub open spec fn conversion_of(encoding: SampleEncoding) -> Option<SampleConversion> {
    match encoding {
        SampleEncoding::Float32 => Some(SampleConversion::Passthrough),
        SampleEncoding::Int16 => Some(SampleConversion::ScaleInt16),
        SampleEncoding::Other => None,
    }
}

/// Chooses the callback's conversion. Only 32-bit float and 16-bit integer
/// are accepted; any other encoding is a failure that names it.
pub fn conversion_for(encoding: SampleEncoding, name: &str) -> (choice: Result<
    SampleConversion,
    DeviceFailure,
>)
    ensures
        match choice {
            Ok(conversion) => conversion_of(encoding) == Some(conversion),
            Err(failure) => {
                &&& conversion_of(encoding) is None
                &&& failure matches DeviceFailure::UnsupportedSampleFormat { format }
                &&& format@ == name@
            },
        },
{
    match encoding {
        SampleEncoding::Float32 => Ok(SampleConversion::Passthrough),
        SampleEncoding::Int16 => Ok(SampleConversion::ScaleInt16),
        SampleEncoding::Other => Err(
            DeviceFailure::UnsupportedSampleFormat { format: String::from_str(name) },
        ),
    }
}

/// Turns the capture thread's failure into the error that `start` returns.
pub fn report_failure(failure: DeviceFailure) -> (error: PipelineError)
    ensures
        reports_failure(error, failure),
        error.is_device_error(),
{
    match failure {
        DeviceFailure::NoInputDevice => PipelineError::DeviceUnavailable {
            detail: String::from_str("Audio init failed: No input device available"),
        },
        DeviceFailure::ConfigUnavailable { reason } => PipelineError::DeviceUnavailable {
            detail: glue("Audio init failed: Failed to get input config: ", reason.as_str()),
        },
        DeviceFailure::UnsupportedSampleFormat { format } => PipelineError::UnsupportedFormat {
            detail: glue("Audio init failed: Unsupported sample format: ", format.as_str()),
        },
        DeviceFailure::BuildFailed { reason } => PipelineError::DeviceUnavailable {
            detail: glue("Audio init failed: Failed to build stream: ", reason.as_str()),
        },
        DeviceFailure::StartFailed { reason } => PipelineError::DeviceUnavailable {
            detail: glue("Audio init failed: Failed to start stream: ", reason.as_str()),
        },
        DeviceFailure::ThreadDied => PipelineError::DeviceUnavailable {
            detail: String::from_str("Capture thread died before initialization"),
        },
    }
}

/// The part of a raw buffer of `len` samples that the level meter reads:
/// the last `LEVEL_WINDOW` samples, or all of them if there are fewer.
pub fn level_window(len: usize) -> (range: (usize, usize))
    ensures
        range.1 == len,
        range.0 <= range.1,
        range.1 - range.0 == if len < LEVEL_WINDOW {
            len
        } else {
            LEVEL_WINDOW
        },
{
    let window = if len < LEVEL_WINDOW {
        len
    } else {
        LEVEL_WINDOW
    };
    (len - window, len)
}

/// The duration of `sample_count` samples at 16 kHz.
pub fn duration_ms(sample_count: usize) -> (ms: u64)
    ensures
        ms == duration_ms_of(sample_count as nat),
{
    assert(sample_count as nat * 1000 / 16000 == sample_count as nat / 16) by (nonlinear_arith);
    (sample_count / 16) as u64
}

/// Whether `c` is a digit of lower-case hexadecimal notation.
pub open spec fn is_hex_digit(c: char) -> bool {
    ('0' <= c && c <= '9') || ('a' <= c && c <= 'f')
}

/// The shape of a session identifier: thirty-six characters, of which the
/// ninth, the fourteenth, the nineteenth and the twenty-fourth are hyphens
/// and all others hexadecimal digits.
pub open spec fn is_session_id(id: Seq<char>) -> bool {
    &&& id.len() == 36
    &&& forall|i: int|
        0 <= i < 36 ==> if i == 8 || i == 13 || i == 18 || i == 23 {
            #[trigger] id[i] == '-'
        } else {
            is_hex_digit(id[i])
        }
}

/// A new session identifier.
///
/// Calls `uuid::Uuid::new_v4` and writes the result in its `Display` form,
/// which is the hyphenated one in lower case. The identifier is random;
/// all that is claimed is its shape.
#[verifier::external_body]
fn fresh_session_id() -> (id: String)
    ensures
        is_session_id(id@),
{
    uuid::Uuid::new_v4().to_string()
}

/// The last `width` digits of `n` in decimal notation, with leading
/// zeros.
pub open spec fn padded_decimal(n: nat, width: nat) -> Seq<char>
    decreases width,
{
    if width == 0 {
        Seq::empty()
    } else {
        padded_decimal(n / 10, (width - 1) as nat).push(digit_char((n % 10) as int))
    }
}

/// `n` without its last `width` decimal digits.
pub open spec fn above_digits(n: nat, width: nat) -> nat
    decreases width,
{
    if width == 0 {
        n
    } else {
        above_digits(n / 10, (width - 1) as nat)
    }
}

/// The identifier that carries the number `k`: the twenty digits of `k`
/// fill its last three groups, and the first two groups are zeros.
pub open spec fn numbered_id(k: nat) -> Seq<char> {
    let digits = padded_decimal(k, 20);
    "00000000-0000-"@ + digits.subrange(0, 4) + "-"@ + digits.subrange(4, 8) + "-"@
        + digits.subrange(8, 20)
}

/// Whether `id` is the identifier under which a session is filed when
/// `drawn` was drawn for it: `drawn` itself where no session is filed under
/// it yet, and otherwise the first of the numbered identifiers that is
/// free.
pub open spec fn is_unused_id<S>(
    id: Seq<char>,
    drawn: Seq<char>,
    sessions: Map<Seq<char>, Seq<S>>,
) -> bool {
    &&& !sessions.contains_key(id)
    &&& !sessions.contains_key(drawn) ==> id == drawn
    &&& sessions.contains_key(drawn) ==> exists|k: nat|
        id == #[trigger] numbered_id(k) && forall|j: nat|
            j < k ==> sessions.contains_key(#[trigger] numbered_id(j))
}

proof fn lemma_padded_decimal(n: nat, width: nat)
    ensures
        padded_decimal(n, width).len() == width,
        forall|i: int|
            0 <= i < width ==> is_hex_digit(#[trigger] padded_decimal(n, width)[i]),
    decreases width,
{
    if width > 0 {
        lemma_padded_decimal(n / 10, (width - 1) as nat);
    }
}

proof fn lemma_padded_decimal_tells_apart(a: nat, b: nat, width: nat)
    requires
        padded_decimal(a, width) == padded_decimal(b, width),
        above_digits(a, width) == above_digits(b, width),
    ensures
        a == b,
    decreases width,
{
    if width > 0 {
        let rest_a = padded_decimal(a / 10, (width - 1) as nat);
        let rest_b = padded_decimal(b / 10, (width - 1) as nat);
        let last_a = digit_char((a % 10) as int);
        let last_b = digit_char((b % 10) as int);
        assert(rest_a.push(last_a).last() == last_a);
        assert(rest_b.push(last_b).last() == last_b);
        assert(rest_a.push(last_a).drop_last() =~= rest_a);
        assert(rest_b.push(last_b).drop_last() =~= rest_b);
        assert(a % 10 == b % 10);
        lemma_padded_decimal_tells_apart(a / 10, b / 10, (width - 1) as nat);
    }
}

proof fn lemma_numbered_id_shape(k: nat)
    ensures
        is_session_id(numbered_id(k)),
{
    reveal_strlit("00000000-0000-");
    reveal_strlit("-");
    lemma_padded_decimal(k, 20);
    let digits = padded_decimal(k, 20);
    let id = numbered_id(k);
    assert(id.len() == 36);
    assert forall|i: int| 0 <= i < 36 implies if i == 8 || i == 13 || i == 18 || i == 23 {
        #[trigger] id[i] == '-'
    } else {
        is_hex_digit(id[i])
    } by {
        if i < 14 {
            assert(id[i] == "00000000-0000-"@[i]);
        } else if i < 18 {
            assert(id[i] == digits[i - 14]);
        } else if i == 18 {
        } else if i < 23 {
            assert(id[i] == digits[i - 15]);
        } else if i == 23 {
        } else {
            assert(id[i] == digits[i - 16]);
        }
    }
}

proof fn lemma_numbered_ids_differ(a: nat, b: nat)
    requires
        a <= u64::MAX,
        b <= u64::MAX,
        numbered_id(a) == numbered_id(b),
    ensures
        a == b,
{
    reveal_strlit("00000000-0000-");
    reveal_strlit("-");
    lemma_padded_decimal(a, 20);
    lemma_padded_decimal(b, 20);
    let da = padded_decimal(a, 20);
    let db = padded_decimal(b, 20);
    let ia = numbered_id(a);
    let ib = numbered_id(b);
    assert(da =~= ia.subrange(14, 18) + ia.subrange(19, 23) + ia.subrange(24, 36));
    assert(db =~= ib.subrange(14, 18) + ib.subrange(19, 23) + ib.subrange(24, 36));
    assert(above_digits(a, 20) == 0) by {
        reveal_with_fuel(above_digits, 21);
    }
    assert(above_digits(b, 20) == 0) by {
        reveal_with_fuel(above_digits, 21);
    }
    lemma_padded_decimal_tells_apart(a, b, 20);
}

/// No more of the numbered identifiers, counted from the first, can all be
/// in use than there are identifiers in use.
proof fn lemma_numbered_ids_run_out(keys: Set<Seq<char>>, k: nat)
    requires
        keys.finite(),
        k <= u64::MAX + 1,
        forall|j: nat| j < k ==> keys.contains(#[trigger] numbered_id(j)),
    ensures
        k <= keys.len(),
{
    let numbers = set_int_range(0, k as int);
    lemma_int_range(0, k as int);
    let name = |j: int| numbered_id(j as nat);
    assert(injective_on(name, numbers)) by {
        assert forall|x: int, y: int|
            numbers.contains(x) && numbers.contains(y) && #[trigger] name(x) == #[trigger] name(
                y,
            ) implies x == y by {
            lemma_numbered_ids_differ(x as nat, y as nat);
        }
    }
    let names = numbers.map(name);
    lemma_map_size(numbers, names, name);
    assert(names.subset_of(keys)) by {
        assert forall|key: Seq<char>| names.contains(key) implies keys.contains(key) by {
            let j = choose|j: int| numbers.contains(j) && name(j) == key;
            assert(keys.contains(numbered_id(j as nat)));
        }
    }
    lemma_len_subset(names, keys);
}

/// Writes the last `width` decimal digits of `n`, with leading zeros.
fn padded_decimal_string(n: u64, width: usize) -> (out: String)
    ensures
        out@ == padded_decimal(n as nat, width as nat),
    decreases width,
{
    if width == 0 {
        String::new()
    } else {
        let mut out = padded_decimal_string(n / 10, width - 1);
        out.append(digit_str(n % 10));
        assert(out@ =~= padded_decimal((n / 10) as nat, (width - 1) as nat).push(
            digit_char((n % 10) as int),
        ));
        out
    }
}

/// The identifier that carries the number `k`.
pub fn numbered_session_id(k: u64) -> (id: String)
    ensures
        id@ == numbered_id(k as nat),
        is_session_id(id@),
{
    proof {
        lemma_padded_decimal(k as nat, 20);
        lemma_numbered_id_shape(k as nat);
    }
    let digits = padded_decimal_string(k, 20);
    let mut id = String::from_str("00000000-0000-");
    id.append(digits.as_str().substring_char(0, 4));
    id.append("-");
    id.append(digits.as_str().substring_char(4, 8));
    id.append("-");
    id.append(digits.as_str().substring_char(8, 20));
    id
}

/// The capture session and the sessions already finished.
pub struct RecordingState<S> {
    phase: CapturePhase,
    metering: bool,
    sessions: SessionStore<S>,
}

impl<S> RecordingState<S> {
    /// The state's invariant, that of its store.
    pub closed spec fn wf(&self) -> bool {
        self.sessions.wf()
    }

    /// Where the capture session stands.
    pub closed spec fn phase(&self) -> CapturePhase {
        self.phase
    }

    /// Whether a level meter is to run.
    pub closed spec fn metering(&self) -> bool {
        self.metering
    }

    /// The finished sessions, by identifier.
    pub closed spec fn sessions(&self) -> Map<Seq<char>, Seq<S>> {
        self.sessions@
    }

    /// No session, no meter, nothing stored.
    pub fn new() -> (state: Self)
        ensures
            state.wf(),
            state.phase() == CapturePhase::Idle,
            !state.metering(),
            state.sessions() == Map::<Seq<char>, Seq<S>>::empty(),
    {
        RecordingState { phase: CapturePhase::Idle, metering: false, sessions: SessionStore::new() }
    }

    /// Whether a session is active, from the moment its start is admitted
    /// to the moment it is stopped or its device fails.
    pub fn is_recording(&self) -> (active: bool)
        ensures
            active == !(self.phase() is Idle),
    {
        match self.phase {
            CapturePhase::Idle => false,
            _ => true,
        }
    }

    /// The format of the running capture, once the device has reported it.
    pub fn format(&self) -> (format: Option<CaptureFormat>)
        ensures
            format == match self.phase() {
                CapturePhase::Recording { format } => Some(format),
                _ => None,
            },
    {
        match self.phase {
            CapturePhase::Recording { format } => Some(format),
            _ => None,
        }
    }

    /// Whether a level meter is to run.
    pub fn is_metering(&self) -> (on: bool)
        ensures
            on == self.metering(),
    {
        self.metering
    }

    /// The first step of a start. While a session is active the request is
    /// refused with `AlreadyRecording` and nothing changes; otherwise the
    /// session is marked active before any device work, and the caller goes
    /// on to open the device.
    pub fn begin_start(&mut self) -> (admitted: Result<(), PipelineError>)
        ensures
            final(self).phase() == phase_after_start_request(old(self).phase()),
            final(self).metering() == old(self).metering(),
            final(self).sessions() == old(self).sessions(),
            final(self).wf() == old(self).wf(),
            start_admitted(old(self).phase()) ==> admitted is Ok,
            !start_admitted(old(self).phase()) ==> admitted == Err::<(), PipelineError>(
                PipelineError::AlreadyRecording,
            ) && *final(self) == *old(self),
    {
        match self.phase {
            CapturePhase::Idle => {
                self.phase = CapturePhase::Starting;
                Ok(())
            },
            _ => Err(PipelineError::AlreadyRecording),
        }
    }

    /// The second step of a start: what the capture thread reported.
    ///
    /// While starting, a format makes the session a recording one with a
    /// level meter, and a failure ends it, so that no active flag is left
    /// behind; the failure is returned as a device error. In any other
    /// phase there is no start to complete: `NotRecording`, and nothing
    /// changes.
    pub fn complete_start(&mut self, answer: Result<CaptureFormat, DeviceFailure>) -> (started: Result<
        CaptureFormat,
        PipelineError,
    >)
        ensures
            final(self).sessions() == old(self).sessions(),
            final(self).wf() == old(self).wf(),
            final(self).phase() == phase_after_device_answer(
                old(self).phase(),
                match answer {
                    Ok(format) => Some(format),
                    Err(_) => None,
                },
            ),
            match (old(self).phase(), answer) {
                (CapturePhase::Starting, Ok(format)) => started == Ok::<
                    CaptureFormat,
                    PipelineError,
                >(format) && final(self).metering(),
                (CapturePhase::Starting, Err(failure)) => {
                    &&& started matches Err(error)
                    &&& reports_failure(error, failure)
                    &&& !final(self).metering()
                },
                _ => started == Err::<CaptureFormat, PipelineError>(PipelineError::NotRecording)
                    && *final(self) == *old(self),
            },
    {
        match self.phase {
            CapturePhase::Starting => match answer {
                Ok(format) => {
                    self.phase = CapturePhase::Recording { format };
                    self.metering = true;
                    Ok(format)
                },
                Err(failure) => {
                    self.phase = CapturePhase::Idle;
                    self.metering = false;
                    Err(report_failure(failure))
                },
            },
            _ => Err(PipelineError::NotRecording),
        }
    }

    /// The first step of a stop. The level meter is told to end in any
    /// case. Without an active session the answer is `NotRecording`. A
    /// session whose device has not answered yet ends with
    /// `NoAudioCaptured`, since it has no buffer. Otherwise the session
    /// ends and its format is returned; the caller signals the capture
    /// thread, waits for the grace period and takes the raw samples.
    pub fn begin_stop(&mut self) -> (stopped: Result<CaptureFormat, PipelineError>)
        ensures
            final(self).phase() == CapturePhase::Idle,
            !final(self).metering(),
            final(self).sessions() == old(self).sessions(),
            final(self).wf() == old(self).wf(),
            stopped == match old(self).phase() {
                CapturePhase::Idle => Err::<CaptureFormat, PipelineError>(
                    PipelineError::NotRecording,
                ),
                CapturePhase::Starting => Err::<CaptureFormat, PipelineError>(
                    PipelineError::NoAudioCaptured,
                ),
                CapturePhase::Recording { format } => Ok::<CaptureFormat, PipelineError>(format),
            },
    {
        self.metering = false;
        let phase = self.phase;
        self.phase = CapturePhase::Idle;
        match phase {
            CapturePhase::Idle => Err(PipelineError::NotRecording),
            CapturePhase::Starting => Err(PipelineError::NoAudioCaptured),
            CapturePhase::Recording { format } => Ok(format),
        }
    }

    /// Files a finished recording under a given identifier. The result
    /// names the session, counts its samples and gives their duration at
    /// 16 kHz.
    pub fn store_session(&mut self, session_id: String, processed: Vec<S>) -> (result: StopResult)
        requires
            old(self).wf(),
        ensures
            final(self).wf(),
            final(self).phase() == old(self).phase(),
            final(self).metering() == old(self).metering(),
            final(self).sessions() == old(self).sessions().insert(session_id@, processed@),
            result.session_id@ == session_id@,
            result.sample_count == processed@.len(),
            result.duration_ms == duration_ms_of(processed@.len()),
    {
        let sample_count = processed.len();
        let result = StopResult {
            session_id: session_id.clone(),
            duration_ms: duration_ms(sample_count),
            sample_count,
        };
        self.sessions.insert(session_id, processed);
        result
    }

    /// Settles the identifier of a new session, given the one that was
    /// drawn for it. The drawn identifier is taken unless a session is
    /// filed under it already; in that case the numbered identifiers are
    /// tried in turn and the first free one is taken. The identifier handed
    /// back is never one that a session is filed under.
    pub fn unused_session_id(&self, drawn: String) -> (id: String)
        requires
            self.wf(),
        ensures
            is_unused_id(id@, drawn@, self.sessions()),
            is_session_id(drawn@) ==> is_session_id(id@),
    {
        if !self.sessions.contains(drawn.as_str()) {
            return drawn;
        }
        let in_use = self.sessions.len();
        let mut k: usize = 0;
        loop
            invariant
                self.wf(),
                in_use == self.sessions().len(),
                self.sessions().dom().finite(),
                self.sessions().contains_key(drawn@),
                k <= in_use,
                forall|j: nat| j < k ==> self.sessions().contains_key(#[trigger] numbered_id(j)),
            decreases in_use - k,
        {
            let candidate = numbered_session_id(k as u64);
            if !self.sessions.contains(candidate.as_str()) {
                return candidate;
            }
            proof {
                lemma_numbered_ids_run_out(self.sessions().dom(), (k + 1) as nat);
            }
            k += 1;
        }
    }

    /// The second step of a stop: `raw_count` raw samples were taken from
    /// the buffer and `processed` is what preprocessing made of them.
    ///
    /// With no raw sample the stop fails with `NoAudioCaptured` and nothing
    /// is stored. Otherwise the recording is filed under a new identifier,
    /// one that no stored session carries, whatever that identifier turns
    /// out to be.
    pub fn finish_stop(&mut self, raw_count: usize, processed: Vec<S>) -> (finished: Result<
        StopResult,
        PipelineError,
    >)
        requires
            old(self).wf(),
        ensures
            final(self).wf(),
            final(self).phase() == old(self).phase(),
            final(self).metering() == old(self).metering(),
            raw_count == 0 ==> finished == Err::<StopResult, PipelineError>(
                PipelineError::NoAudioCaptured,
            ) && final(self).sessions() == old(self).sessions(),
            raw_count != 0 ==> {
                &&& finished matches Ok(result)
                &&& final(self).sessions() == old(self).sessions().insert(
                    result.session_id@,
                    processed@,
                )
                &&& result.sample_count == processed@.len()
                &&& result.duration_ms == duration_ms_of(processed@.len())
                &&& is_session_id(result.session_id@)
                &&& !old(self).sessions().contains_key(result.session_id@)
            },
    {
        if raw_count == 0 {
            return Err(PipelineError::NoAudioCaptured);
        }
        let session_id = self.unused_session_id(fresh_session_id());
        Ok(self.store_session(session_id, processed))
    }

    /// Starts a recording. `open_device` does the device work: it opens
    /// the input device on a thread of its own, waits for that thread's
    /// report and returns it.
    ///
    /// While a session is active the start is refused with
    /// `AlreadyRecording` before any device work, and nothing changes.
    /// Otherwise the session becomes a recording one in the format that the
    /// device reported, or, where the device failed, ends again with the
    /// failure as a device error.
    pub fn start_recording<F>(&mut self, open_device: F) -> (started: Result<
        CaptureFormat,
        PipelineError,
    >) where F: FnOnce() -> Result<CaptureFormat, DeviceFailure>
        requires
            open_device.requires(()),
        ensures
            final(self).sessions() == old(self).sessions(),
            final(self).wf() == old(self).wf(),
            !start_admitted(old(self).phase()) ==> started == Err::<CaptureFormat, PipelineError>(
                PipelineError::AlreadyRecording,
            ) && *final(self) == *old(self),
            start_admitted(old(self).phase()) ==> exists|answer: Result<CaptureFormat, DeviceFailure>|
                #[trigger] open_device.ensures((), answer) && match answer {
                    Ok(format) => {
                        &&& started == Ok::<CaptureFormat, PipelineError>(format)
                        &&& final(self).phase() == (CapturePhase::Recording { format })
                        &&& final(self).metering()
                    },
                    Err(failure) => {
                        &&& started matches Err(error)
                        &&& reports_failure(error, failure)
                        &&& final(self).phase() == CapturePhase::Idle
                        &&& !final(self).metering()
                    },
                },
    {
        match self.begin_start() {
            Ok(_) => {},
            Err(refused) => {
                return Err(refused);
            },
        }
        let answer = open_device();
        self.complete_start(answer)
    }

    /// Stops the recording. `take_raw` ends the capture: it signals the
    /// capture thread, waits for the grace period and takes the raw samples
    /// out of the buffer. `preprocess` is the signal chain.
    ///
    /// Without an active session the stop fails with `NotRecording`, and
    /// with `NoAudioCaptured` where the device had not answered yet or
    /// where no sample was captured. Otherwise what `preprocess` made of
    /// the raw samples is filed under a new identifier. In every case no
    /// session is active afterwards and the level meter is told to end.
    pub fn stop_recording<F, G>(&mut self, take_raw: F, preprocess: G) -> (stopped: Result<
        StopResult,
        PipelineError,
    >) where F: FnOnce() -> Vec<S>, G: FnOnce(Vec<S>, CaptureFormat) -> Vec<S>
        requires
            old(self).wf(),
            take_raw.requires(()),
            forall|raw: Vec<S>, format: CaptureFormat| preprocess.requires((raw, format)),
        ensures
            final(self).wf(),
            final(self).phase() == CapturePhase::Idle,
            !final(self).metering(),
            match old(self).phase() {
                CapturePhase::Idle => stopped == Err::<StopResult, PipelineError>(
                    PipelineError::NotRecording,
                ) && final(self).sessions() == old(self).sessions(),
                CapturePhase::Starting => stopped == Err::<StopResult, PipelineError>(
                    PipelineError::NoAudioCaptured,
                ) && final(self).sessions() == old(self).sessions(),
                CapturePhase::Recording { format } => exists|raw: Vec<S>|
                    #[trigger] take_raw.ensures((), raw) && if raw@.len() == 0 {
                        stopped == Err::<StopResult, PipelineError>(PipelineError::NoAudioCaptured)
                            && final(self).sessions() == old(self).sessions()
                    } else {
                        exists|processed: Vec<S>|
                            {
                                &&& #[trigger] preprocess.ensures((raw, format), processed)
                                &&& stopped matches Ok(result)
                                &&& final(self).sessions() == old(self).sessions().insert(
                                    result.session_id@,
                                    processed@,
                                )
                                &&& result.sample_count == processed@.len()
                                &&& result.duration_ms == duration_ms_of(processed@.len())
                                &&& is_session_id(result.session_id@)
                                &&& !old(self).sessions().contains_key(result.session_id@)
                            }
                    },
            },
    {
        let format = match self.begin_stop() {
            Ok(format) => format,
            Err(refused) => {
                return Err(refused);
            },
        };
        let raw = take_raw();
        let raw_count = raw.len();
        if raw_count == 0 {
            return self.finish_stop(0, raw);
        }
        let ghost taken = raw;
        let processed = preprocess(raw, format);
        let ghost made = processed;
        let stopped = self.finish_stop(raw_count, processed);
        assert(preprocess.ensures((taken, format), made));
        stopped
    }

    /// Files audio that was read from a file, under a new identifier, one
    /// that no stored session carries, and returns the identifier.
    pub fn import_session(&mut self, processed: Vec<S>) -> (session_id: String)
        requires
            old(self).wf(),
        ensures
            final(self).wf(),
            final(self).phase() == old(self).phase(),
            final(self).metering() == old(self).metering(),
            final(self).sessions() == old(self).sessions().insert(session_id@, processed@),
            is_session_id(session_id@),
            !old(self).sessions().contains_key(session_id@),
    {
        let session_id = self.unused_session_id(fresh_session_id());
        let filed = session_id.clone();
        self.sessions.insert(filed, processed);
        session_id
    }
}

/// The audio of a session, which stays stored.
pub fn get_session_audio<'a, S>(state: &'a RecordingState<S>, session_id: &str) -> (audio: Option<
    &'a Vec<S>,
>)
    requires
        state.wf(),
    ensures
        match audio {
            Some(samples) => state.sessions().contains_key(session_id@) && samples@
                == state.sessions()[session_id@],
            None => !state.sessions().contains_key(session_id@),
        },
{
    state.sessions.get(session_id)
}

/// Files `samples` under `session_id`, in place of what was filed there.
pub fn insert_session_audio<S>(state: &mut RecordingState<S>, session_id: &str, samples: Vec<S>)
    requires
        old(state).wf(),
    ensures
        final(state).wf(),
        final(state).phase() == old(state).phase(),
        final(state).metering() == old(state).metering(),
        final(state).sessions() == old(state).sessions().insert(session_id@, samples@),
{
    state.sessions.insert(String::from_str(session_id), samples);
}

/// Takes the audio of a session out of the store, to free its memory once
/// it has been transcribed.
pub fn take_session_audio<S>(state: &mut RecordingState<S>, session_id: &str) -> (audio: Option<
    Vec<S>,
>)
    requires
        old(state).wf(),
    ensures
        final(state).wf(),
        final(state).phase() == old(state).phase(),
        final(state).metering() == old(state).metering(),
        final(state).sessions() == old(state).sessions().remove(session_id@),
        match audio {
            Some(samples) => old(state).sessions().contains_key(session_id@) && samples@ == old(
                state,
            ).sessions()[session_id@],
            None => !old(state).sessions().contains_key(session_id@),
        },
{
    state.sessions.take(session_id)
}

/// A start that is requested while a session is active, at whatever point
/// of its life, is not admitted and leaves the session where it stands:
/// after an admitted start, and after the device's format, a second request
/// changes nothing.
pub proof fn lemma_second_start_refused(phase: CapturePhase, format: CaptureFormat)
    requires
        start_admitted(phase),
    ensures
        !start_admitted(phase_after_start_request(phase)),
        phase_after_start_request(phase_after_start_request(phase)) == phase_after_start_request(
            phase,
        ),
        !start_admitted(
            phase_after_device_answer(phase_after_start_request(phase), Some(format)),
        ),
        phase_after_start_request(
            phase_after_device_answer(phase_after_start_request(phase), Some(format)),
        ) == (CapturePhase::Recording { format }),
{
}

/// A start whose device fails leaves no session behind: the next start is
/// admitted again.
pub proof fn lemma_failed_start_leaves_idle(phase: CapturePhase)
    requires
        start_admitted(phase),
    ensures
        start_admitted(phase_after_device_answer(phase_after_start_request(phase), None)),
{
}

} // verus!
