//! The recording session controller.
//!
//! At most one session is active at a time. `start_recording` wires a
//! fresh pipeline — two empty channels, the mixing engine, a fresh
//! encoder — and records the start time; `pause_recording` and
//! `resume_recording` flip the flag the adapters consult before queueing;
//! `switch_microphone` rebinds the microphone source to another device
//! without touching either channel or the desktop source;
//! `stop_recording` tears the session down and finalizes the encoder
//! exactly once. The platform layer feeds captured chunks in through
//! `deliver_system_chunk` and `deliver_mic_chunk` and drives the mixing
//! worker through `process`.

use vstd::prelude::*;
use crate::encoder::{counter_add, EncoderView, StreamEncoder};
use crate::error::AppError;
use crate::format::BufferLayout;
use crate::level::MeterView;
use crate::mixer::{
    mic_delivery, mixer_after_process, process_output, system_delivery, AudioMixer, MixerView,
};

verus! {

/// Samples each channel can hold: about two seconds of interleaved
/// stereo at 48 kHz.
pub const CHANNEL_CAPACITY: usize = 192000;

/// Which input device the microphone source should use.
pub enum MicSelector {
    /// No microphone source for this session.
    Disabled,
    /// The platform's default input device.
    SystemDefault,
    /// An input device chosen by name.
    Named(String),
}

/// The mathematical value of a device selector.
pub enum MicSelectorView {
    Disabled,
    SystemDefault,
    Named(Seq<char>),
}

impl View for MicSelector {
    type V = MicSelectorView;

    closed spec fn view(&self) -> MicSelectorView {
        match self {
            MicSelector::Disabled => MicSelectorView::Disabled,
            MicSelector::SystemDefault => MicSelectorView::SystemDefault,
            MicSelector::Named(name) => MicSelectorView::Named(name@),
        }
    }
}

/// Whether a selector asks for a microphone source at all.
pub open spec fn mic_source_enabled(s: MicSelectorView) -> bool {
    !(s is Disabled)
}

impl MicSelector {
    /// Whether this selector asks for a microphone source at all.
    pub fn is_enabled(&self) -> (e: bool)
        ensures
            e == mic_source_enabled(self@),
    {
        match self {
            MicSelector::Disabled => false,
            _ => true,
        }
    }
}

/// The mathematical state of one active session.
pub struct SessionView {
    pub mixer: MixerView,
    pub encoder: EncoderView,
    pub paused: bool,
    pub start_ms: int,
    pub output_path: Seq<char>,
    pub mic_device: MicSelectorView,
}

/// The mathematical state of the controller: the active session, if any,
/// and how many times an encoder has been finalized over its lifetime.
pub struct RecorderView {
    pub session: Option<SessionView>,
    pub finalize_calls: int,
}

/// The session `start_recording` wires for the given request.
pub open spec fn fresh_session(
    path: Seq<char>,
    mic: MicSelectorView,
    capture_system_audio: bool,
    now_ms: int,
) -> SessionView {
    SessionView {
        mixer: MixerView {
            sys: Seq::<i32>::empty(),
            mic: Seq::<i32>::empty(),
            sys_cap: CHANNEL_CAPACITY as nat,
            mic_cap: CHANNEL_CAPACITY as nat,
            sys_enabled: capture_system_audio,
            mic_enabled: mic_source_enabled(mic),
            meter: MeterView { sum_sq: 0, count: 0, level: 0 },
        },
        encoder: EncoderView { samples_written: 0, finalized: false },
        paused: false,
        start_ms: now_ms,
        output_path: path,
        mic_device: mic,
    }
}

/// The controller after a successful start.
pub open spec fn start_spec(
    r: RecorderView,
    path: Seq<char>,
    mic: MicSelectorView,
    capture_system_audio: bool,
    now_ms: int,
) -> RecorderView {
    RecorderView {
        session: Some(fresh_session(path, mic, capture_system_audio, now_ms)),
        finalize_calls: r.finalize_calls,
    }
}

/// The controller after a successful stop: the session is gone and the
/// encoder has been finalized exactly once more. The lifetime counter
/// saturates at its machine limit.
pub open spec fn stop_spec(r: RecorderView) -> RecorderView {
    RecorderView { session: None, finalize_calls: counter_add(r.finalize_calls, 1) }
}

/// The duration a stop reports: elapsed wall-clock time from the recorded
/// start, and zero if the clock appears to have moved backwards.
pub open spec fn stop_duration(s: SessionView, now_ms: int) -> int {
    if now_ms >= s.start_ms {
        now_ms - s.start_ms
    } else {
        0
    }
}

/// The controller with the paused flag set as given; without an active
/// session there is nothing to flip.
pub open spec fn set_paused_spec(r: RecorderView, paused: bool) -> RecorderView {
    match r.session {
        None => r,
        Some(s) => RecorderView { session: Some(SessionView { paused, ..s }), ..r },
    }
}

/// The controller after a microphone hot-swap: only the device binding
/// changes — both channels, the desktop source and the encoder stay as
/// they are.
pub open spec fn switch_mic_spec(r: RecorderView, sel: MicSelectorView) -> RecorderView {
    match r.session {
        None => r,
        Some(s) => RecorderView { session: Some(SessionView { mic_device: sel, ..s }), ..r },
    }
}

/// The controller after the desktop adapter delivers one chunk.
pub open spec fn deliver_system_spec(
    r: RecorderView,
    samples: Seq<i32>,
    layout: BufferLayout,
) -> RecorderView {
    match r.session {
        None => r,
        Some(s) => RecorderView {
            session: Some(SessionView { mixer: system_delivery(s.mixer, samples, layout, s.paused), ..s }),
            ..r
        },
    }
}

/// The controller after the microphone adapter delivers one chunk.
pub open spec fn deliver_mic_spec(r: RecorderView, samples: Seq<i32>) -> RecorderView {
    match r.session {
        None => r,
        Some(s) => RecorderView {
            session: Some(SessionView { mixer: mic_delivery(s.mixer, samples, s.paused), ..s }),
            ..r
        },
    }
}

/// The controller after one pass of the mixing worker.
pub open spec fn process_spec(r: RecorderView) -> RecorderView {
    match r.session {
        None => r,
        Some(s) => RecorderView {
            session: Some(
                SessionView {
                    mixer: mixer_after_process(s.mixer),
                    encoder: EncoderView {
                        samples_written: counter_add(
                            s.encoder.samples_written,
                            process_output(s.mixer).len() as int,
                        ),
                        finalized: s.encoder.finalized,
                    },
                    ..s
                },
            ),
            ..r
        },
    }
}

/// The block one pass of the mixing worker hands to the encoder.
pub open spec fn process_result(r: RecorderView) -> Seq<i32> {
    match r.session {
        None => Seq::<i32>::empty(),
        Some(s) => process_output(s.mixer),
    }
}

/// For every combination of enabled sources — both, either one, or
/// neither — a start on an idle controller yields a session, and the
/// stop that follows ends it, finalizes the encoder exactly once, and
/// reports a nonnegative duration. The contracts of `start_recording`
/// and `stop_recording` promise that both calls return success.
pub proof fn lemma_start_then_stop(
    r: RecorderView,
    path: Seq<char>,
    mic: MicSelectorView,
    capture_system_audio: bool,
    start_ms: int,
    stop_ms: int,
)
    requires
        r.session is None,
        0 <= r.finalize_calls < u64::MAX,
    ensures
        start_spec(r, path, mic, capture_system_audio, start_ms).session is Some,
        stop_spec(start_spec(r, path, mic, capture_system_audio, start_ms)).session is None,
        stop_spec(start_spec(r, path, mic, capture_system_audio, start_ms)).finalize_calls
            == r.finalize_calls + 1,
        stop_duration(
            start_spec(r, path, mic, capture_system_audio, start_ms).session->Some_0,
            stop_ms,
        ) >= 0,
{
}

/// While the session is paused, delivered chunks are consumed but reach
/// neither channel, so a paused span contributes no samples: the output
/// reflects only unpaused time.
pub proof fn lemma_paused_delivery_produces_nothing(
    r: RecorderView,
    samples: Seq<i32>,
    layout: BufferLayout,
)
    requires
        r.session matches Some(s) && s.paused,
    ensures
        deliver_system_spec(r, samples, layout) == r,
        deliver_mic_spec(r, samples) == r,
{
}

/// Once both channels are drained — as they are after a paused span has
/// outlasted the buffered audio — a worker pass hands the encoder
/// nothing and the count of written samples stands still.
pub proof fn lemma_empty_channels_write_nothing(r: RecorderView)
    requires
        r.session matches Some(s) && s.mixer.sys.len() == 0 && s.mixer.mic.len() == 0,
        0 <= r.session->Some_0.encoder.samples_written <= u64::MAX as int,
    ensures
        process_result(r).len() == 0,
        process_spec(r).session->Some_0.encoder.samples_written
            == r.session->Some_0.encoder.samples_written,
{
}

/// A microphone hot-swap only rebinds the device: both channels, the
/// desktop source, the meter and the encoder stay exactly as they were —
/// no channel is recreated and nothing restarts.
pub proof fn lemma_switch_preserves_pipeline(r: RecorderView, sel: MicSelectorView)
    requires
        r.session is Some,
    ensures
        switch_mic_spec(r, sel).session is Some,
        switch_mic_spec(r, sel).session->Some_0.mixer == r.session->Some_0.mixer,
        switch_mic_spec(r, sel).session->Some_0.encoder == r.session->Some_0.encoder,
        switch_mic_spec(r, sel).session->Some_0.mic_device == sel,
        switch_mic_spec(r, sel).finalize_calls == r.finalize_calls,
{
}

/// Stopping an active session finalizes its encoder exactly once and
/// ends the session; by the contract of `stop_recording`, any further
/// stop is an *Invalid State* error that changes nothing — in
/// particular, the finalize count stays where it is.
pub proof fn lemma_stop_finalizes_exactly_once(r: RecorderView)
    requires
        r.session is Some,
        0 <= r.finalize_calls < u64::MAX,
    ensures
        stop_spec(r).session is None,
        stop_spec(r).finalize_calls == r.finalize_calls + 1,
{
}

struct ActiveSession {
    mixer: AudioMixer,
    encoder: StreamEncoder,
    paused: bool,
    start_ms: u64,
    output_path: String,
    mic_device: MicSelector,
}

impl ActiveSession {
    #[verifier::type_invariant]
    spec fn well_formed(&self) -> bool {
        !self.encoder@.finalized
    }

    spec fn view(&self) -> SessionView {
        SessionView {
            mixer: self.mixer@,
            encoder: self.encoder@,
            paused: self.paused,
            start_ms: self.start_ms as int,
            output_path: self.output_path@,
            mic_device: self.mic_device@,
        }
    }
}

/// The session controller.
pub struct AudioRecorder {
    session: Option<ActiveSession>,
    finalize_calls: u64,
}

impl View for AudioRecorder {
    type V = RecorderView;

    closed spec fn view(&self) -> RecorderView {
        RecorderView {
            session: match self.session {
                None => None,
                Some(s) => Some(s.view()),
            },
            finalize_calls: self.finalize_calls as int,
        }
    }
}

impl AudioRecorder {
    /// A controller with no active session.
    pub fn new() -> (r: AudioRecorder)
        ensures
            r@ == (RecorderView { session: None, finalize_calls: 0 }),
    {
        AudioRecorder { session: None, finalize_calls: 0 }
    }

    /// Whether a session is active, whether it is paused, and when it
    /// started. A pure read; it never waits on the mixing worker.
    pub fn get_status(&self) -> (st: (bool, bool, Option<u64>))
        ensures
            st.0 == (self@.session is Some),
            self@.session matches Some(s) ==> st.1 == s.paused && st.2 == Some(
                s.start_ms as u64,
            ),
            self@.session is None ==> !st.1 && st.2 is None,
    {
        match &self.session {
            None => (false, false, None),
            Some(s) => (true, s.paused, Some(s.start_ms)),
        }
    }

    /// How many times this controller has finalized an encoder.
    pub fn finalize_calls(&self) -> (n: u64)
        ensures
            n == self@.finalize_calls,
    {
        self.finalize_calls
    }

    /// How many mixed samples the active session has written, if one is
    /// active.
    pub fn samples_written(&self) -> (n: Option<u64>)
        ensures
            self@.session matches Some(s) ==> n == Some(s.encoder.samples_written as u64),
            self@.session is None ==> n is None,
    {
        match &self.session {
            None => None,
            Some(s) => Some(s.encoder.samples_written()),
        }
    }

    /// The most recently published loudness level of the active session.
    pub fn current_level(&self) -> (l: Option<u64>)
        ensures
            self@.session matches Some(s) ==> l == Some(s.mixer.meter.level as u64),
            self@.session is None ==> l is None,
    {
        match &self.session {
            None => None,
            Some(s) => Some(s.mixer.level()),
        }
    }

    /// Begin a session: fails while one is already active, otherwise
    /// wires channels, mixing engine and encoder, computes the per-source
    /// enable flags, and records the start time. The platform layer opens
    /// the device streams afterwards; if that fails it rolls the session
    /// back with `abort_start`.
    pub fn start_recording(
        &mut self,
        output_path: String,
        mic_device: MicSelector,
        capture_system_audio: bool,
        now_ms: u64,
    ) -> (res: Result<(), AppError>)
        ensures
            old(self)@.session is Some ==> final(self)@ == old(self)@ && (res matches Err(e)
                && e is Logic),
            old(self)@.session is None ==> res is Ok && final(self)@ == start_spec(
                old(self)@,
                output_path@,
                mic_device@,
                capture_system_audio,
                now_ms as int,
            ),
    {
        match &self.session {
            Some(_) => Err(AppError::invalid_state("a recording session is already active")),
            None => {
                let mic_enabled = mic_device.is_enabled();
                self.session = Some(
                    ActiveSession {
                        mixer: AudioMixer::new(capture_system_audio, mic_enabled, CHANNEL_CAPACITY),
                        encoder: StreamEncoder::new(),
                        paused: false,
                        start_ms: now_ms,
                        output_path,
                        mic_device,
                    },
                );
                Ok(())
            },
        }
    }

    /// Roll back a session whose platform streams could not be opened:
    /// the channels and the engine are discarded and the encoder is not
    /// finalized — no partial session stays behind.
    pub fn abort_start(&mut self) -> (res: Result<(), AppError>)
        ensures
            old(self)@.session is None ==> final(self)@ == old(self)@ && (res matches Err(e)
                && e is Logic),
            old(self)@.session is Some ==> res is Ok && final(self)@ == (RecorderView {
                session: None,
                finalize_calls: old(self)@.finalize_calls,
            }),
    {
        match self.session.take() {
            None => Err(AppError::invalid_state("no recording session to roll back")),
            Some(_) => Ok(()),
        }
    }

    /// Stop pushing captured samples into the channels; the engine, the
    /// encoder and the device streams keep running, so paused spans
    /// simply do not appear in the output.
    pub fn pause_recording(&mut self)
        ensures
            final(self)@ == set_paused_spec(old(self)@, true),
    {
        match &mut self.session {
            None => {},
            Some(s) => {
                proof {
                    use_type_invariant(&*s);
                }
                s.paused = true;
            },
        }
    }

    /// Resume pushing captured samples into the channels.
    pub fn resume_recording(&mut self)
        ensures
            final(self)@ == set_paused_spec(old(self)@, false),
    {
        match &mut self.session {
            None => {},
            Some(s) => {
                proof {
                    use_type_invariant(&*s);
                }
                s.paused = false;
            },
        }
    }

    /// Rebind the microphone source to another input device. The platform
    /// layer verifies the device exists and opens its stream before
    /// calling this, so a failed lookup leaves the previous device
    /// untouched. The swap keeps the existing channel — the engine and
    /// the desktop source are not restarted and no second channel is
    /// created.
    pub fn switch_microphone(&mut self, selector: MicSelector) -> (res: Result<(), AppError>)
        ensures
            old(self)@.session is None ==> final(self)@ == old(self)@ && (res matches Err(e)
                && e is Logic),
            old(self)@.session matches Some(s) && !s.mixer.mic_enabled ==> final(self)@ == old(
                self,
            )@ && (res matches Err(e) && e is Logic),
            old(self)@.session matches Some(s) && s.mixer.mic_enabled && selector@ is Disabled
                ==> final(self)@ == old(self)@ && (res matches Err(e) && e is NotFound),
            old(self)@.session matches Some(s) && s.mixer.mic_enabled && !(selector@ is Disabled)
                ==> res is Ok && final(self)@ == switch_mic_spec(old(self)@, selector@),
    {
        match &mut self.session {
            None => Err(AppError::invalid_state("no active recording session")),
            Some(s) => {
                if !s.mixer.mic_on() {
                    Err(AppError::invalid_state("the session has no microphone source"))
                } else {
                    match selector {
                        MicSelector::Disabled => Err(
                            AppError::not_found("no input device was selected"),
                        ),
                        sel => {
                            proof {
                                use_type_invariant(&*s);
                            }
                            s.mic_device = sel;
                            Ok(())
                        },
                    }
                }
            },
        }
    }

    /// Accept one chunk from the desktop-capture callback. Consumed and
    /// dropped whole while the session is paused or after it stopped;
    /// otherwise normalized to interleaved stereo and queued.
    pub fn deliver_system_chunk(
        &mut self,
        samples: &Vec<i32>,
        desc: Option<crate::format::FormatDescriptor>,
    )
        ensures
            final(self)@ == deliver_system_spec(
                old(self)@,
                samples@,
                crate::format::layout_spec(desc),
            ),
    {
        match self.session.take() {
            None => {},
            Some(sess) => {
                proof {
                    use_type_invariant(&sess);
                }
                let ActiveSession { mut mixer, encoder, paused, start_ms, output_path, mic_device } =
                    sess;
                let layout = crate::format::layout_from_descriptor(desc);
                mixer.accept_system(samples, layout, paused);
                self.session = Some(
                    ActiveSession { mixer, encoder, paused, start_ms, output_path, mic_device },
                );
            },
        }
    }

    /// Accept one chunk from the microphone callback. Consumed and
    /// dropped whole while the session is paused or after it stopped;
    /// otherwise queued verbatim.
    pub fn deliver_mic_chunk(&mut self, samples: &Vec<i32>)
        ensures
            final(self)@ == deliver_mic_spec(old(self)@, samples@),
    {
        match self.session.take() {
            None => {},
            Some(sess) => {
                proof {
                    use_type_invariant(&sess);
                }
                let ActiveSession { mut mixer, encoder, paused, start_ms, output_path, mic_device } =
                    sess;
                mixer.accept_mic(samples, paused);
                self.session = Some(
                    ActiveSession { mixer, encoder, paused, start_ms, output_path, mic_device },
                );
            },
        }
    }

    /// One pass of the mixing worker: drain the master source, mix, hand
    /// the block to the encoder, and return it so the platform layer can
    /// write the same samples to the file, one for one.
    pub fn process(&mut self) -> (out: Vec<i32>)
        ensures
            final(self)@ == process_spec(old(self)@),
            out@ == process_result(old(self)@),
    {
        match self.session.take() {
            None => Vec::new(),
            Some(sess) => {
                proof {
                    use_type_invariant(&sess);
                }
                let ActiveSession { mut mixer, mut encoder, paused, start_ms, output_path, mic_device } =
                    sess;
                let out = mixer.process();
                encoder.write_block(&out);
                self.session = Some(
                    ActiveSession { mixer, encoder, paused, start_ms, output_path, mic_device },
                );
                out
            },
        }
    }

    /// End the session: tear the pipeline down, finalize the encoder
    /// exactly once, and report the elapsed duration in milliseconds and
    /// the output path. Without an active session this is an *Invalid
    /// State* error and nothing — in particular no finalize — happens.
    pub fn stop_recording(&mut self, now_ms: u64) -> (res: Result<(u64, String), AppError>)
        ensures
            old(self)@.session is None ==> final(self)@ == old(self)@ && (res matches Err(e)
                && e is Logic),
            old(self)@.session matches Some(s) ==> (res matches Ok((d, p)) && d as int
                == stop_duration(s, now_ms as int) && p@ == s.output_path && final(self)@
                == stop_spec(old(self)@)),
    {
        match self.session.take() {
            None => Err(AppError::invalid_state("no active recording session")),
            Some(sess) => {
                proof {
                    use_type_invariant(&sess);
                }
                let ActiveSession {
                    mixer: _mixer,
                    mut encoder,
                    paused: _paused,
                    start_ms,
                    output_path,
                    mic_device: _mic_device,
                } = sess;
                encoder.finalize();
                self.finalize_calls = self.finalize_calls.saturating_add(1);
                let duration = if now_ms >= start_ms {
                    now_ms - start_ms
                } else {
                    0
                };
                Ok((duration, output_path))
            },
        }
    }
}

} // verus!
