//! The mixing engine.
//!
//! The engine owns the consumer side of both sample channels. On each
//! pass it drains the master source — the microphone when that source is
//! enabled, because it is hardware-clocked, otherwise the desktop source —
//! and pairs every master sample with one sample popped from the other
//! channel. When the other source is disabled or has nothing queued, the
//! engine substitutes silence rather than waiting: the master source never
//! stalls on the bursty desktop-capture delivery. Each pair is mixed
//! additively, hard-clipped, metered, and appended to the output block.

use vstd::math::min;
use vstd::prelude::*;
use crate::channel::{offer_all, SampleChannel};
use crate::format::{normalize_spec, BufferLayout};
use crate::level::{meter_fold, LevelMeter, MeterView};
use crate::sample::{clip, in_range, mix};

verus! {

/// The mathematical state of the mixing engine: both queues, their
/// capacities, the per-session enable flags, and the meter.
pub struct MixerView {
    pub sys: Seq<i32>,
    pub mic: Seq<i32>,
    pub sys_cap: nat,
    pub mic_cap: nat,
    pub sys_enabled: bool,
    pub mic_enabled: bool,
    pub meter: MeterView,
}

/// The sample the other source contributes at tick `i`: its queued sample
/// if it has one, silence otherwise.
pub open spec fn silence_at(other: Seq<i32>, i: int) -> int {
    if 0 <= i < other.len() {
        other[i] as int
    } else {
        0
    }
}

/// One master block mixed against the other source, tick-aligned, with
/// silence substituted for missing ticks, hard-clipped.
pub open spec fn mix_block(master: Seq<i32>, other: Seq<i32>) -> Seq<i32> {
    Seq::new(master.len(), |i: int| clip(master[i] as int + silence_at(other, i)) as i32)
}

/// The master source's queue: the microphone paces the mix when enabled,
/// else the desktop source, else nothing.
pub open spec fn master_feed(m: MixerView) -> Seq<i32> {
    if m.mic_enabled {
        m.mic
    } else if m.sys_enabled {
        m.sys
    } else {
        Seq::empty()
    }
}

/// The opportunistic source's queue: the desktop source, when both are
/// enabled; otherwise nothing contributes (disabled sources are silence).
pub open spec fn other_feed(m: MixerView) -> Seq<i32> {
    if m.mic_enabled && m.sys_enabled {
        m.sys
    } else {
        Seq::empty()
    }
}

/// Everything one processing pass writes out.
pub open spec fn process_output(m: MixerView) -> Seq<i32> {
    mix_block(master_feed(m), other_feed(m))
}

/// The engine state after one processing pass: the master queue drained,
/// the other queue consumed tick for tick as far as it reached, and the
/// meter folded over the output.
pub open spec fn mixer_after_process(m: MixerView) -> MixerView {
    MixerView {
        mic: if m.mic_enabled {
            Seq::empty()
        } else {
            m.mic
        },
        sys: if m.mic_enabled && m.sys_enabled {
            m.sys.skip(min(m.mic.len() as int, m.sys.len() as int))
        } else if !m.mic_enabled && m.sys_enabled {
            Seq::empty()
        } else {
            m.sys
        },
        meter: meter_fold(m.meter, process_output(m)),
        ..m
    }
}

/// A chunk delivered by the desktop-capture adapter: dropped whole while
/// the session is paused, otherwise normalized and offered to the queue.
pub open spec fn system_delivery(
    m: MixerView,
    samples: Seq<i32>,
    layout: BufferLayout,
    paused: bool,
) -> MixerView {
    if paused {
        m
    } else {
        MixerView { sys: offer_all(m.sys, m.sys_cap, normalize_spec(samples, layout)), ..m }
    }
}

/// A chunk delivered by the microphone adapter: dropped whole while the
/// session is paused, otherwise offered verbatim to the queue.
pub open spec fn mic_delivery(m: MixerView, samples: Seq<i32>, paused: bool) -> MixerView {
    if paused {
        m
    } else {
        MixerView { mic: offer_all(m.mic, m.mic_cap, samples), ..m }
    }
}

/// When only the microphone contributes — the desktop source disabled or
/// silent for the whole pass — every mixed sample equals the microphone
/// sample unmodified.
pub proof fn lemma_silence_substitution(m: MixerView)
    requires
        m.mic_enabled,
        !m.sys_enabled || m.sys.len() == 0,
        forall|i: int| 0 <= i < m.mic.len() ==> in_range(#[trigger] m.mic[i] as int),
    ensures
        process_output(m) == m.mic,
{
    assert(process_output(m) =~= m.mic);
}

/// The mixing engine: both channel consumers, the enable flags, and the
/// loudness meter.
pub struct AudioMixer {
    sys: SampleChannel,
    mic: SampleChannel,
    sys_enabled: bool,
    mic_enabled: bool,
    meter: LevelMeter,
}

impl View for AudioMixer {
    type V = MixerView;

    closed spec fn view(&self) -> MixerView {
        MixerView {
            sys: self.sys@,
            mic: self.mic@,
            sys_cap: self.sys.cap(),
            mic_cap: self.mic.cap(),
            sys_enabled: self.sys_enabled,
            mic_enabled: self.mic_enabled,
            meter: self.meter@,
        }
    }
}

impl AudioMixer {
    /// A fresh engine with empty channels of the given capacity.
    pub fn new(sys_enabled: bool, mic_enabled: bool, capacity: usize) -> (m: AudioMixer)
        requires
            capacity >= 1,
        ensures
            m@ == (MixerView {
                sys: Seq::<i32>::empty(),
                mic: Seq::<i32>::empty(),
                sys_cap: capacity as nat,
                mic_cap: capacity as nat,
                sys_enabled,
                mic_enabled,
                meter: MeterView { sum_sq: 0, count: 0, level: 0 },
            }),
    {
        AudioMixer {
            sys: SampleChannel::new(capacity),
            mic: SampleChannel::new(capacity),
            sys_enabled,
            mic_enabled,
            meter: LevelMeter::new(),
        }
    }

    /// Whether the microphone source is enabled for this session.
    pub fn mic_on(&self) -> (b: bool)
        ensures
            b == self@.mic_enabled,
    {
        self.mic_enabled
    }

    /// Whether the desktop source is enabled for this session.
    pub fn sys_on(&self) -> (b: bool)
        ensures
            b == self@.sys_enabled,
    {
        self.sys_enabled
    }

    /// The most recently published loudness level.
    pub fn level(&self) -> (l: u64)
        ensures
            l == self@.meter.level,
    {
        self.meter.level()
    }

    /// Whether the master source has anything queued; when it does not,
    /// the worker sleeps briefly instead of spinning.
    pub fn master_idle(&self) -> (idle: bool)
        ensures
            idle == (master_feed(self@).len() == 0),
    {
        if self.mic_enabled {
            self.mic.is_empty()
        } else if self.sys_enabled {
            self.sys.is_empty()
        } else {
            true
        }
    }

    /// Accept one chunk from the desktop-capture adapter.
    pub fn accept_system(&mut self, samples: &Vec<i32>, layout: BufferLayout, paused: bool)
        ensures
            final(self)@ == system_delivery(old(self)@, samples@, layout, paused),
    {
        if !paused {
            let normalized = crate::format::normalize_buffer(samples, layout);
            self.sys.push_all(&normalized);
        }
    }

    /// Accept one chunk from the microphone adapter.
    pub fn accept_mic(&mut self, samples: &Vec<i32>, paused: bool)
        ensures
            final(self)@ == mic_delivery(old(self)@, samples@, paused),
    {
        if !paused {
            self.mic.push_all(samples);
        }
    }

    /// One processing pass: drain the master source, mix each of its
    /// samples against the other source (silence on underrun), meter the
    /// result, and return the mixed block in order.
    pub fn process(&mut self) -> (out: Vec<i32>)
        ensures
            final(self)@ == mixer_after_process(old(self)@),
            out@ == process_output(old(self)@),
    {
        let ghost m0 = self@;
        let mut out: Vec<i32> = Vec::new();
        if self.mic_enabled {
            while !self.mic.is_empty()
                invariant
                    self.mic_enabled == m0.mic_enabled,
                    self.sys_enabled == m0.sys_enabled,
                    m0.mic_enabled,
                    self.mic.cap() == m0.mic_cap,
                    self.sys.cap() == m0.sys_cap,
                    out@.len() <= m0.mic.len(),
                    self.mic@ == m0.mic.skip(out@.len() as int),
                    self.sys@ == if m0.sys_enabled {
                        m0.sys.skip(min(out@.len() as int, m0.sys.len() as int))
                    } else {
                        m0.sys
                    },
                    forall|j: int|
                        0 <= j < out@.len() ==> #[trigger] out@[j] as int == clip(
                            m0.mic[j] as int + silence_at(other_feed(m0), j),
                        ),
                    self.meter@ == meter_fold(m0.meter, out@),
                decreases self.mic@.len(),
            {
                let ghost k = out@.len() as int;
                let master = match self.mic.pop() {
                    Some(v) => v,
                    None => 0,
                };
                assert(master == m0.mic[k]);
                assert(self.mic@ =~= m0.mic.skip(k + 1));
                let other = if self.sys_enabled {
                    match self.sys.pop() {
                        Some(v) => v,
                        None => 0,
                    }
                } else {
                    0
                };
                proof {
                    if m0.sys_enabled {
                        if k < m0.sys.len() {
                            assert(other == m0.sys[k]);
                            assert(self.sys@ =~= m0.sys.skip(min(k + 1, m0.sys.len() as int)));
                        } else {
                            assert(other == 0);
                            assert(self.sys@ =~= m0.sys.skip(min(k + 1, m0.sys.len() as int)));
                        }
                    }
                    assert(other as int == silence_at(other_feed(m0), k));
                }
                let mixed = mix(master, other);
                self.meter.add_sample(mixed);
                proof {
                    crate::level::lemma_meter_fold_push(m0.meter, out@, mixed);
                }
                out.push(mixed);
            }
            proof {
                assert(out@.len() == m0.mic.len());
                assert(out@ =~= process_output(m0));
                assert(self@.sys =~= mixer_after_process(m0).sys);
                assert(self@.mic =~= mixer_after_process(m0).mic);
                assert(self@ == mixer_after_process(m0));
            }
        } else if self.sys_enabled {
            while !self.sys.is_empty()
                invariant
                    self.mic_enabled == m0.mic_enabled,
                    self.sys_enabled == m0.sys_enabled,
                    !m0.mic_enabled,
                    m0.sys_enabled,
                    self.mic.cap() == m0.mic_cap,
                    self.sys.cap() == m0.sys_cap,
                    self.mic@ == m0.mic,
                    out@.len() <= m0.sys.len(),
                    self.sys@ == m0.sys.skip(out@.len() as int),
                    forall|j: int|
                        0 <= j < out@.len() ==> #[trigger] out@[j] as int == clip(m0.sys[j] as int),
                    self.meter@ == meter_fold(m0.meter, out@),
                decreases self.sys@.len(),
            {
                let ghost k = out@.len() as int;
                let master = match self.sys.pop() {
                    Some(v) => v,
                    None => 0,
                };
                assert(master == m0.sys[k]);
                assert(self.sys@ =~= m0.sys.skip(k + 1));
                let mixed = mix(master, 0);
                self.meter.add_sample(mixed);
                proof {
                    crate::level::lemma_meter_fold_push(m0.meter, out@, mixed);
                }
                out.push(mixed);
            }
            proof {
                assert(out@.len() == m0.sys.len());
                assert(out@ =~= process_output(m0));
                assert(self@.sys =~= mixer_after_process(m0).sys);
                assert(self@ == mixer_after_process(m0));
            }
        } else {
            proof {
                assert(process_output(m0) =~= Seq::<i32>::empty());
                assert(out@ =~= process_output(m0));
                assert(self@ == mixer_after_process(m0));
            }
        }
        out
    }
}

} // verus!
