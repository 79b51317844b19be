//! The audio producer, modeled as a step machine.
//!
//! One producer instance exists per playing track. The driver loop around
//! it polls the control channel, reads raw PCM from the decoding
//! subprocess, encodes and sends frames, and paces itself; every decision
//! in that loop is taken here, as a transition of [`Producer::step`], so
//! that the machine fixes what happens on every event — in particular
//! that exactly one end-of-stream signal is emitted on every exit path.

use vstd::prelude::*;

use crate::audio::{
    decode_pcm_be, decoded_samples, scaled_frame, scaled_samples, EndReason, VolumeCurve,
};

verus! {

/// A control signal sent from the supervisor to the running producer.
#[derive(Clone, Copy, Debug, PartialEq, Eq, Structural)]
pub enum ProducerControl {
    Pause,
    Resume,
    Stop,
    /// The new volume, in percent (1..=100).
    SetVolume { percent: u8 },
}

/// Whether the producer is still producing or has emitted its terminal
/// signal.
#[derive(Clone, Copy, Debug, PartialEq, Eq, Structural)]
pub enum Phase {
    Running,
    Done,
}

/// The producer's state: its lifecycle phase, the pause flag, the volume
/// applied to subsequent frames, the volume curve policy, and the playing
/// time accumulated so far.
#[derive(Clone, Copy, Debug, PartialEq, Eq, Structural)]
pub struct Producer {
    pub phase: Phase,
    pub paused: bool,
    pub volume_percent: u8,
    pub curve: VolumeCurve,
    pub time_passed_ms: u64,
}

/// One observation the driver loop hands to the machine.
#[derive(Debug)]
pub enum ProducerEvent {
    /// The control channel was polled; `None` means no pending signal.
    ControlPolled(Option<ProducerControl>),
    /// One frame of raw big-endian PCM bytes was read from the decoder.
    SamplesRead(Vec<u8>),
    /// The decoder's output ended.
    ReadEnded,
    /// Reading from the decoder failed.
    ReadFailed,
    /// The last payload was sent on the frame channel.
    PayloadSent,
    /// Sending on the frame channel failed (receiver gone).
    SendFailed,
    /// A pipeline subprocess could not be started.
    SpawnFailed,
    /// Wall-clock time spent on the last iteration.
    TimeAdvanced(u64),
}

/// The mathematical shape of a [`ProducerEvent`].
pub enum ProducerEventModel {
    ControlPolled(Option<ProducerControl>),
    SamplesRead(Seq<u8>),
    ReadEnded,
    ReadFailed,
    PayloadSent,
    SendFailed,
    SpawnFailed,
    TimeAdvanced(u64),
}

impl View for ProducerEvent {
    type V = ProducerEventModel;

    open spec fn view(&self) -> ProducerEventModel {
        match self {
            ProducerEvent::ControlPolled(cmd) => ProducerEventModel::ControlPolled(*cmd),
            ProducerEvent::SamplesRead(bytes) => ProducerEventModel::SamplesRead(bytes@),
            ProducerEvent::ReadEnded => ProducerEventModel::ReadEnded,
            ProducerEvent::ReadFailed => ProducerEventModel::ReadFailed,
            ProducerEvent::PayloadSent => ProducerEventModel::PayloadSent,
            ProducerEvent::SendFailed => ProducerEventModel::SendFailed,
            ProducerEvent::SpawnFailed => ProducerEventModel::SpawnFailed,
            ProducerEvent::TimeAdvanced(ms) => ProducerEventModel::TimeAdvanced(*ms),
        }
    }
}

/// What the driver loop must do next.
#[derive(Debug)]
pub enum ProducerDirective {
    /// Go on: read the next frame, or continue the loop.
    Proceed,
    /// Paused: sleep briefly, then poll controls again without reading.
    HoldPaused,
    /// Encode these volume-scaled samples and send the resulting payload.
    EncodeFrame(Vec<i16>),
    /// Emit exactly this end-of-stream signal, terminate both
    /// subprocesses, and exit.
    EmitEnd(EndReason),
    /// The machine has already terminated; nothing is left to do.
    Idle,
}

/// The mathematical shape of a [`ProducerDirective`].
pub enum DirectiveModel {
    Proceed,
    HoldPaused,
    EncodeFrame(Seq<i16>),
    EmitEnd(EndReason),
    Idle,
}

impl View for ProducerDirective {
    type V = DirectiveModel;

    open spec fn view(&self) -> DirectiveModel {
        match self {
            ProducerDirective::Proceed => DirectiveModel::Proceed,
            ProducerDirective::HoldPaused => DirectiveModel::HoldPaused,
            ProducerDirective::EncodeFrame(samples) => DirectiveModel::EncodeFrame(samples@),
            ProducerDirective::EmitEnd(r) => DirectiveModel::EmitEnd(*r),
            ProducerDirective::Idle => DirectiveModel::Idle,
        }
    }
}

/// A volume request carried by an event stays within 0..=100 percent.
pub open spec fn event_wf(ev: ProducerEventModel) -> bool {
    match ev {
        ProducerEventModel::ControlPolled(Some(ProducerControl::SetVolume { percent })) => percent
            <= 100,
        _ => true,
    }
}

/// The state after a polled control signal is applied (terminal `Stop`
/// aside, which ends the phase instead).
pub open spec fn control_applied(p: Producer, cmd: Option<ProducerControl>) -> Producer {
    match cmd {
        Some(ProducerControl::Pause) => Producer { paused: true, ..p },
        Some(ProducerControl::Resume) => Producer { paused: false, ..p },
        Some(ProducerControl::SetVolume { percent }) => Producer { volume_percent: percent, ..p },
        Some(ProducerControl::Stop) => p,
        None => p,
    }
}

/// The producer state after one event. A terminated producer no longer
/// changes.
pub open spec fn producer_next(p: Producer, ev: ProducerEventModel) -> Producer {
    if p.phase is Done {
        p
    } else {
        match ev {
            ProducerEventModel::ControlPolled(cmd) => if cmd == Some(ProducerControl::Stop) {
                Producer { phase: Phase::Done, ..p }
            } else {
                control_applied(p, cmd)
            },
            ProducerEventModel::SamplesRead(_) => p,
            ProducerEventModel::ReadEnded => Producer { phase: Phase::Done, ..p },
            ProducerEventModel::ReadFailed => Producer { phase: Phase::Done, ..p },
            ProducerEventModel::PayloadSent => p,
            ProducerEventModel::SendFailed => Producer { phase: Phase::Done, ..p },
            ProducerEventModel::SpawnFailed => Producer { phase: Phase::Done, ..p },
            ProducerEventModel::TimeAdvanced(ms) => Producer {
                time_passed_ms: if p.time_passed_ms + ms > u64::MAX {
                    u64::MAX
                } else {
                    (p.time_passed_ms + ms) as u64
                },
                ..p
            },
        }
    }
}

/// The directive one event yields. A stop signal, the end of the
/// decoder's output, a read failure, a send failure and a spawn failure
/// each terminate the stream with exactly one end-of-stream signal; a
/// read frame is scaled by the volume in force when it was read.
pub open spec fn producer_directive(p: Producer, ev: ProducerEventModel) -> DirectiveModel {
    if p.phase is Done {
        DirectiveModel::Idle
    } else {
        match ev {
            ProducerEventModel::ControlPolled(cmd) => if cmd == Some(ProducerControl::Stop) {
                DirectiveModel::EmitEnd(EndReason::Completed)
            } else {
                if control_applied(p, cmd).paused {
                    DirectiveModel::HoldPaused
                } else {
                    DirectiveModel::Proceed
                }
            },
            ProducerEventModel::SamplesRead(bytes) => DirectiveModel::EncodeFrame(
                scaled_samples(decoded_samples(bytes), p.volume_percent, p.curve),
            ),
            ProducerEventModel::ReadEnded => DirectiveModel::EmitEnd(EndReason::Completed),
            ProducerEventModel::ReadFailed => DirectiveModel::EmitEnd(EndReason::Failed),
            ProducerEventModel::PayloadSent => DirectiveModel::Proceed,
            ProducerEventModel::SendFailed => DirectiveModel::EmitEnd(EndReason::Failed),
            ProducerEventModel::SpawnFailed => DirectiveModel::EmitEnd(EndReason::Failed),
            ProducerEventModel::TimeAdvanced(_) => DirectiveModel::Proceed,
        }
    }
}

impl Producer {
    /// The volume stays a percentage.
    pub open spec fn wf(self) -> bool {
        self.volume_percent <= 100
    }

    /// A fresh producer for one track: running, not paused, at the given
    /// volume, with no time passed.
    pub fn new(volume_percent: u8, curve: VolumeCurve) -> (p: Producer)
        requires
            volume_percent <= 100,
        ensures
            p == (Producer {
                phase: Phase::Running,
                paused: false,
                volume_percent,
                curve,
                time_passed_ms: 0,
            }),
    {
        Producer { phase: Phase::Running, paused: false, volume_percent, curve, time_passed_ms: 0 }
    }

    /// Feeds one event to the machine and returns what the driver loop
    /// must do next.
    pub fn step(&mut self, ev: ProducerEvent) -> (d: ProducerDirective)
        requires
            old(self).wf(),
            event_wf(ev@),
        ensures
            *final(self) == producer_next(*old(self), ev@),
            d@ == producer_directive(*old(self), ev@),
            final(self).wf(),
    {
        match self.phase {
            Phase::Done => ProducerDirective::Idle,
            Phase::Running => match ev {
                ProducerEvent::ControlPolled(cmd) => match cmd {
                    Some(ProducerControl::Stop) => {
                        self.phase = Phase::Done;
                        ProducerDirective::EmitEnd(EndReason::Completed)
                    },
                    Some(ProducerControl::Pause) => {
                        self.paused = true;
                        ProducerDirective::HoldPaused
                    },
                    Some(ProducerControl::Resume) => {
                        self.paused = false;
                        ProducerDirective::Proceed
                    },
                    Some(ProducerControl::SetVolume { percent }) => {
                        self.volume_percent = percent;
                        if self.paused {
                            ProducerDirective::HoldPaused
                        } else {
                            ProducerDirective::Proceed
                        }
                    },
                    None => {
                        if self.paused {
                            ProducerDirective::HoldPaused
                        } else {
                            ProducerDirective::Proceed
                        }
                    },
                },
                ProducerEvent::SamplesRead(bytes) => {
                    let samples = decode_pcm_be(&bytes);
                    let scaled = scaled_frame(&samples, self.volume_percent, self.curve);
                    ProducerDirective::EncodeFrame(scaled)
                },
                ProducerEvent::ReadEnded => {
                    self.phase = Phase::Done;
                    ProducerDirective::EmitEnd(EndReason::Completed)
                },
                ProducerEvent::ReadFailed => {
                    self.phase = Phase::Done;
                    ProducerDirective::EmitEnd(EndReason::Failed)
                },
                ProducerEvent::PayloadSent => ProducerDirective::Proceed,
                ProducerEvent::SendFailed => {
                    self.phase = Phase::Done;
                    ProducerDirective::EmitEnd(EndReason::Failed)
                },
                ProducerEvent::SpawnFailed => {
                    self.phase = Phase::Done;
                    ProducerDirective::EmitEnd(EndReason::Failed)
                },
                ProducerEvent::TimeAdvanced(ms) => {
                    if u64::MAX - self.time_passed_ms >= ms {
                        self.time_passed_ms = self.time_passed_ms + ms;
                    } else {
                        self.time_passed_ms = u64::MAX;
                    }
                    ProducerDirective::Proceed
                },
            },
        }
    }
}

/// Law: a stop signal terminates the stream at the very next control
/// poll, also while the producer is paused.
pub proof fn lemma_stop_observed_even_while_paused(p: Producer)
    requires
        p.phase is Running,
    ensures
        producer_directive(p, ProducerEventModel::ControlPolled(Some(ProducerControl::Stop)))
            == DirectiveModel::EmitEnd(EndReason::Completed),
        producer_next(
            p,
            ProducerEventModel::ControlPolled(Some(ProducerControl::Stop)),
        ).phase is Done,
{
}

/// The state after a whole sequence of events.
pub open spec fn run_producer(p: Producer, evs: Seq<ProducerEventModel>) -> Producer
    decreases evs.len(),
{
    if evs.len() == 0 {
        p
    } else {
        run_producer(producer_next(p, evs[0]), evs.drop_first())
    }
}

/// How many end-of-stream signals a sequence of events makes the machine
/// emit.
pub open spec fn ends_emitted(p: Producer, evs: Seq<ProducerEventModel>) -> nat
    decreases evs.len(),
{
    if evs.len() == 0 {
        0
    } else {
        (if producer_directive(p, evs[0]) is EmitEnd {
            1nat
        } else {
            0nat
        }) + ends_emitted(producer_next(p, evs[0]), evs.drop_first())
    }
}

/// Law: over any sequence of events, a running producer emits exactly one
/// end-of-stream signal if it reaches its terminal phase and none before;
/// a terminated producer emits nothing and never changes again. So every
/// exit path — stop, natural end, read failure, send failure, spawn
/// failure — produces exactly one terminal signal.
pub proof fn lemma_exactly_one_end_of_stream(p: Producer, evs: Seq<ProducerEventModel>)
    ensures
        p.phase is Done ==> ends_emitted(p, evs) == 0 && run_producer(p, evs) == p,
        p.phase is Running ==> ends_emitted(p, evs) == (if run_producer(p, evs).phase is Done {
            1nat
        } else {
            0nat
        }),
    decreases evs.len(),
{
    if evs.len() > 0 {
        lemma_exactly_one_end_of_stream(producer_next(p, evs[0]), evs.drop_first());
    }
}

} // verus!
