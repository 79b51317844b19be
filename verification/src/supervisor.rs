//! The playback supervisor: the long-lived control loop's state machine.
//!
//! The supervisor owns the authoritative playback state — current link,
//! playing/paused, volume, and the FIFO queue of pending links — and maps
//! each incoming event (a user action, a frame from the running producer,
//! or a transport condition) to a new state plus a list of effects for
//! the I/O layer to carry out: start a producer, send a control signal,
//! forward an audio packet, or send a chat reply.

use vstd::prelude::*;

use tsproto_packets::packets::OutPacket;

use crate::audio::{out_audio_packet, AudioFrame, EndReason, FrameModel};
use crate::command::{Action, ActionModel, UserId};
use crate::producer::ProducerControl;
use crate::text::{dec_str, u32_string};

verus! {

/// The volume in force before any volume command, in percent.
pub const DEFAULT_VOLUME_PERCENT: u8 = 20;

/// The playback state the supervisor owns.
#[derive(Debug)]
pub struct SupervisorState {
    pub playing: bool,
    pub paused: bool,
    pub volume_percent: u8,
    /// Pending links, front first.
    pub queue: Vec<String>,
    pub current_link: Option<String>,
}

/// The mathematical shape of the supervisor state.
#[verifier::ext_equal]
pub struct SupervisorModel {
    pub playing: bool,
    pub paused: bool,
    pub volume_percent: u8,
    pub queue: Seq<Seq<char>>,
    pub current_link: Option<Seq<char>>,
}

impl View for SupervisorState {
    type V = SupervisorModel;

    open spec fn view(&self) -> SupervisorModel {
        SupervisorModel {
            playing: self.playing,
            paused: self.paused,
            volume_percent: self.volume_percent,
            queue: self.queue@.map_values(|s: String| s@),
            current_link: match self.current_link {
                Some(ref l) => Some(l@),
                None => None,
            },
        }
    }
}

/// One thing the I/O layer must do after a step.
pub enum Effect {
    /// Spawn a fresh producer (and a fresh channel pair) for this link.
    StartProducer { link: String },
    /// Send this signal on the active producer's control channel.
    SendControl { cmd: ProducerControl },
    /// Send this text to this user.
    Reply { user: UserId, text: String },
    /// Compose and send the current-track information to this user.
    ReplyInfo { user: UserId },
    /// Forward this audio payload, already framed as a transport packet.
    ForwardAudio { payload: Vec<u8>, packet: OutPacket },
}

/// The mathematical shape of an [`Effect`]. A forwarded packet is
/// identified by its payload bytes.
pub enum EffectModel {
    StartProducer(Seq<char>),
    SendControl(ProducerControl),
    Reply(UserId, Seq<char>),
    ReplyInfo(UserId),
    ForwardAudio(Seq<u8>),
}

impl View for Effect {
    type V = EffectModel;

    open spec fn view(&self) -> EffectModel {
        match self {
            Effect::StartProducer { link } => EffectModel::StartProducer(link@),
            Effect::SendControl { cmd } => EffectModel::SendControl(*cmd),
            Effect::Reply { user, text } => EffectModel::Reply(*user, text@),
            Effect::ReplyInfo { user } => EffectModel::ReplyInfo(*user),
            Effect::ForwardAudio { payload, .. } => EffectModel::ForwardAudio(payload@),
        }
    }
}

/// One event the control loop waits on.
pub enum SupervisorEvent {
    /// A user action, as the interpreter produced it.
    ActionArrived(Action),
    /// A frame from the active producer.
    FrameArrived(AudioFrame),
    /// Forwarding audio to the transport failed: the session is over.
    TransportFailed,
    /// The process was asked to shut down.
    ShutdownRequested,
}

/// The mathematical shape of a [`SupervisorEvent`].
pub enum SupervisorEventModel {
    ActionArrived(ActionModel),
    FrameArrived(FrameModel),
    TransportFailed,
    ShutdownRequested,
}

impl View for SupervisorEvent {
    type V = SupervisorEventModel;

    open spec fn view(&self) -> SupervisorEventModel {
        match self {
            SupervisorEvent::ActionArrived(a) => SupervisorEventModel::ActionArrived(a@),
            SupervisorEvent::FrameArrived(f) => SupervisorEventModel::FrameArrived(f@),
            SupervisorEvent::TransportFailed => SupervisorEventModel::TransportFailed,
            SupervisorEvent::ShutdownRequested => SupervisorEventModel::ShutdownRequested,
        }
    }
}

/// What one step hands back to the control loop.
pub struct StepOutcome {
    pub effects: Vec<Effect>,
    pub quit: bool,
}

/// The mathematical shape of a [`StepOutcome`].
#[verifier::ext_equal]
pub struct OutcomeModel {
    pub effects: Seq<EffectModel>,
    pub quit: bool,
}

impl View for StepOutcome {
    type V = OutcomeModel;

    open spec fn view(&self) -> OutcomeModel {
        OutcomeModel { effects: self.effects@.map_values(|e: Effect| e@), quit: self.quit }
    }
}

/// The help reply, listing every command and its aliases.
pub open spec fn help_text() -> Seq<char> {
    "\nCommands:\n!play <link> or !yt <link> - Play audio from link or queue if already playing\n!next <link> or !n <link> - Queue a track as the next track\n!pause or !p - Pause current track\n!resume, !r, !continue, or !c - Resume current track\n!skip, !s, !next, or !n - Skip current track\n!stop - Stop all tracks\n!volume <modifier> or !v <modifier> - Change volume (modifier should be a number from 0 to 100)\n!info or !i - Get info about current track\n!help or !h - Get this message\n!quit or !q - Quit\n"@
}

/// A volume request that actually sets the volume: a percentage in
/// 1..=100. Zero and the bare report request leave the volume unchanged
/// and only report it.
pub open spec fn vol_set(modifier: Option<u8>) -> Option<u8> {
    match modifier {
        Some(p) => if 1 <= p <= 100 {
            Some(p)
        } else {
            None
        },
        None => None,
    }
}

/// The state after one user action.
pub open spec fn action_next(m: SupervisorModel, a: ActionModel) -> SupervisorModel {
    match a {
        ActionModel::PlayAudio(link, _) => if !m.playing {
            SupervisorModel { playing: true, paused: false, current_link: Some(link), ..m }
        } else {
            SupervisorModel { queue: m.queue.push(link), ..m }
        },
        ActionModel::QueueNextAudio(link, _) => if m.playing {
            SupervisorModel { queue: seq![link] + m.queue, ..m }
        } else {
            m
        },
        ActionModel::Skip => if m.playing {
            SupervisorModel { paused: false, ..m }
        } else {
            m
        },
        ActionModel::Resume => if m.playing && m.paused {
            SupervisorModel { paused: false, ..m }
        } else {
            m
        },
        ActionModel::Pause => if m.playing && !m.paused {
            SupervisorModel { paused: true, ..m }
        } else {
            m
        },
        ActionModel::Stop => if m.playing {
            SupervisorModel { paused: false, queue: Seq::empty(), ..m }
        } else {
            m
        },
        ActionModel::ChangeVolume { modifier, .. } => match vol_set(modifier) {
            Some(p) => SupervisorModel { volume_percent: p, ..m },
            None => m,
        },
        ActionModel::Info(_) => m,
        ActionModel::Help(_) => m,
        ActionModel::Quit => m,
        ActionModel::NoAction => m,
    }
}

/// The effects one user action yields.
pub open spec fn action_effects(m: SupervisorModel, a: ActionModel) -> Seq<EffectModel> {
    match a {
        ActionModel::PlayAudio(link, u) => if !m.playing {
            seq![
                EffectModel::StartProducer(link),
                EffectModel::Reply(u, "Playing Link"@),
            ]
        } else {
            seq![EffectModel::Reply(u, "Queued Link"@)]
        },
        ActionModel::QueueNextAudio(_, u) => if m.playing {
            seq![EffectModel::Reply(u, "Queued Link"@)]
        } else {
            Seq::empty()
        },
        ActionModel::Skip => if m.playing {
            seq![EffectModel::SendControl(ProducerControl::Stop)]
        } else {
            Seq::empty()
        },
        ActionModel::Resume => if m.playing && m.paused {
            seq![EffectModel::SendControl(ProducerControl::Resume)]
        } else {
            Seq::empty()
        },
        ActionModel::Pause => if m.playing && !m.paused {
            seq![EffectModel::SendControl(ProducerControl::Pause)]
        } else {
            Seq::empty()
        },
        ActionModel::Stop => if m.playing {
            seq![EffectModel::SendControl(ProducerControl::Stop)]
        } else {
            Seq::empty()
        },
        ActionModel::ChangeVolume { modifier, user_id } => match vol_set(modifier) {
            Some(p) => (if m.playing {
                seq![EffectModel::SendControl(ProducerControl::SetVolume { percent: p })]
            } else {
                Seq::empty()
            }) + seq![EffectModel::Reply(user_id, "Volume set to: "@ + dec_str(p as int))],
            None => seq![
                EffectModel::Reply(
                    user_id,
                    "Current Volume: "@ + dec_str(m.volume_percent as int),
                ),
            ],
        },
        ActionModel::Info(u) => seq![EffectModel::ReplyInfo(u)],
        ActionModel::Help(u) => seq![EffectModel::Reply(u, help_text())],
        ActionModel::Quit => Seq::empty(),
        ActionModel::NoAction => Seq::empty(),
    }
}

/// The state after one frame from the producer. On the terminal signal
/// the next queued link starts playing, or the state returns to idle;
/// either way the paused flag clears, since whatever plays next starts
/// unpaused.
pub open spec fn frame_next(m: SupervisorModel, f: FrameModel) -> SupervisorModel {
    if !m.playing {
        m
    } else {
        match f {
            FrameModel::Payload(_) => m,
            FrameModel::EndOfStream(_) => if m.queue.len() == 0 {
                SupervisorModel { playing: false, paused: false, ..m }
            } else {
                SupervisorModel {
                    paused: false,
                    current_link: Some(m.queue[0]),
                    queue: m.queue.drop_first(),
                    ..m
                }
            },
        }
    }
}

/// The effects one frame yields: a payload is forwarded promptly; the
/// terminal signal starts the next queued producer, if any.
pub open spec fn frame_effects(m: SupervisorModel, f: FrameModel) -> Seq<EffectModel> {
    if !m.playing {
        Seq::empty()
    } else {
        match f {
            FrameModel::Payload(bytes) => seq![EffectModel::ForwardAudio(bytes)],
            FrameModel::EndOfStream(_) => if m.queue.len() == 0 {
                Seq::empty()
            } else {
                seq![EffectModel::StartProducer(m.queue[0])]
            },
        }
    }
}

/// The state after one event.
pub open spec fn supervisor_next(m: SupervisorModel, ev: SupervisorEventModel) -> SupervisorModel {
    match ev {
        SupervisorEventModel::ActionArrived(a) => action_next(m, a),
        SupervisorEventModel::FrameArrived(f) => frame_next(m, f),
        SupervisorEventModel::TransportFailed => m,
        SupervisorEventModel::ShutdownRequested => m,
    }
}

/// The effects one event yields.
pub open spec fn supervisor_effects(m: SupervisorModel, ev: SupervisorEventModel) -> Seq<
    EffectModel,
> {
    match ev {
        SupervisorEventModel::ActionArrived(a) => action_effects(m, a),
        SupervisorEventModel::FrameArrived(f) => frame_effects(m, f),
        SupervisorEventModel::TransportFailed => Seq::empty(),
        SupervisorEventModel::ShutdownRequested => Seq::empty(),
    }
}

/// Whether one event ends the control loop: a quit command, a transport
/// failure, or a shutdown request.
pub open spec fn supervisor_quits(m: SupervisorModel, ev: SupervisorEventModel) -> bool {
    match ev {
        SupervisorEventModel::ActionArrived(a) => a is Quit,
        SupervisorEventModel::FrameArrived(_) => false,
        SupervisorEventModel::TransportFailed => true,
        SupervisorEventModel::ShutdownRequested => true,
    }
}

/// The state before any event: idle, unpaused, default volume, nothing
/// queued, no current link.
pub open spec fn initial_model() -> SupervisorModel {
    SupervisorModel {
        playing: false,
        paused: false,
        volume_percent: DEFAULT_VOLUME_PERCENT,
        queue: Seq::empty(),
        current_link: None,
    }
}

/// The state invariant: paused only while playing, an empty queue while
/// idle, and a volume that stays a positive percentage.
pub open spec fn inv(m: SupervisorModel) -> bool {
    &&& m.paused ==> m.playing
    &&& !m.playing ==> m.queue.len() == 0
    &&& 1 <= m.volume_percent <= 100
}

/// The state after a whole sequence of events.
pub open spec fn run_supervisor(m: SupervisorModel, evs: Seq<SupervisorEventModel>) -> SupervisorModel
    decreases evs.len(),
{
    if evs.len() == 0 {
        m
    } else {
        run_supervisor(supervisor_next(m, evs[0]), evs.drop_first())
    }
}

/// Law: the initial state satisfies the invariant, and every step keeps
/// it: the paused flag is only set while playing, the queue is empty
/// while idle, and the volume stays a positive percentage.
pub proof fn lemma_invariant_preserved(m: SupervisorModel, ev: SupervisorEventModel)
    requires
        inv(m),
    ensures
        inv(initial_model()),
        inv(supervisor_next(m, ev)),
{
}

/// Law: the invariant holds along any whole run of events, so a paused
/// state is never observable while idle.
pub proof fn lemma_invariant_along_run(m: SupervisorModel, evs: Seq<SupervisorEventModel>)
    requires
        inv(m),
    ensures
        inv(run_supervisor(m, evs)),
    decreases evs.len(),
{
    if evs.len() > 0 {
        lemma_invariant_preserved(m, evs[0]);
        lemma_invariant_along_run(supervisor_next(m, evs[0]), evs.drop_first());
    }
}

/// Law: after a stop command, the paused flag is clear and no queued
/// link remains.
pub proof fn lemma_stop_clears_pause_and_queue(m: SupervisorModel)
    requires
        inv(m),
    ensures
        !supervisor_next(m, SupervisorEventModel::ActionArrived(ActionModel::Stop)).paused,
        supervisor_next(
            m,
            SupervisorEventModel::ActionArrived(ActionModel::Stop),
        ).queue.len() == 0,
{
}

/// Law: a resume while not paused is a no-op — no state change, no
/// control signal, no reply.
pub proof fn lemma_resume_idempotent(m: SupervisorModel)
    requires
        !(m.playing && m.paused),
    ensures
        supervisor_next(m, SupervisorEventModel::ActionArrived(ActionModel::Resume)) == m,
        supervisor_effects(m, SupervisorEventModel::ActionArrived(ActionModel::Resume))
            == Seq::<EffectModel>::empty(),
{
}

/// Law: a pause while already paused (or while idle) is a no-op — no
/// state change, no control signal, no reply.
pub proof fn lemma_pause_idempotent(m: SupervisorModel)
    requires
        !(m.playing && !m.paused),
    ensures
        supervisor_next(m, SupervisorEventModel::ActionArrived(ActionModel::Pause)) == m,
        supervisor_effects(m, SupervisorEventModel::ActionArrived(ActionModel::Pause))
            == Seq::<EffectModel>::empty(),
{
}

/// The events for a batch of play commands, one per link.
pub open spec fn play_events(links: Seq<Seq<char>>, u: UserId) -> Seq<SupervisorEventModel> {
    links.map_values(
        |l: Seq<char>| SupervisorEventModel::ActionArrived(ActionModel::PlayAudio(l, u)),
    )
}

/// Law: while playing, a batch of play commands appends exactly its
/// links to the queue tail, in arrival order, and changes nothing else.
pub proof fn lemma_tail_queueing(m: SupervisorModel, links: Seq<Seq<char>>, u: UserId)
    requires
        m.playing,
    ensures
        ({
            let m2 = run_supervisor(m, play_events(links, u));
            &&& m2.queue == m.queue + links
            &&& m2.playing
            &&& m2.paused == m.paused
            &&& m2.volume_percent == m.volume_percent
            &&& m2.current_link == m.current_link
        }),
    decreases links.len(),
{
    let evs = play_events(links, u);
    if links.len() == 0 {
        assert(m.queue + links =~= m.queue);
    } else {
        let m1 = supervisor_next(m, evs[0]);
        assert(m1.queue == m.queue.push(links[0]));
        assert(evs.drop_first() =~= play_events(links.drop_first(), u));
        lemma_tail_queueing(m1, links.drop_first(), u);
        assert(m.queue.push(links[0]) + links.drop_first() =~= m.queue + links);
    }
}

/// Law: while playing, a queue-next command puts its link at the queue
/// head, whatever was queued before.
pub proof fn lemma_queue_next_prepends(m: SupervisorModel, link: Seq<char>, u: UserId)
    requires
        m.playing,
    ensures
        supervisor_next(
            m,
            SupervisorEventModel::ActionArrived(ActionModel::QueueNextAudio(link, u)),
        ).queue == seq![link] + m.queue,
{
}

/// Law: the supervisor treats the terminal signal of a failed pipeline
/// exactly like natural completion: the reason changes neither the next
/// state nor the effects.
pub proof fn lemma_end_reason_immaterial(m: SupervisorModel, r1: EndReason, r2: EndReason)
    ensures
        supervisor_next(m, SupervisorEventModel::FrameArrived(FrameModel::EndOfStream(r1)))
            == supervisor_next(
            m,
            SupervisorEventModel::FrameArrived(FrameModel::EndOfStream(r2)),
        ),
        supervisor_effects(m, SupervisorEventModel::FrameArrived(FrameModel::EndOfStream(r1)))
            == supervisor_effects(
            m,
            SupervisorEventModel::FrameArrived(FrameModel::EndOfStream(r2)),
        ),
{
}

impl SupervisorState {
    /// The state the control loop starts in.
    pub fn new() -> (s: SupervisorState)
        ensures
            s@ == initial_model(),
    {
        let s = SupervisorState {
            playing: false,
            paused: false,
            volume_percent: DEFAULT_VOLUME_PERCENT,
            queue: Vec::new(),
            current_link: None,
        };
        proof {
            assert(s@ =~~= initial_model());
        }
        s
    }

    /// Applies one event: updates the playback state and returns the
    /// effects the I/O layer must carry out, in order, and whether the
    /// loop ends.
    pub fn step(&mut self, ev: SupervisorEvent) -> (out: StepOutcome)
        ensures
            final(self)@ == supervisor_next(old(self)@, ev@),
            out@.effects == supervisor_effects(old(self)@, ev@),
            out@.quit == supervisor_quits(old(self)@, ev@),
    {
        let ghost pre = old(self)@;
        let ghost evm = ev@;
        let mut effects: Vec<Effect> = Vec::new();
        let mut quit = false;
        match ev {
            SupervisorEvent::ActionArrived(a) => match a {
                Action::PlayAudio(link, user_id) => {
                    if !self.playing {
                        self.playing = true;
                        self.paused = false;
                        self.current_link = Some(link.clone());
                        effects.push(Effect::StartProducer { link });
                        effects.push(
                            Effect::Reply { user: user_id, text: String::from_str("Playing Link") },
                        );
                    } else {
                        self.queue.push(link);
                        effects.push(
                            Effect::Reply { user: user_id, text: String::from_str("Queued Link") },
                        );
                    }
                },
                Action::QueueNextAudio(link, user_id) => {
                    if self.playing {
                        self.queue.insert(0, link);
                        effects.push(
                            Effect::Reply { user: user_id, text: String::from_str("Queued Link") },
                        );
                    }
                },
                Action::Skip => {
                    if self.playing {
                        self.paused = false;
                        effects.push(Effect::SendControl { cmd: ProducerControl::Stop });
                    }
                },
                Action::Resume => {
                    if self.playing && self.paused {
                        self.paused = false;
                        effects.push(Effect::SendControl { cmd: ProducerControl::Resume });
                    }
                },
                Action::Pause => {
                    if self.playing && !self.paused {
                        self.paused = true;
                        effects.push(Effect::SendControl { cmd: ProducerControl::Pause });
                    }
                },
                Action::Stop => {
                    if self.playing {
                        self.paused = false;
                        self.queue.clear();
                        effects.push(Effect::SendControl { cmd: ProducerControl::Stop });
                    }
                },
                Action::ChangeVolume { modifier, user_id } => {
                    let mut setp: Option<u8> = None;
                    if let Some(p) = modifier {
                        if p >= 1 && p <= 100 {
                            setp = Some(p);
                        }
                    }
                    match setp {
                        Some(p) => {
                            self.volume_percent = p;
                            if self.playing {
                                effects.push(
                                    Effect::SendControl {
                                        cmd: ProducerControl::SetVolume { percent: p },
                                    },
                                );
                            }
                            let mut text = String::from_str("Volume set to: ");
                            let num = u32_string(p as u32);
                            text.append(num.as_str());
                            effects.push(Effect::Reply { user: user_id, text });
                        },
                        None => {
                            let mut text = String::from_str("Current Volume: ");
                            let num = u32_string(self.volume_percent as u32);
                            text.append(num.as_str());
                            effects.push(Effect::Reply { user: user_id, text });
                        },
                    }
                },
                Action::Info(user_id) => {
                    effects.push(Effect::ReplyInfo { user: user_id });
                },
                Action::Help(user_id) => {
                    let text = String::from_str(
                        "\nCommands:\n!play <link> or !yt <link> - Play audio from link or queue if already playing\n!next <link> or !n <link> - Queue a track as the next track\n!pause or !p - Pause current track\n!resume, !r, !continue, or !c - Resume current track\n!skip, !s, !next, or !n - Skip current track\n!stop - Stop all tracks\n!volume <modifier> or !v <modifier> - Change volume (modifier should be a number from 0 to 100)\n!info or !i - Get info about current track\n!help or !h - Get this message\n!quit or !q - Quit\n",
                    );
                    effects.push(Effect::Reply { user: user_id, text });
                },
                Action::Quit => {
                    quit = true;
                },
                Action::NoAction => {},
            },
            SupervisorEvent::FrameArrived(f) => {
                if self.playing {
                    match f {
                        AudioFrame::Payload(bytes) => {
                            let packet = out_audio_packet(&bytes);
                            effects.push(Effect::ForwardAudio { payload: bytes, packet });
                        },
                        AudioFrame::EndOfStream(_) => {
                            if self.queue.len() == 0 {
                                self.playing = false;
                                self.paused = false;
                            } else {
                                let link = self.queue.remove(0);
                                self.paused = false;
                                self.current_link = Some(link.clone());
                                effects.push(Effect::StartProducer { link });
                            }
                        },
                    }
                }
            },
            SupervisorEvent::TransportFailed => {
                quit = true;
            },
            SupervisorEvent::ShutdownRequested => {
                quit = true;
            },
        }
        proof {
            assert(self@ =~~= supervisor_next(pre, evm));
            assert(effects@.map_values(|e: Effect| e@) =~~= supervisor_effects(pre, evm));
        }
        StepOutcome { effects, quit }
    }
}

} // verus!
