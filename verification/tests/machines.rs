use tsmusicbot::audio::{
    decode_pcm_be, payload_frame, scale_sample, scaled_frame, AudioFrame, EndReason, VolumeCurve,
};
use tsmusicbot::command::{Action, UserId};
use tsmusicbot::producer::{
    Phase, Producer, ProducerControl, ProducerDirective, ProducerEvent,
};
use tsmusicbot::supervisor::{
    Effect, StepOutcome, SupervisorEvent, SupervisorState,
};

fn uid(raw: u16) -> UserId {
    UserId { raw }
}

fn act(s: &mut SupervisorState, a: Action) -> StepOutcome {
    s.step(SupervisorEvent::ActionArrived(a))
}

#[test]
fn scenario_play_while_idle_starts_producer() {
    let mut s = SupervisorState::new();
    assert!(!s.playing);
    assert_eq!(s.volume_percent, 20);
    let out = act(&mut s, Action::PlayAudio("http://x".to_string(), uid(1)));
    assert!(s.playing);
    assert!(!s.paused);
    assert_eq!(s.current_link.as_deref(), Some("http://x"));
    assert!(s.queue.is_empty());
    assert!(!out.quit);
    assert_eq!(out.effects.len(), 2);
    assert!(matches!(&out.effects[0], Effect::StartProducer { link } if link == "http://x"));
    assert!(
        matches!(&out.effects[1], Effect::Reply { user, text } if *user == uid(1) && text == "Playing Link")
    );
}

#[test]
fn scenario_volume_clamp_reports_hundred() {
    let mut s = SupervisorState::new();
    act(&mut s, Action::PlayAudio("http://x".to_string(), uid(1)));
    // "!volume 250" parses to a modifier clamped to 100 percent.
    let out = act(&mut s, Action::ChangeVolume { modifier: Some(100), user_id: uid(1) });
    assert_eq!(s.volume_percent, 100);
    assert_eq!(out.effects.len(), 2);
    assert!(matches!(
        &out.effects[0],
        Effect::SendControl { cmd: ProducerControl::SetVolume { percent: 100 } }
    ));
    assert!(
        matches!(&out.effects[1], Effect::Reply { text, .. } if text == "Volume set to: 100")
    );
}

#[test]
fn scenario_queue_next_then_skip_starts_queued_track() {
    let mut s = SupervisorState::new();
    act(&mut s, Action::PlayAudio("http://x".to_string(), uid(1)));
    let out = act(&mut s, Action::QueueNextAudio("http://y".to_string(), uid(1)));
    assert_eq!(s.queue, vec!["http://y".to_string()]);
    assert!(matches!(&out.effects[0], Effect::Reply { text, .. } if text == "Queued Link"));
    let out = act(&mut s, Action::Skip);
    assert_eq!(out.effects.len(), 1);
    assert!(matches!(&out.effects[0], Effect::SendControl { cmd: ProducerControl::Stop }));
    // The producer's terminal signal arrives; the queued link starts.
    let out = s.step(SupervisorEvent::FrameArrived(AudioFrame::EndOfStream(
        EndReason::Completed,
    )));
    assert!(s.playing);
    assert!(s.queue.is_empty());
    assert_eq!(s.current_link.as_deref(), Some("http://y"));
    assert_eq!(out.effects.len(), 1);
    assert!(matches!(&out.effects[0], Effect::StartProducer { link } if link == "http://y"));
}

#[test]
fn play_while_playing_queues_in_arrival_order() {
    let mut s = SupervisorState::new();
    act(&mut s, Action::PlayAudio("a".to_string(), uid(1)));
    act(&mut s, Action::PlayAudio("b".to_string(), uid(1)));
    act(&mut s, Action::PlayAudio("c".to_string(), uid(1)));
    act(&mut s, Action::PlayAudio("d".to_string(), uid(1)));
    assert_eq!(s.queue, vec!["b".to_string(), "c".to_string(), "d".to_string()]);
    // A queue-next lands at the head regardless of what was tail-queued.
    act(&mut s, Action::QueueNextAudio("e".to_string(), uid(1)));
    assert_eq!(
        s.queue,
        vec!["e".to_string(), "b".to_string(), "c".to_string(), "d".to_string()]
    );
}

#[test]
fn stop_clears_queue_and_pause() {
    let mut s = SupervisorState::new();
    act(&mut s, Action::PlayAudio("a".to_string(), uid(1)));
    act(&mut s, Action::PlayAudio("b".to_string(), uid(1)));
    act(&mut s, Action::Pause);
    assert!(s.paused);
    let out = act(&mut s, Action::Stop);
    assert!(!s.paused);
    assert!(s.queue.is_empty());
    assert!(matches!(&out.effects[0], Effect::SendControl { cmd: ProducerControl::Stop }));
}

#[test]
fn pause_and_resume_are_idempotent() {
    let mut s = SupervisorState::new();
    act(&mut s, Action::PlayAudio("a".to_string(), uid(1)));
    // Resume while not paused: no signal, no change.
    let out = act(&mut s, Action::Resume);
    assert!(out.effects.is_empty());
    assert!(!s.paused);
    let out = act(&mut s, Action::Pause);
    assert_eq!(out.effects.len(), 1);
    assert!(s.paused);
    // Pause while already paused: no signal, no change.
    let out = act(&mut s, Action::Pause);
    assert!(out.effects.is_empty());
    assert!(s.paused);
    let out = act(&mut s, Action::Resume);
    assert_eq!(out.effects.len(), 1);
    assert!(!s.paused);
}

#[test]
fn pause_while_idle_does_nothing() {
    let mut s = SupervisorState::new();
    let out = act(&mut s, Action::Pause);
    assert!(out.effects.is_empty());
    assert!(!s.paused);
}

#[test]
fn end_of_stream_with_empty_queue_returns_to_idle() {
    let mut s = SupervisorState::new();
    act(&mut s, Action::PlayAudio("a".to_string(), uid(1)));
    let out = s.step(SupervisorEvent::FrameArrived(AudioFrame::EndOfStream(
        EndReason::Completed,
    )));
    assert!(!s.playing);
    assert!(!s.paused);
    assert!(out.effects.is_empty());
    assert!(!out.quit);
}

#[test]
fn failed_end_of_stream_is_treated_like_completion() {
    let mut a = SupervisorState::new();
    let mut b = SupervisorState::new();
    act(&mut a, Action::PlayAudio("x".to_string(), uid(1)));
    act(&mut b, Action::PlayAudio("x".to_string(), uid(1)));
    act(&mut a, Action::PlayAudio("y".to_string(), uid(1)));
    act(&mut b, Action::PlayAudio("y".to_string(), uid(1)));
    let oa = a.step(SupervisorEvent::FrameArrived(AudioFrame::EndOfStream(EndReason::Failed)));
    let ob = b.step(SupervisorEvent::FrameArrived(AudioFrame::EndOfStream(
        EndReason::Completed,
    )));
    assert_eq!(a.playing, b.playing);
    assert_eq!(a.queue, b.queue);
    assert_eq!(a.current_link, b.current_link);
    assert_eq!(oa.effects.len(), ob.effects.len());
    assert!(matches!(&oa.effects[0], Effect::StartProducer { link } if link == "y"));
    assert!(matches!(&ob.effects[0], Effect::StartProducer { link } if link == "y"));
}

#[test]
fn quit_and_transport_failure_end_the_loop() {
    let mut s = SupervisorState::new();
    let out = act(&mut s, Action::Quit);
    assert!(out.quit);
    let out = s.step(SupervisorEvent::TransportFailed);
    assert!(out.quit);
    let out = s.step(SupervisorEvent::ShutdownRequested);
    assert!(out.quit);
}

#[test]
fn frames_while_idle_are_dropped() {
    let mut s = SupervisorState::new();
    let out = s.step(SupervisorEvent::FrameArrived(AudioFrame::Payload(vec![1, 2, 3])));
    assert!(out.effects.is_empty());
    let out = s.step(SupervisorEvent::FrameArrived(AudioFrame::EndOfStream(
        EndReason::Completed,
    )));
    assert!(out.effects.is_empty());
}

#[test]
fn forwarded_payload_keeps_its_bytes() {
    let mut s = SupervisorState::new();
    act(&mut s, Action::PlayAudio("a".to_string(), uid(1)));
    let out = s.step(SupervisorEvent::FrameArrived(AudioFrame::Payload(vec![9, 8, 7])));
    assert_eq!(out.effects.len(), 1);
    assert!(matches!(&out.effects[0], Effect::ForwardAudio { payload, .. } if payload == &[9, 8, 7]));
}

#[test]
fn volume_report_uses_current_volume() {
    let mut s = SupervisorState::new();
    let out = act(&mut s, Action::ChangeVolume { modifier: None, user_id: uid(2) });
    assert!(matches!(&out.effects[0], Effect::Reply { text, .. } if text == "Current Volume: 20"));
    // A zero modifier reports instead of setting: only 1..=100 sets.
    let out = act(&mut s, Action::ChangeVolume { modifier: Some(0), user_id: uid(2) });
    assert!(matches!(&out.effects[0], Effect::Reply { text, .. } if text == "Current Volume: 20"));
    assert_eq!(s.volume_percent, 20);
}

#[test]
fn producer_stop_emits_single_end_of_stream() {
    let mut p = Producer::new(20, VolumeCurve::Damped);
    assert!(matches!(p.step(ProducerEvent::ControlPolled(None)), ProducerDirective::Proceed));
    let d = p.step(ProducerEvent::ControlPolled(Some(ProducerControl::Stop)));
    assert!(matches!(d, ProducerDirective::EmitEnd(EndReason::Completed)));
    assert_eq!(p.phase, Phase::Done);
    // Every further event is idle: no second terminal signal.
    assert!(matches!(p.step(ProducerEvent::ReadEnded), ProducerDirective::Idle));
    assert!(matches!(p.step(ProducerEvent::ControlPolled(None)), ProducerDirective::Idle));
}

#[test]
fn producer_pause_holds_and_resume_proceeds() {
    let mut p = Producer::new(20, VolumeCurve::Damped);
    assert!(matches!(
        p.step(ProducerEvent::ControlPolled(Some(ProducerControl::Pause))),
        ProducerDirective::HoldPaused
    ));
    // While paused, an empty poll keeps holding rather than reading.
    assert!(matches!(
        p.step(ProducerEvent::ControlPolled(None)),
        ProducerDirective::HoldPaused
    ));
    // A stop is still honored at the next poll boundary.
    assert!(matches!(
        p.step(ProducerEvent::ControlPolled(Some(ProducerControl::Resume))),
        ProducerDirective::Proceed
    ));
    assert!(matches!(
        p.step(ProducerEvent::ControlPolled(None)),
        ProducerDirective::Proceed
    ));
}

#[test]
fn producer_read_end_and_error_terminate_once() {
    let mut p = Producer::new(20, VolumeCurve::Damped);
    assert!(matches!(
        p.step(ProducerEvent::ReadEnded),
        ProducerDirective::EmitEnd(EndReason::Completed)
    ));
    assert!(matches!(p.step(ProducerEvent::ReadFailed), ProducerDirective::Idle));

    let mut p = Producer::new(20, VolumeCurve::Damped);
    assert!(matches!(
        p.step(ProducerEvent::ReadFailed),
        ProducerDirective::EmitEnd(EndReason::Failed)
    ));

    let mut p = Producer::new(20, VolumeCurve::Damped);
    assert!(matches!(
        p.step(ProducerEvent::SendFailed),
        ProducerDirective::EmitEnd(EndReason::Failed)
    ));
}

#[test]
fn scenario_spawn_failure_emits_error_end_without_payload() {
    let mut p = Producer::new(20, VolumeCurve::Damped);
    let d = p.step(ProducerEvent::SpawnFailed);
    assert!(matches!(d, ProducerDirective::EmitEnd(EndReason::Failed)));
    assert_eq!(p.phase, Phase::Done);
    // Nothing further comes out of this producer.
    assert!(matches!(
        p.step(ProducerEvent::SamplesRead(vec![0, 100])),
        ProducerDirective::Idle
    ));
}

#[test]
fn producer_scales_read_samples_by_current_volume() {
    let mut p = Producer::new(100, VolumeCurve::Damped);
    // 0x0064 = 100; damped at 100 percent scales by 100/500.
    match p.step(ProducerEvent::SamplesRead(vec![0x00, 0x64, 0xFF, 0x9C])) {
        ProducerDirective::EncodeFrame(samples) => assert_eq!(samples, vec![20, -20]),
        _ => panic!("expected a frame to encode"),
    }
    // A volume change applies to subsequent frames.
    assert!(matches!(
        p.step(ProducerEvent::ControlPolled(Some(ProducerControl::SetVolume { percent: 50 }))),
        ProducerDirective::Proceed
    ));
    match p.step(ProducerEvent::SamplesRead(vec![0x00, 0x64])) {
        ProducerDirective::EncodeFrame(samples) => assert_eq!(samples, vec![10]),
        _ => panic!("expected a frame to encode"),
    }
}

#[test]
fn producer_tracks_elapsed_time() {
    let mut p = Producer::new(20, VolumeCurve::Damped);
    assert_eq!(p.time_passed_ms, 0);
    p.step(ProducerEvent::TimeAdvanced(17));
    p.step(ProducerEvent::TimeAdvanced(20));
    assert_eq!(p.time_passed_ms, 37);
}

#[test]
fn decode_reads_big_endian_signed_samples() {
    assert_eq!(decode_pcm_be(&vec![0x01, 0x02]), vec![258]);
    assert_eq!(decode_pcm_be(&vec![0x80, 0x00]), vec![-32768]);
    assert_eq!(decode_pcm_be(&vec![0xFF, 0xFF]), vec![-1]);
    assert_eq!(decode_pcm_be(&vec![0x7F, 0xFF, 0x00, 0x00]), vec![32767, 0]);
    // A trailing odd byte carries no sample.
    assert_eq!(decode_pcm_be(&vec![0x00, 0x01, 0x02]), vec![1]);
    assert_eq!(decode_pcm_be(&vec![]), Vec::<i16>::new());
}

#[test]
fn scaling_truncates_toward_zero() {
    assert_eq!(scale_sample(100, 100, VolumeCurve::Damped), 20);
    assert_eq!(scale_sample(-100, 100, VolumeCurve::Damped), -20);
    assert_eq!(scale_sample(100, 100, VolumeCurve::Linear), 100);
    assert_eq!(scale_sample(-100, 100, VolumeCurve::Linear), -100);
    assert_eq!(scale_sample(3, 100, VolumeCurve::Damped), 0);
    assert_eq!(scale_sample(-3, 100, VolumeCurve::Damped), 0);
    assert_eq!(scale_sample(100, 33, VolumeCurve::Damped), 6);
    assert_eq!(scale_sample(-100, 33, VolumeCurve::Damped), -6);
    assert_eq!(scale_sample(32767, 100, VolumeCurve::Linear), 32767);
    assert_eq!(scale_sample(-32768, 100, VolumeCurve::Linear), -32768);
    assert_eq!(scale_sample(1000, 0, VolumeCurve::Damped), 0);
    let frame = scaled_frame(&vec![100, -100, 0], 50, VolumeCurve::Damped);
    assert_eq!(frame, vec![10, -10, 0]);
}

#[test]
fn encoder_failure_degrades_to_empty_payload() {
    match payload_frame(None) {
        AudioFrame::Payload(bytes) => assert!(bytes.is_empty()),
        _ => panic!("expected a payload"),
    }
    match payload_frame(Some(vec![1, 2, 3])) {
        AudioFrame::Payload(bytes) => assert_eq!(bytes, vec![1, 2, 3]),
        _ => panic!("expected a payload"),
    }
}
