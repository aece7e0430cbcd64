use sys_voice::pipeline::duplicate_stereo;
use sys_voice::queue::{PopOutcome, PublishOutcome};
use sys_voice::session::{
    start_session, BackendStart, CaptureSession, Recv, SubmitOutcome, TaskPoll, QUEUE_CAPACITY,
};
use sys_voice::{AecConfig, AecError, Channels};

fn words(values: &[f32]) -> Vec<u32> {
    values.iter().map(|v| v.to_bits()).collect()
}

fn floats(wordvec: &[u32]) -> Vec<f32> {
    wordvec.iter().map(|&w| f32::from_bits(w)).collect()
}

fn mono_identity_session() -> CaptureSession {
    let config = AecConfig {
        sample_rate: 48000,
        channels: Channels::Mono,
    };
    let backend = BackendStart::Ready {
        native_rate: 48000,
        buffer_frames: 480,
    };
    start_session(&config, backend).unwrap()
}

#[test]
fn start_rejects_a_zero_sample_rate_before_anything_else() {
    let config = AecConfig {
        sample_rate: 0,
        channels: Channels::Mono,
    };
    // Even a failing backend report does not preempt config validation.
    let backend = BackendStart::Failed(AecError::DeviceUnavailable);
    match start_session(&config, backend) {
        Err(AecError::InvalidConfig(m)) => assert_eq!(m, "sample_rate must be non-zero"),
        other => panic!("expected InvalidConfig, got ok={}", other.is_ok()),
    }
}

#[test]
fn start_surfaces_each_backend_error_unchanged() {
    let config = AecConfig {
        sample_rate: 16000,
        channels: Channels::Mono,
    };
    for err in [
        AecError::DeviceUnavailable,
        AecError::PermissionDenied,
        AecError::AecNotSupported,
        AecError::BackendError("engine start failed".to_string()),
    ] {
        let got = start_session(&config, BackendStart::Failed(err.clone()));
        match got {
            Err(e) => assert_eq!(e, err),
            Ok(_) => panic!("expected the backend error to surface"),
        }
    }
}

#[test]
fn sample_rate_resolves_to_the_requested_rate() {
    let config = AecConfig {
        sample_rate: 16000,
        channels: Channels::Mono,
    };
    // The backend runs at a different native rate; the facade must still
    // report the requested target rate, never the raw native one.
    let backend = BackendStart::Ready {
        native_rate: 48000,
        buffer_frames: 480,
    };
    let session = start_session(&config, backend).unwrap();
    assert_eq!(session.output_sample_rate(), 16000);
}

#[test]
fn start_rejects_an_unusable_native_rate() {
    let config = AecConfig {
        sample_rate: 16000,
        channels: Channels::Mono,
    };
    let backend = BackendStart::Ready {
        native_rate: 30,
        buffer_frames: 4,
    };
    match start_session(&config, backend) {
        Err(AecError::BackendError(_)) => {}
        other => panic!("expected a backend error, got ok={}", other.is_ok()),
    }
}

#[test]
fn messages_arrive_in_strict_capture_order() {
    let mut s = mono_identity_session();
    let first = words(&[0.1, 0.2]);
    let second = words(&[0.3]);
    assert_eq!(s.backend_publish(first.clone()), PublishOutcome::Accepted);
    assert_eq!(s.backend_publish(second.clone()), PublishOutcome::Accepted);
    assert!(matches!(s.task_poll(), TaskPoll::Delivered));
    assert!(matches!(s.task_poll(), TaskPoll::Delivered));
    match s.try_receive() {
        Recv::Message(Ok(block)) => assert_eq!(block, first),
        _ => panic!("expected the first block"),
    }
    match s.try_receive() {
        Recv::Message(Ok(block)) => assert_eq!(block, second),
        _ => panic!("expected the second block"),
    }
    assert!(matches!(s.try_receive(), Recv::Pending));
}

#[test]
fn stereo_sessions_duplicate_each_sample() {
    let config = AecConfig {
        sample_rate: 48000,
        channels: Channels::Stereo,
    };
    let backend = BackendStart::Ready {
        native_rate: 48000,
        buffer_frames: 480,
    };
    let mut s = start_session(&config, backend).unwrap();
    let block = words(&[0.1, -0.2, 0.3]);
    assert_eq!(s.backend_publish(block.clone()), PublishOutcome::Accepted);
    assert!(matches!(s.task_poll(), TaskPoll::Delivered));
    match s.try_receive() {
        Recv::Message(Ok(out)) => {
            let out_f = floats(&out);
            assert_eq!(out_f, vec![0.1, 0.1, -0.2, -0.2, 0.3, 0.3]);
        }
        _ => panic!("expected a stereo block"),
    }
}

#[test]
fn stereo_duplication_orders_pairs() {
    let input = words(&[1.0, 2.0, 3.0, 4.0]);
    let out = duplicate_stereo(&input);
    assert_eq!(out.len(), 2 * input.len());
    for (i, &w) in input.iter().enumerate() {
        assert_eq!(out[2 * i], w);
        assert_eq!(out[2 * i + 1], w);
    }
}

#[test]
fn real_time_publish_never_blocks_and_memory_stays_bounded() {
    let mut s = mono_identity_session();
    // The consumer never runs: inject twice the queue capacity. Every call
    // returns immediately; once full, the newest block is dropped.
    let mut accepted = 0usize;
    let mut dropped = 0usize;
    for i in 0..(2 * QUEUE_CAPACITY) {
        match s.backend_publish(words(&[i as f32])) {
            PublishOutcome::Accepted => accepted += 1,
            PublishOutcome::DroppedNewest => dropped += 1,
            PublishOutcome::Disconnected => panic!("nothing was released"),
        }
    }
    assert_eq!(accepted, QUEUE_CAPACITY);
    assert_eq!(dropped, QUEUE_CAPACITY);
}

#[test]
fn backpressure_parks_the_task_until_the_consumer_drains() {
    let mut s = mono_identity_session();
    // Fill the outbound queue completely, then give the task one more block.
    for i in 0..QUEUE_CAPACITY {
        assert_eq!(
            s.backend_publish(words(&[i as f32])),
            PublishOutcome::Accepted
        );
    }
    for _ in 0..QUEUE_CAPACITY {
        assert!(matches!(s.task_poll(), TaskPoll::Delivered));
    }
    assert_eq!(
        s.backend_publish(words(&[99.0])),
        PublishOutcome::Accepted
    );
    // The outbound queue is full: the task suspends, holding its message.
    assert!(matches!(s.task_poll(), TaskPoll::Suspended));
    assert!(matches!(s.task_poll(), TaskPoll::Suspended));
    // One receive makes room; the parked message goes out on the next step.
    assert!(matches!(s.try_receive(), Recv::Message(Ok(_))));
    assert!(matches!(s.task_poll(), TaskPoll::Delivered));
    assert!(matches!(s.task_poll(), TaskPoll::Idle));
}

#[test]
fn release_shuts_the_whole_session_down() {
    let mut s = mono_identity_session();
    assert_eq!(s.backend_publish(words(&[0.5])), PublishOutcome::Accepted);
    s.release();
    // The task observes the severed consumer on its very next step and
    // detaches from the ingress queue.
    assert!(matches!(s.task_poll(), TaskPoll::Exited));
    // The backend observes the dead ingress consumer on its next publish...
    assert_eq!(
        s.backend_publish(words(&[0.7])),
        PublishOutcome::Disconnected
    );
    // ...and the drained playback queue tells its playback thread to stop.
    assert!(matches!(s.backend_playback_poll(), PopOutcome::Closed));
    s.backend_stop();
    // Release is idempotent; a defensive second release changes nothing.
    s.release();
    assert!(matches!(s.task_poll(), TaskPoll::Exited));
}

#[test]
fn playback_flows_to_the_backend_in_order() {
    let mut s = mono_identity_session();
    assert!(matches!(
        s.submit_playback(words(&[0.1]), 24000),
        SubmitOutcome::Accepted
    ));
    assert!(matches!(
        s.submit_playback(words(&[0.2, 0.3]), 48000),
        SubmitOutcome::Accepted
    ));
    match s.backend_playback_poll() {
        PopOutcome::Item(req) => {
            assert_eq!(floats(&req.samples), vec![0.1]);
            assert_eq!(req.sample_rate, 24000);
        }
        _ => panic!("expected the first request"),
    }
    match s.backend_playback_poll() {
        PopOutcome::Item(req) => {
            assert_eq!(floats(&req.samples), vec![0.2, 0.3]);
            assert_eq!(req.sample_rate, 48000);
        }
        _ => panic!("expected the second request"),
    }
    assert!(matches!(s.backend_playback_poll(), PopOutcome::Empty));
}

#[test]
fn playback_submission_fails_once_the_backend_is_gone() {
    let mut s = mono_identity_session();
    s.backend_stop();
    match s.submit_playback(words(&[0.1]), 48000) {
        SubmitOutcome::Rejected(AecError::BackendError(m)) => {
            assert_eq!(m, "playback channel disconnected")
        }
        _ => panic!("expected the submission to be rejected"),
    }
}

#[test]
fn a_full_playback_queue_returns_the_request_instead_of_dropping_it() {
    let mut s = mono_identity_session();
    for i in 0..QUEUE_CAPACITY {
        assert!(matches!(
            s.submit_playback(words(&[i as f32]), 48000),
            SubmitOutcome::Accepted
        ));
    }
    // Nothing is dropped silently: the request comes back for a retry.
    let returned = match s.submit_playback(words(&[7.5]), 24000) {
        SubmitOutcome::Full(back) => back,
        _ => panic!("expected the queue to be full"),
    };
    assert_eq!(floats(&returned.samples), vec![7.5]);
    assert_eq!(returned.sample_rate, 24000);
    // The backend drains one request; the retry is then accepted, and the
    // queue still delivers in submission order.
    assert!(matches!(s.backend_playback_poll(), PopOutcome::Item(_)));
    assert!(matches!(
        s.submit_playback(returned.samples, returned.sample_rate),
        SubmitOutcome::Accepted
    ));
}

#[test]
fn transform_failure_publishes_one_terminal_error_and_stops() {
    let config = AecConfig {
        sample_rate: 16000,
        channels: Channels::Mono,
    };
    let backend = BackendStart::Ready {
        native_rate: 48000,
        buffer_frames: 480,
    };
    let mut s = start_session(&config, backend).unwrap();
    let block: Vec<u32> = (0..480u32).collect();
    assert_eq!(s.backend_publish(block), PublishOutcome::Accepted);
    let chunks = match s.task_poll() {
        TaskPoll::NeedsTransform(c) => c,
        _ => panic!("a rate-converting session must hand out chunks"),
    };
    assert_eq!(chunks.len(), 1);
    assert_eq!(chunks[0].len(), 480);
    assert!(matches!(
        s.task_fail("resampling failed".to_string()),
        TaskPoll::Delivered
    ));
    match s.try_receive() {
        Recv::Message(Err(AecError::BackendError(m))) => assert_eq!(m, "resampling failed"),
        _ => panic!("expected the terminal error"),
    }
    // The task exited: the stream has ended and the backend sees disconnect.
    assert!(matches!(s.try_receive(), Recv::Ended));
    assert_eq!(
        s.backend_publish(vec![0u32; 4]),
        PublishOutcome::Disconnected
    );
}

#[test]
fn delivered_transform_outputs_are_reassembled_in_order() {
    let config = AecConfig {
        sample_rate: 16000,
        channels: Channels::Stereo,
    };
    let backend = BackendStart::Ready {
        native_rate: 48000,
        buffer_frames: 480,
    };
    let mut s = start_session(&config, backend).unwrap();
    // Two chunks' worth of input arrives at once.
    let block: Vec<u32> = (0..960u32).collect();
    assert_eq!(s.backend_publish(block), PublishOutcome::Accepted);
    let chunks = match s.task_poll() {
        TaskPoll::NeedsTransform(c) => c,
        _ => panic!("expected chunks"),
    };
    assert_eq!(chunks.len(), 2);
    // Simulate the transform: each 480-sample chunk becomes 160 samples.
    let outputs: Vec<Vec<u32>> = vec![(0..160u32).collect(), (1000..1160u32).collect()];
    assert!(matches!(s.task_deliver(&outputs), TaskPoll::Delivered));
    match s.try_receive() {
        Recv::Message(Ok(out)) => {
            // Concatenated in order, then duplicated to stereo.
            assert_eq!(out.len(), 2 * 320);
            assert_eq!(out[0], 0);
            assert_eq!(out[1], 0);
            assert_eq!(out[2 * 160], 1000);
            assert_eq!(out[2 * 160 + 1], 1000);
        }
        _ => panic!("expected the assembled block"),
    }
}

#[test]
fn an_idle_session_reports_idle_and_pending() {
    let mut s = mono_identity_session();
    assert!(matches!(s.task_poll(), TaskPoll::Idle));
    assert!(matches!(s.try_receive(), Recv::Pending));
}
