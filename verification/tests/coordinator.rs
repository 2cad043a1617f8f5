use crossbeam_channel::bounded;
use crossbeam_channel::TryRecvError;
use crossbeam_channel::TrySendError;
use summits::coordinator::Polled;
use summits::coordinator::RendererAction;
use summits::coordinator::RendererState;

fn rendering(token: &str) -> RendererState {
    RendererState::Rendering(token.to_string())
}

fn request(token: &str) -> Polled {
    Polled::Request(token.to_string())
}

#[test]
fn renderer_starts_idle_and_rests() {
    let state = RendererState::new();
    assert!(state.wants_request());
    let (state, action) = state.tick(Polled::Empty, false);
    assert!(matches!(state, RendererState::Idle));
    assert!(matches!(action, RendererAction::Rest));
    let (state, action) = state.tick(Polled::NotPolled, true);
    assert!(matches!(state, RendererState::Idle));
    assert!(matches!(action, RendererAction::Rest));
}

#[test]
fn request_starts_a_rebuild() {
    let (state, action) = RendererState::Idle.tick(request("0x5"), false);
    assert!(matches!(state, RendererState::Rendering(ref t) if t == "0x5"));
    assert!(matches!(action, RendererAction::Rebuild(ref t) if t == "0x5"));
    assert!(!state.wants_request());
}

#[test]
fn request_starts_a_rebuild_even_when_an_image_waits() {
    let (state, action) = RendererState::Idle.tick(request("0x5"), true);
    assert!(matches!(state, RendererState::Rendering(ref t) if t == "0x5"));
    assert!(matches!(action, RendererAction::Rebuild(ref t) if t == "0x5"));
}

#[test]
fn capture_waits_for_an_empty_image_slot() {
    let (state, action) = rendering("0x5").tick(Polled::NotPolled, true);
    assert!(matches!(state, RendererState::Rendering(ref t) if t == "0x5"));
    assert!(matches!(action, RendererAction::Skip));
    let (state, action) = state.tick(Polled::NotPolled, true);
    assert!(matches!(action, RendererAction::Skip));
    let (state, action) = state.tick(Polled::NotPolled, false);
    assert!(matches!(state, RendererState::Idle));
    assert!(matches!(action, RendererAction::Capture(ref t) if t == "0x5"));
}

#[test]
fn closed_request_slot_halts() {
    let (state, action) = RendererState::Idle.tick(Polled::Closed, false);
    assert!(matches!(state, RendererState::Halted));
    assert!(matches!(action, RendererAction::Halt));
    assert!(!state.wants_request());
    let (state, action) = state.tick(request("0x5"), false);
    assert!(matches!(state, RendererState::Halted));
    assert!(matches!(action, RendererAction::Halt));
}

#[test]
fn request_taken_while_an_image_is_owed_halts() {
    for polled in [request("0x6"), Polled::Empty, Polled::Closed] {
        let (state, action) = rendering("0x5").tick(polled, false);
        assert!(matches!(state, RendererState::Halted));
        assert!(matches!(action, RendererAction::Halt));
    }
}

#[test]
fn failed_push_halts() {
    assert!(matches!(rendering("0x5").push_failed(), RendererState::Halted));
    assert!(matches!(RendererState::Idle.push_failed(), RendererState::Halted));
}

fn poll(
    state: &RendererState,
    requests: &crossbeam_channel::Receiver<String>,
) -> Polled {
    if !state.wants_request() {
        return Polled::NotPolled;
    }
    match requests.try_recv() {
        Ok(token) => Polled::Request(token),
        Err(TryRecvError::Empty) => Polled::Empty,
        Err(TryRecvError::Disconnected) => Polled::Closed,
    }
}

#[test]
fn second_request_waits_and_nothing_is_overwritten() {
    let (request_in, request_out) = bounded::<String>(1);
    let (image_in, image_out) = bounded::<String>(1);
    let mut state = RendererState::new();

    // The first request goes in; a second one finds the slot full.
    request_in.try_send("first".to_string()).unwrap();
    assert!(matches!(request_in.try_send("second".to_string()), Err(TrySendError::Full(_))));

    // The renderer takes it and builds the scene.
    let polled = poll(&state, &request_out);
    let (next, action) = state.tick(polled, image_in.is_full());
    state = next;
    assert!(matches!(action, RendererAction::Rebuild(ref t) if t == "first"));

    // Now the second request fits into the slot, but the renderer leaves it there.
    request_in.try_send("second".to_string()).unwrap();
    let polled = poll(&state, &request_out);
    assert!(matches!(polled, Polled::NotPolled));
    let (next, action) = state.tick(polled, image_in.is_full());
    state = next;
    let RendererAction::Capture(token) = action else { panic!("no capture") };
    image_in.try_send(format!("image of {}", token)).unwrap();

    // The second scene is built, but its capture waits for the first image to be taken.
    let polled = poll(&state, &request_out);
    let (next, action) = state.tick(polled, image_in.is_full());
    state = next;
    assert!(matches!(action, RendererAction::Rebuild(ref t) if t == "second"));
    for _ in 0..3 {
        let polled = poll(&state, &request_out);
        let (next, action) = state.tick(polled, image_in.is_full());
        state = next;
        assert!(matches!(action, RendererAction::Skip));
    }
    assert_eq!(image_out.try_recv().unwrap(), "image of first");
    let polled = poll(&state, &request_out);
    let (next, action) = state.tick(polled, image_in.is_full());
    state = next;
    let RendererAction::Capture(token) = action else { panic!("no capture") };
    image_in.try_send(format!("image of {}", token)).unwrap();
    assert_eq!(image_out.try_recv().unwrap(), "image of second");
    assert!(state.wants_request());
    assert!(matches!(poll(&state, &request_out), Polled::Empty));
}

#[test]
fn dropped_sender_is_seen_as_closed() {
    let (request_in, request_out) = bounded::<String>(1);
    drop(request_in);
    let state = RendererState::new();
    let polled = poll(&state, &request_out);
    let (state, action) = state.tick(polled, false);
    assert!(matches!(state, RendererState::Halted));
    assert!(matches!(action, RendererAction::Halt));
}
