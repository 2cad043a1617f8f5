use summits::mint_filter::MintEvent;
use summits::pipeline::Action;
use summits::pipeline::BatchDriver;
use summits::pipeline::Outcome;
use summits::pipeline::Phase;
use summits::pipeline::PipelineError;
use summits::pipeline::ProcessingResult;

fn event(token: &str, version: u64) -> MintEvent {
    MintEvent { token_address: token.to_string(), stream_version: version }
}

fn two_events() -> (BatchDriver, Action) {
    BatchDriver::new(vec![event("0xa", 11), event("0xb", 15)], 10, 19)
}

#[test]
fn batch_without_mints_is_done_at_once() {
    let (driver, action) = BatchDriver::new(Vec::new(), 10, 19);
    assert_eq!(driver.phase, Phase::Finished);
    assert!(matches!(
        action,
        Action::Done(ProcessingResult { start_version: 10, end_version: 19 })
    ));
}

#[test]
fn events_are_rendered_and_stored_in_order() {
    let (mut driver, action) = two_events();
    assert!(matches!(action, Action::Request(ref t) if t == "0xa"));
    assert!(matches!(driver.step(Outcome::Sent), Action::AwaitImage));
    let action = driver.step(Outcome::Image(vec![1, 2, 3]));
    assert!(matches!(
        action,
        Action::WriteImage { ref image, ref token_address }
            if *image == vec![1, 2, 3] && token_address == "0xa"
    ));
    assert_eq!(driver.completed, 0);
    let action = driver.step(Outcome::Written);
    assert_eq!(driver.completed, 1);
    assert!(matches!(action, Action::Request(ref t) if t == "0xb"));
    assert!(matches!(driver.step(Outcome::Sent), Action::AwaitImage));
    let action = driver.step(Outcome::Image(vec![9]));
    assert!(matches!(
        action,
        Action::WriteImage { ref image, ref token_address }
            if *image == vec![9] && token_address == "0xb"
    ));
    let action = driver.step(Outcome::Written);
    assert_eq!(driver.completed, 2);
    assert_eq!(driver.phase, Phase::Finished);
    assert!(matches!(
        action,
        Action::Done(ProcessingResult { start_version: 10, end_version: 19 })
    ));
}

#[test]
fn finished_batch_stays_finished() {
    let (mut driver, _) = BatchDriver::new(Vec::new(), 1, 2);
    for outcome in [Outcome::Sent, Outcome::Written, Outcome::ChannelClosed, Outcome::WriteFailed] {
        assert!(matches!(driver.step(outcome), Action::Done(_)));
        assert_eq!(driver.phase, Phase::Finished);
    }
}

#[test]
fn closed_channel_halts_the_batch() {
    let (mut driver, _) = two_events();
    let action = driver.step(Outcome::ChannelClosed);
    assert!(matches!(action, Action::Halt(PipelineError::RendererGone)));
    assert_eq!(driver.phase, Phase::Failed(PipelineError::RendererGone));

    let (mut driver, _) = two_events();
    driver.step(Outcome::Sent);
    let action = driver.step(Outcome::ChannelClosed);
    assert!(matches!(action, Action::Halt(PipelineError::RendererGone)));
    assert_eq!(driver.completed, 0);
}

#[test]
fn failed_write_halts_the_batch() {
    let (mut driver, _) = two_events();
    driver.step(Outcome::Sent);
    driver.step(Outcome::Image(vec![1]));
    let action = driver.step(Outcome::WriteFailed);
    assert!(matches!(action, Action::Halt(PipelineError::BlobWriteFailed)));
    assert_eq!(driver.completed, 0);
}

#[test]
fn failure_is_final() {
    let (mut driver, _) = two_events();
    driver.step(Outcome::ChannelClosed);
    for outcome in [Outcome::Sent, Outcome::Image(vec![1]), Outcome::Written] {
        assert!(matches!(driver.step(outcome), Action::Halt(PipelineError::RendererGone)));
    }
    assert_eq!(driver.completed, 0);
}

#[test]
fn outcome_out_of_turn_halts() {
    let (mut driver, _) = two_events();
    assert!(matches!(driver.step(Outcome::Written), Action::Halt(PipelineError::OutOfTurn)));

    let (mut driver, _) = two_events();
    assert!(matches!(
        driver.step(Outcome::Image(vec![1])),
        Action::Halt(PipelineError::OutOfTurn)
    ));

    let (mut driver, _) = two_events();
    driver.step(Outcome::Sent);
    assert!(matches!(driver.step(Outcome::Sent), Action::Halt(PipelineError::OutOfTurn)));

    let (mut driver, _) = two_events();
    driver.step(Outcome::Sent);
    driver.step(Outcome::Image(vec![1]));
    assert!(matches!(
        driver.step(Outcome::Image(vec![2])),
        Action::Halt(PipelineError::OutOfTurn)
    ));
    assert_eq!(driver.completed, 0);
}

#[test]
fn no_second_request_before_the_first_image_is_stored() {
    let (mut driver, first) = two_events();
    let mut requests = vec![first];
    for outcome in [Outcome::Sent, Outcome::Image(vec![0])] {
        let action = driver.step(outcome);
        assert!(!matches!(action, Action::Request(_)));
        requests.push(action);
    }
    let requested =
        requests.iter().filter(|action| matches!(action, Action::Request(_))).count();
    assert_eq!(requested, 1);
    assert!(matches!(driver.step(Outcome::Written), Action::Request(ref t) if t == "0xb"));
}
