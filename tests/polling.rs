use dalle::{DalleResponse, GenerationError, PollDecision, PollLoop, PollStatus};

fn images(n: usize) -> Vec<DalleResponse> {
    (0..n)
        .map(|i| DalleResponse { image_url: format!("https://images.test/{}.webp", i) })
        .collect()
}

fn transport() -> Result<PollStatus, GenerationError> {
    Err(GenerationError::Transport("connection reset".to_string()))
}

#[test]
fn timeout_after_budget_plus_one_polls() {
    let mut budget = PollLoop::new(2);
    let mut polls = 0;
    loop {
        polls += 1;
        match budget.record_poll(Ok(PollStatus::Pending)) {
            PollDecision::PollAgain { sleep_first } => assert!(sleep_first),
            PollDecision::Finish(r) => {
                assert_eq!(r, Err(GenerationError::Timeout(3)));
                break;
            }
        }
    }
    assert_eq!(polls, 3);
    assert!(budget.is_finished());
}

#[test]
fn zero_budget_polls_once() {
    let mut budget = PollLoop::new(0);
    match budget.record_poll(Ok(PollStatus::Pending)) {
        PollDecision::Finish(r) => assert_eq!(r, Err(GenerationError::Timeout(1))),
        other => panic!("unexpected {:?}", other),
    }
}

#[test]
fn success_on_third_poll_returns_images() {
    let mut budget = PollLoop::new(10);
    assert_eq!(budget.record_poll(Ok(PollStatus::Pending)), PollDecision::PollAgain { sleep_first: true });
    assert_eq!(budget.record_poll(transport()), PollDecision::PollAgain { sleep_first: false });
    match budget.record_poll(Ok(PollStatus::Done(images(4)))) {
        PollDecision::Finish(Ok(got)) => assert_eq!(got, images(4)),
        other => panic!("unexpected {:?}", other),
    }
    assert_eq!(budget.max_attempts(), 10);
}

#[test]
fn rejection_ends_loop_with_budget_left() {
    let mut budget = PollLoop::new(10);
    let raw = "{\"status\":\"rejected\"}".to_string();
    match budget.record_poll(Err(GenerationError::Rejected(raw.clone()))) {
        PollDecision::Finish(r) => assert_eq!(r, Err(GenerationError::Rejected(raw))),
        other => panic!("unexpected {:?}", other),
    }
}

#[test]
fn protocol_error_ends_loop() {
    let mut budget = PollLoop::new(5);
    match budget.record_poll(Err(GenerationError::Protocol("Invalid task status: x".to_string()))) {
        PollDecision::Finish(Err(GenerationError::Protocol(_))) => {}
        other => panic!("unexpected {:?}", other),
    }
}

#[test]
fn transport_error_retries_without_pause() {
    let mut budget = PollLoop::new(1);
    assert_eq!(budget.record_poll(transport()), PollDecision::PollAgain { sleep_first: false });
    assert!(!budget.is_finished());
}

#[test]
fn transport_error_on_last_attempt_times_out() {
    let mut budget = PollLoop::new(1);
    assert_eq!(budget.record_poll(transport()), PollDecision::PollAgain { sleep_first: false });
    assert_eq!(budget.record_poll(transport()), PollDecision::Finish(Err(GenerationError::Timeout(2))));
}
