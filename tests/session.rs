use dalle::{get_task, read_task_id, Action, DalleResponse, Event, GenerationError, Session, Stage};

const PENDING: &str = r#"{"id":"abc123","status":"pending"}"#;
const DONE: &str = r#"{"status":"succeeded","generations":{"data":[
    {"generation":{"image_path":"https://images.test/1.webp"}},
    {"generation":{"image_path":"https://images.test/2.webp"}},
    {"generation":{"image_path":"https://images.test/3.webp"}},
    {"generation":{"image_path":"https://images.test/4.webp"}}]}}"#;

/// Runs a session against scripted replies; returns the result, the number
/// of submissions, status requests and pauses.
fn drive(
    prompt: &str,
    max_attempts: usize,
    submit_reply: &str,
    poll_replies: &[&str],
) -> (Result<Vec<DalleResponse>, GenerationError>, usize, usize, usize) {
    let (mut session, mut action) = Session::start(prompt, max_attempts, 2);
    let (mut submits, mut polls, mut sleeps) = (0, 0, 0);
    let mut replies = poll_replies.iter();
    loop {
        let event = match action {
            Action::Submit(_) => {
                submits += 1;
                Event::Submitted(read_task_id(submit_reply))
            }
            Action::Poll(id) => {
                assert_eq!(id, "abc123");
                polls += 1;
                Event::Polled(get_task(replies.next().expect("no more scripted replies")))
            }
            Action::Sleep(secs) => {
                assert_eq!(secs, 2);
                sleeps += 1;
                Event::Slept
            }
            Action::Finish(r) => return (r, submits, polls, sleeps),
        };
        assert!(session.accepts(&event));
        action = session.handle(event);
    }
}

#[test]
fn start_asks_for_submission_first() {
    let (session, action) = Session::start("a red cube", 3, 2);
    assert_eq!(session.stage(), Stage::Submitting);
    assert_eq!(
        action,
        Action::Submit(
            r#"{"task_type": "text2im", "prompt": {"caption": "a red cube", "batch_size": 4}}"#
                .to_string()
        )
    );
    assert!(!session.accepts(&Event::Slept));
}

#[test]
fn red_cube_succeeds_on_third_poll() {
    let (r, submits, polls, sleeps) =
        drive("a red cube", 10, r#"{"id":"abc123"}"#, &[PENDING, PENDING, DONE]);
    let urls: Vec<String> = r.unwrap().into_iter().map(|d| d.image_url).collect();
    assert_eq!(
        urls,
        vec![
            "https://images.test/1.webp",
            "https://images.test/2.webp",
            "https://images.test/3.webp",
            "https://images.test/4.webp"
        ]
    );
    assert_eq!((submits, polls, sleeps), (1, 3, 2));
}

#[test]
fn rejection_on_first_poll() {
    let raw = r#"{"status":"rejected","status_information":{"type":"error","code":"task_failed_text_safety_system"}}"#;
    let (r, submits, polls, sleeps) = drive("a red cube", 10, r#"{"id":"abc123"}"#, &[raw]);
    assert_eq!(
        r,
        Err(GenerationError::Rejected(format!("Generation is rejected. Full response: {}", raw)))
    );
    assert_eq!((submits, polls, sleeps), (1, 1, 0));
}

#[test]
fn pending_forever_times_out() {
    let (r, submits, polls, sleeps) =
        drive("p", 2, r#"{"id":"abc123"}"#, &[PENDING, PENDING, PENDING, PENDING]);
    assert_eq!(r, Err(GenerationError::Timeout(3)));
    assert_eq!((submits, polls, sleeps), (1, 3, 2));
}

#[test]
fn failed_submission_never_polls() {
    let (r, submits, polls, _) = drive("p", 2, r#"{"error":"unauthorized"}"#, &[]);
    assert!(matches!(r, Err(GenerationError::Protocol(_))));
    assert_eq!((submits, polls), (1, 0));
}

#[test]
fn transport_error_then_success() {
    let (mut session, _) = Session::start("p", 1, 2);
    assert_eq!(session.handle(Event::Submitted(Ok("abc123".to_string()))), Action::Poll("abc123".to_string()));
    assert_eq!(
        session.handle(Event::Polled(Err(GenerationError::Transport("reset".to_string())))),
        Action::Poll("abc123".to_string())
    );
    match session.handle(Event::Polled(get_task(DONE))) {
        Action::Finish(Ok(images)) => assert_eq!(images.len(), 4),
        other => panic!("unexpected {:?}", other),
    }
    assert_eq!(session.stage(), Stage::Finished);
}

#[test]
fn cancellation_during_pause_ends_generation() {
    let (mut session, _) = Session::start("p", 5, 2);
    session.handle(Event::Submitted(Ok("abc123".to_string())));
    assert_eq!(session.handle(Event::Polled(get_task(PENDING))), Action::Sleep(2));
    assert!(session.accepts(&Event::Cancelled));
    assert_eq!(session.handle(Event::Cancelled), Action::Finish(Err(GenerationError::Cancelled)));
    assert_eq!(session.stage(), Stage::Finished);
    assert!(!session.accepts(&Event::Cancelled));
}

#[test]
fn mixed_answers_stay_within_budget() {
    let (r, _, polls, sleeps) = drive(
        "p",
        3,
        r#"{"id":"abc123"}"#,
        &[PENDING, "<html>502</html>", PENDING, PENDING, PENDING],
    );
    assert!(matches!(r, Err(GenerationError::Protocol(_))));
    assert_eq!((polls, sleeps), (2, 1));
}
