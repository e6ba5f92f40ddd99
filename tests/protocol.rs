use dalle::protocol::{classify_task_reply, credits_from, submit_body_for_caption, task_id_from};
use dalle::{
    get_task, read_remaining_credits, read_task_id, submit_body, task_url, DalleResponse,
    GenerationError, PollStatus, TaskReply,
};

const SUCCESS: &str = r#"{"status":"succeeded","generations":{"data":[
    {"generation":{"image_path":"https://images.test/a.webp"}},
    {"generation":{"image_path":"https://images.test/b.webp"}}]}}"#;

#[test]
fn submit_body_carries_prompt_and_batch_size() {
    assert_eq!(
        submit_body("a red cube"),
        r#"{"task_type": "text2im", "prompt": {"caption": "a red cube", "batch_size": 4}}"#
    );
}

#[test]
fn submit_body_escapes_quotes() {
    assert_eq!(
        submit_body("say \"hi\""),
        r#"{"task_type": "text2im", "prompt": {"caption": "say \"hi\"", "batch_size": 4}}"#
    );
    let body: serde_json::Value = serde_json::from_str(&submit_body("a \\ b\n")).unwrap();
    assert_eq!(body["prompt"]["caption"].as_str(), Some("a \\ b\n"));
}

#[test]
fn submit_body_escapes_control_characters() {
    assert_eq!(
        submit_body("\u{1f}\t\u{8}"),
        r#"{"task_type": "text2im", "prompt": {"caption": "\u001f\t\b", "batch_size": 4}}"#
    );
}

#[test]
fn submit_body_for_caption_inserts_literal() {
    assert_eq!(
        submit_body_for_caption("\"x\""),
        r#"{"task_type": "text2im", "prompt": {"caption": "x", "batch_size": 4}}"#
    );
}

#[test]
fn task_url_appends_id() {
    assert_eq!(task_url("abc123"), "https://labs.openai.com/api/labs/tasks/abc123");
}

#[test]
fn task_id_read_from_reply() {
    assert_eq!(read_task_id(r#"{"id":"abc123","status":"pending"}"#), Ok("abc123".to_string()));
}

#[test]
fn task_id_missing_is_protocol_error() {
    assert!(matches!(read_task_id(r#"{"status":"pending"}"#), Err(GenerationError::Protocol(_))));
    assert!(matches!(read_task_id(r#"{"id":7}"#), Err(GenerationError::Protocol(_))));
    assert!(matches!(read_task_id("<html>"), Err(GenerationError::Protocol(_))));
}

#[test]
fn success_reply_lists_images_in_order() {
    assert_eq!(
        get_task(SUCCESS),
        Ok(PollStatus::Done(vec![
            DalleResponse { image_url: "https://images.test/a.webp".to_string() },
            DalleResponse { image_url: "https://images.test/b.webp".to_string() },
        ]))
    );
}

#[test]
fn pending_reply() {
    assert_eq!(get_task(r#"{"status":"pending"}"#), Ok(PollStatus::Pending));
}

#[test]
fn rejected_reply_keeps_raw_text() {
    let raw = r#"{"status":"rejected","status_information":{"type":"error"}}"#;
    assert_eq!(
        get_task(raw),
        Err(GenerationError::Rejected(format!("Generation is rejected. Full response: {}", raw)))
    );
}

#[test]
fn unknown_status_is_protocol_error() {
    assert_eq!(
        get_task(r#"{"status":"queued"}"#),
        Err(GenerationError::Protocol("Invalid task status: queued".to_string()))
    );
    assert!(matches!(get_task(r#"{"state":"pending"}"#), Err(GenerationError::Protocol(_))));
    assert!(matches!(get_task("not json"), Err(GenerationError::Protocol(_))));
}

#[test]
fn success_without_complete_images_is_protocol_error() {
    assert!(matches!(get_task(r#"{"status":"succeeded"}"#), Err(GenerationError::Protocol(_))));
    assert!(matches!(
        get_task(r#"{"status":"succeeded","generations":{"data":[]}}"#),
        Err(GenerationError::Protocol(_))
    ));
    assert!(matches!(
        get_task(r#"{"status":"succeeded","generations":{"data":[{"generation":{}}]}}"#),
        Err(GenerationError::Protocol(_))
    ));
}

#[test]
fn classify_plain_reply() {
    let reply = TaskReply {
        status: Some("succeeded".to_string()),
        images: Some(vec![Some("u".to_string())]),
    };
    assert_eq!(
        classify_task_reply(&reply, "raw"),
        Ok(PollStatus::Done(vec![DalleResponse { image_url: "u".to_string() }]))
    );
    let reply = TaskReply { status: Some("rejected".to_string()), images: None };
    assert_eq!(
        classify_task_reply(&reply, "raw"),
        Err(GenerationError::Rejected("Generation is rejected. Full response: raw".to_string()))
    );
    let reply = TaskReply { status: None, images: None };
    assert!(matches!(classify_task_reply(&reply, "raw"), Err(GenerationError::Protocol(_))));
}

#[test]
fn remaining_credits_read_from_breakdown() {
    let reply = r#"{"aggregate_credits": 64, "next_grant_ts": 1661153444,
        "breakdown": {"free": 0, "paid_dalle_15_115": 64}, "object": "credit_summary"}"#;
    assert_eq!(read_remaining_credits(reply), Ok(64));
    assert!(matches!(read_remaining_credits(r#"{"breakdown":{}}"#), Err(GenerationError::Protocol(_))));
}

#[test]
fn task_id_from_found_value() {
    assert_eq!(task_id_from(Some("abc123".to_string()), "r"), Ok("abc123".to_string()));
    assert!(matches!(task_id_from(None, "r"), Err(GenerationError::Protocol(m)) if m.ends_with("r")));
}

#[test]
fn credits_from_found_value() {
    assert_eq!(credits_from(Some(-3), "r"), Ok(-3));
    assert!(matches!(credits_from(None, "r"), Err(GenerationError::Protocol(_))));
}
