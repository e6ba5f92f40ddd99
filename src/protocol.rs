//! Requests to and replies from the generation service, as text.
use vstd::prelude::*;
use vstd::string::StringExecFns;
use crate::json::{
    i64_at, is_json, item_str_at, json_i64_at, json_item_str_at, json_len_at, json_parses,
    json_str_at, json_string_literal, len_at, opt_view, quote_json, str_at,
};
use crate::types::{DalleResponse, GenerationError, PollStatus};

verus! {

/// Where tasks are submitted.
pub const TASKS_URL: &'static str = "https://labs.openai.com/api/labs/tasks";

/// Where the remaining credits are reported.
pub const CREDITS_URL: &'static str = "https://labs.openai.com/api/labs/billing/credit_summary";

/// The usual pause, in seconds, after a pending answer before polling again.
pub const POLL_INTERVAL_SECS: u64 = 2;

pub open spec fn submit_body_spec(caption_literal: Seq<char>) -> Seq<char> {
    "{\"task_type\": \"text2im\", \"prompt\": {\"caption\": "@ + caption_literal
        + ", \"batch_size\": 4}}"@
}

/// The submission body around an already quoted caption.
pub fn submit_body_for_caption(caption_literal: &str) -> (r: String)
    ensures
        r@ == submit_body_spec(caption_literal@),
{
    let mut body = String::from_str("{\"task_type\": \"text2im\", \"prompt\": {\"caption\": ");
    body.append(caption_literal);
    body.append(", \"batch_size\": 4}}");
    body
}

/// The JSON body that submits `prompt` as the caption of a text-to-image task.
pub fn submit_body(prompt: &str) -> (r: String)
    ensures
        r@ == submit_body_spec(json_string_literal(prompt@)),
{
    let quoted = quote_json(prompt);
    submit_body_for_caption(quoted.as_str())
}

pub open spec fn task_url_spec(task_id: Seq<char>) -> Seq<char> {
    "https://labs.openai.com/api/labs/tasks/"@ + task_id
}

/// The status URL of one task.
pub fn task_url(task_id: &str) -> (r: String)
    ensures
        r@ == task_url_spec(task_id@),
{
    let mut url = String::from_str("https://labs.openai.com/api/labs/tasks/");
    url.append(task_id);
    url
}

/// A protocol error with exactly this message.
pub open spec fn protocol_failure<T>(r: Result<T, GenerationError>, message: Seq<char>) -> bool {
    r matches Err(GenerationError::Protocol(m)) && m@ == message
}

/// A protocol error whose message is `what` followed by `detail`.
fn protocol_error(what: &str, detail: &str) -> (r: GenerationError)
    ensures
        r matches GenerationError::Protocol(m) && m@ == what@ + detail@,
{
    let mut message = String::from_str(what);
    message.append(detail);
    GenerationError::Protocol(message)
}

/// The task identifier found in a submission reply, or a protocol error
/// naming the reply when it has none.
pub fn task_id_from(id: Option<String>, reply: &str) -> (r: Result<String, GenerationError>)
    ensures
        id matches Some(s) ==> r == Ok::<String, GenerationError>(s),
        id is None ==> protocol_failure(r, "expected task id to be string, but instead got "@ + reply@),
{
    match id {
        Some(id) => Ok(id),
        None => Err(protocol_error("expected task id to be string, but instead got ", reply)),
    }
}

/// The task identifier in a submission reply: its string at `/id`. A reply
/// that is not JSON, or has no such string, is a protocol error.
pub fn read_task_id(reply: &str) -> (r: Result<String, GenerationError>)
    ensures
        json_str_at(reply@, "/id"@) matches Some(s) ==> (r matches Ok(id) && id@ == s),
        json_str_at(reply@, "/id"@) is None ==> protocol_failure(r, "expected task id to be string, but instead got "@ + reply@),
        !json_parses(reply@) ==> r is Err,
{
    task_id_from(str_at(reply, "/id"), reply)
}

/// What a status reply holds, as plain values: its string at `/status`, and
/// for each element of the array at `/generations/data` its string at
/// `/generation/image_path` (`images` is `None` when there is no such array).
#[derive(Debug, Clone)]
pub struct TaskReply {
    pub status: Option<String>,
    pub images: Option<Vec<Option<String>>>,
}

pub open spec fn images_view(images: Option<Vec<Option<String>>>) -> Option<Seq<Option<Seq<char>>>> {
    match images {
        Some(v) => Some(v@.map_values(|o: Option<String>| opt_view(o))),
        None => None,
    }
}

/// The status of the reply `text`, as serde_json reads it.
pub open spec fn reply_status(text: Seq<char>) -> Option<Seq<char>> {
    json_str_at(text, "/status"@)
}

/// The image paths of the reply `text`, as serde_json reads them.
pub open spec fn reply_images(text: Seq<char>) -> Option<Seq<Option<Seq<char>>>> {
    match json_len_at(text, "/generations/data"@) {
        Some(n) => Some(
            Seq::new(
                n,
                |i: int|
                    json_item_str_at(
                        text,
                        "/generations/data"@,
                        i as nat,
                        "/generation/image_path"@,
                    ),
            ),
        ),
        None => None,
    }
}

/// A success reply must list at least one image, each with a path.
pub open spec fn images_complete(images: Seq<Option<Seq<char>>>) -> bool {
    &&& images.len() > 0
    &&& forall|i: int| 0 <= i < images.len() ==> (#[trigger] images[i]) is Some
}

/// The image references of a complete list, in order.
pub open spec fn image_refs_match(refs: Seq<DalleResponse>, images: Seq<Option<Seq<char>>>) -> bool {
    &&& refs.len() == images.len()
    &&& forall|i: int| 0 <= i < refs.len() ==> (#[trigger] refs[i]).image_url@ == images[i]->Some_0
}

/// What a status reply with these fields means: the task succeeded with its
/// images, is still pending, was rejected (with the raw reply in the message), or the
/// reply breaks the protocol (no status, an unknown status, or a success
/// without a complete image list).
pub open spec fn task_reply_meaning(
    status: Option<Seq<char>>,
    images: Option<Seq<Option<Seq<char>>>>,
    raw: Seq<char>,
    r: Result<PollStatus, GenerationError>,
) -> bool {
    match status {
        None => r matches Err(GenerationError::Protocol(m)) && m@
            == "expected res to have task status, but got "@ + raw,
        Some(s) => if s == "succeeded"@ {
            if images is Some && images_complete(images->Some_0) {
                r matches Ok(PollStatus::Done(refs)) && image_refs_match(refs@, images->Some_0)
            } else {
                r matches Err(GenerationError::Protocol(m)) && m@
                    == "expected result to have generations, but got "@ + raw
            }
        } else if s == "rejected"@ {
            r matches Err(GenerationError::Rejected(m)) && m@
                == "Generation is rejected. Full response: "@ + raw
        } else if s == "pending"@ {
            r matches Ok(PollStatus::Pending)
        } else {
            r matches Err(GenerationError::Protocol(m)) && m@ == "Invalid task status: "@ + s
        },
    }
}

/// The image references of a success reply, or `None` when the list is empty
/// or an entry has no path.
pub fn collect_generations(images: &Vec<Option<String>>) -> (r: Option<Vec<DalleResponse>>)
    ensures
        r is Some == images_complete(images_view(Some(*images))->Some_0),
        r matches Some(refs) ==> image_refs_match(refs@, images_view(Some(*images))->Some_0),
{
    let ghost view = images_view(Some(*images))->Some_0;
    if images.len() == 0 {
        return None;
    }
    let mut refs: Vec<DalleResponse> = Vec::new();
    let mut i: usize = 0;
    while i < images.len()
        invariant
            view == images@.map_values(|o: Option<String>| opt_view(o)),
            0 <= i <= images@.len(),
            refs@.len() == i,
            forall|j: int| 0 <= j < i ==> (#[trigger] view[j]) is Some,
            forall|j: int| 0 <= j < i ==> (#[trigger] refs@[j]).image_url@ == view[j]->Some_0,
        decreases images@.len() - i,
    {
        match &images[i] {
            Some(path) => {
                refs.push(DalleResponse { image_url: path.clone() });
            },
            None => {
                assert(view[i as int] is None);
                return None;
            },
        }
        i = i + 1;
    }
    Some(refs)
}

/// Classifies a status reply; `raw` is the reply's full text, kept in a
/// rejection for diagnostics.
pub fn classify_task_reply(reply: &TaskReply, raw: &str) -> (r: Result<PollStatus, GenerationError>)
    ensures
        task_reply_meaning(opt_view(reply.status), images_view(reply.images), raw@, r),
{
    let status = match &reply.status {
        Some(s) => s,
        None => {
            return Err(protocol_error("expected res to have task status, but got ", raw));
        },
    };
    if status.eq(&String::from_str("succeeded")) {
        match &reply.images {
            Some(images) => match collect_generations(images) {
                Some(refs) => Ok(PollStatus::Done(refs)),
                None => Err(protocol_error("expected result to have generations, but got ", raw)),
            },
            None => Err(protocol_error("expected result to have generations, but got ", raw)),
        }
    } else if status.eq(&String::from_str("rejected")) {
        let mut message = String::from_str("Generation is rejected. Full response: ");
        message.append(raw);
        Err(GenerationError::Rejected(message))
    } else if status.eq(&String::from_str("pending")) {
        Ok(PollStatus::Pending)
    } else {
        Err(protocol_error("Invalid task status: ", status.as_str()))
    }
}

/// Reads the parts of a status reply that the lifecycle depends on; `None`
/// when the text is not JSON.
pub fn read_task_reply(reply: &str) -> (r: Option<TaskReply>)
    ensures
        r is Some == json_parses(reply@),
        r matches Some(t) ==> opt_view(t.status) == reply_status(reply@) && images_view(t.images)
            == reply_images(reply@),
{
    if !is_json(reply) {
        return None;
    }
    let status = str_at(reply, "/status");
    let images = match len_at(reply, "/generations/data") {
        Some(n) => {
            let mut paths: Vec<Option<String>> = Vec::new();
            let mut i: usize = 0;
            while i < n
                invariant
                    0 <= i <= n,
                    paths@.len() == i,
                    forall|j: int|
                        0 <= j < i ==> opt_view(#[trigger] paths@[j]) == json_item_str_at(
                            reply@,
                            "/generations/data"@,
                            j as nat,
                            "/generation/image_path"@,
                        ),
                decreases n - i,
            {
                paths.push(item_str_at(reply, "/generations/data", i, "/generation/image_path"));
                i = i + 1;
            }
            assert(paths@.map_values(|o: Option<String>| opt_view(o)) =~= reply_images(
                reply@,
            )->Some_0);
            Some(paths)
        },
        None => None,
    };
    Some(TaskReply { status, images })
}

/// Interprets the text of a status reply. Text that is not JSON is a protocol
/// error; otherwise the result is what the reply's fields mean.
pub fn get_task(reply: &str) -> (r: Result<PollStatus, GenerationError>)
    ensures
        !json_parses(reply@) ==> protocol_failure(r, "expected task reply to be JSON, but got "@ + reply@),
        json_parses(reply@) ==> task_reply_meaning(
            reply_status(reply@),
            reply_images(reply@),
            reply@,
            r,
        ),
{
    match read_task_reply(reply) {
        Some(t) => classify_task_reply(&t, reply),
        None => Err(protocol_error("expected task reply to be JSON, but got ", reply)),
    }
}

/// The credit count found in a credit summary reply, or a protocol error
/// naming the reply when it has none.
pub fn credits_from(amount: Option<i64>, reply: &str) -> (r: Result<i64, GenerationError>)
    ensures
        amount matches Some(n) ==> r == Ok::<i64, GenerationError>(n),
        amount is None ==> protocol_failure(r, "Expected to have 'breakdown->paid_dalle_15_115' but got "@ + reply@),
{
    match amount {
        Some(n) => Ok(n),
        None => Err(
            protocol_error("Expected to have 'breakdown->paid_dalle_15_115' but got ", reply),
        ),
    }
}

/// The paid credits left, from a credit summary reply: its integer at
/// `/breakdown/paid_dalle_15_115`.
pub fn read_remaining_credits(reply: &str) -> (r: Result<i64, GenerationError>)
    ensures
        forall|n: i64|
            r == Ok::<i64, GenerationError>(n) <==> json_i64_at(
                reply@,
                "/breakdown/paid_dalle_15_115"@,
            ) == Some(n),
        json_i64_at(reply@, "/breakdown/paid_dalle_15_115"@) is None ==> protocol_failure(
            r,
            "Expected to have 'breakdown->paid_dalle_15_115' but got "@ + reply@,
        ),
        !json_parses(reply@) ==> r is Err,
{
    credits_from(i64_at(reply, "/breakdown/paid_dalle_15_115"), reply)
}

} // verus!
