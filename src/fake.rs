//! A generator interface and a stand-in that answers without a service.
use vstd::prelude::*;
use vstd::string::StringExecFns;
use crate::types::{DalleResponse, GenerationError, PollStatus};

verus! {

/// Something that turns a prompt into image references.
pub trait DalleClient {
    /// Submits `prompt` and waits for the images.
    fn generate(&self, prompt: &str) -> Result<Vec<DalleResponse>, GenerationError>;

    /// The current status of the task `task_id`.
    fn get_task(&self, task_id: &str) -> Result<PollStatus, GenerationError>;

    /// The paid credits left.
    fn get_remaining_credits(&self) -> Result<i64, GenerationError>;
}

/// The image that the stand-in generator returns.
pub open spec fn fake_image_url() -> Seq<char> {
    "https://cdn.discordapp.com/attachments/857693475633758228/1003608831902892082/f36a7f34-8b60-44f2-90d6-93468f40c23e.webp"@
}

/// A generator that answers at once with the same three images.
pub struct FakeDalle;

impl FakeDalle {
    pub fn images() -> (r: Vec<DalleResponse>)
        ensures
            r@.len() == 3,
            forall|i: int| 0 <= i < 3 ==> (#[trigger] r@[i]).image_url@ == fake_image_url(),
    {
        let mut images: Vec<DalleResponse> = Vec::new();
        let mut i: usize = 0;
        while i < 3
            invariant
                i <= 3,
                images@.len() == i,
                forall|j: int| 0 <= j < i ==> (#[trigger] images@[j]).image_url@ == fake_image_url(),
            decreases 3 - i,
        {
            images.push(DalleResponse {
                image_url: String::from_str(
                    "https://cdn.discordapp.com/attachments/857693475633758228/1003608831902892082/f36a7f34-8b60-44f2-90d6-93468f40c23e.webp",
                ),
            });
            i = i + 1;
        }
        images
    }
}

impl DalleClient for FakeDalle {
    fn generate(&self, _prompt: &str) -> (r: Result<Vec<DalleResponse>, GenerationError>)
        ensures
            r matches Ok(images) && images@.len() == 3 && forall|i: int|
                0 <= i < 3 ==> (#[trigger] images@[i]).image_url@ == fake_image_url(),
    {
        Ok(FakeDalle::images())
    }

    fn get_task(&self, _task_id: &str) -> (r: Result<PollStatus, GenerationError>)
        ensures
            r matches Ok(PollStatus::Done(images)) && images@.len() == 3 && forall|i: int|
                0 <= i < 3 ==> (#[trigger] images@[i]).image_url@ == fake_image_url(),
    {
        Ok(PollStatus::Done(FakeDalle::images()))
    }

    fn get_remaining_credits(&self) -> (r: Result<i64, GenerationError>)
        ensures
            r == Ok::<i64, GenerationError>(0),
    {
        Ok(0)
    }
}

/// What the chat front end keeps for its commands: the generator.
pub struct Data<TDalle: DalleClient> {
    pub dalle: TDalle,
}

} // verus!
