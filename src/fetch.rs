//! Realising image references into bytes, best effort: each reference is
//! fetched once, independently, and a failure only leaves that image out.
use vstd::prelude::*;
use vstd::string::StringExecFns;
use crate::types::DalleResponse;

verus! {

/// One downloaded image, under a freshly generated file name.
#[derive(Debug, Clone, PartialEq, Eq)]
pub struct FetchedArtifact {
    pub content: Vec<u8>,
    pub filename: String,
}

/// One reference that could not be fetched, and why.
#[derive(Debug, Clone, PartialEq, Eq)]
pub struct FetchError {
    pub image_url: String,
    pub message: String,
}

/// The file name given to a downloaded image whose fresh identifier is `id`.
pub open spec fn artifact_filename_spec(id: Seq<char>) -> Seq<char> {
    id + ".webp"@
}

/// The hyphenated text of the version 4 UUID built from these random bits.
pub uninterp spec fn uuid_v4_text(random: u128) -> Seq<char>;

/// Relies on uuid::Builder::from_random_bytes, which sets the version and
/// variant bits and cannot fail, and on the UUID's `Display`, which writes the
/// hyphenated form of 36 characters.
#[verifier::external_body]
fn uuid_text(random: u128) -> (r: String)
    ensures
        r@ == uuid_v4_text(random),
        r@.len() == 36,
{
    uuid::Builder::from_random_bytes(random.to_le_bytes()).into_uuid().to_string()
}

/// The file name for an image with identifier `id`.
pub fn artifact_filename(id: &str) -> (r: String)
    ensures
        r@ == artifact_filename_spec(id@),
{
    let mut name = String::from_str(id);
    name.append(".webp");
    name
}

/// A fresh file name: the UUID made from `random` and `.webp`.
pub fn fresh_filename(random: u128) -> (r: String)
    ensures
        r@ == artifact_filename_spec(uuid_v4_text(random)),
        r@.len() == 41,
{
    let id = uuid_text(random);
    proof {
        reveal_strlit(".webp");
    }
    artifact_filename(id.as_str())
}

/// The random bits given to the downloads that succeeded, in order.
pub open spec fn success_randoms(downloads: Seq<Result<Vec<u8>, String>>, random: Seq<u128>) -> Seq<u128>
    decreases downloads.len(),
{
    if downloads.len() == 0 {
        Seq::empty()
    } else {
        let rest = success_randoms(downloads.drop_last(), random.drop_last());
        match downloads.last() {
            Ok(_) => rest.push(random.last()),
            Err(_) => rest,
        }
    }
}

/// The payloads of the downloads that succeeded, in order.
pub open spec fn successes(downloads: Seq<Result<Vec<u8>, String>>) -> Seq<Vec<u8>>
    decreases downloads.len(),
{
    if downloads.len() == 0 {
        Seq::empty()
    } else {
        let rest = successes(downloads.drop_last());
        match downloads.last() {
            Ok(content) => rest.push(content),
            Err(_) => rest,
        }
    }
}

/// The failures among the downloads, each with its reference, in order.
pub open spec fn failures(refs: Seq<DalleResponse>, downloads: Seq<Result<Vec<u8>, String>>) -> Seq<FetchError>
    decreases downloads.len(),
{
    if downloads.len() == 0 {
        Seq::empty()
    } else {
        let rest = failures(refs.drop_last(), downloads.drop_last());
        match downloads.last() {
            Ok(_) => rest,
            Err(message) => rest.push(
                FetchError { image_url: refs.last().image_url, message },
            ),
        }
    }
}

/// Sorts the outcome of one download per reference (`downloads[i]` for
/// `refs[i]`) into the images fetched, each named after a UUID made from its
/// own random bits (`random[i]`), and the failures; both keep the order of the
/// references.
pub fn fetch_all(
    refs: &Vec<DalleResponse>,
    downloads: Vec<Result<Vec<u8>, String>>,
    random: &Vec<u128>,
) -> (r: (Vec<FetchedArtifact>, Vec<FetchError>))
    requires
        refs@.len() == downloads@.len(),
        random@.len() == downloads@.len(),
    ensures
        r.0@.len() == successes(downloads@).len(),
        forall|i: int|
            0 <= i < r.0@.len() ==> (#[trigger] r.0@[i]).content == successes(downloads@)[i],
        forall|i: int|
            0 <= i < r.0@.len() ==> (#[trigger] r.0@[i]).filename@ == artifact_filename_spec(
                uuid_v4_text(success_randoms(downloads@, random@)[i]),
            ),
        r.1@ == failures(refs@, downloads@),
{
    let mut fetched: Vec<FetchedArtifact> = Vec::new();
    let mut errors: Vec<FetchError> = Vec::new();
    let mut downloads = downloads;
    let ghost all = downloads@;
    let mut i: usize = 0;
    while i < refs.len()
        invariant
            refs@.len() == all.len(),
            0 <= i <= all.len(),
            downloads@.len() == all.len() - i,
            downloads@ == all.skip(i as int),
            fetched@.len() == successes(all.take(i as int)).len(),
            forall|j: int|
                0 <= j < fetched@.len() ==> (#[trigger] fetched@[j]).content == successes(
                    all.take(i as int),
                )[j],
            random@.len() == all.len(),
            success_randoms(all.take(i as int), random@.take(i as int)).len() == fetched@.len(),
            forall|j: int|
                0 <= j < fetched@.len() ==> (#[trigger] fetched@[j]).filename@
                    == artifact_filename_spec(
                    uuid_v4_text(success_randoms(all.take(i as int), random@.take(i as int))[j]),
                ),
            errors@ == failures(refs@.take(i as int), all.take(i as int)),
        decreases all.len() - i,
    {
        let outcome = downloads.remove(0);
        proof {
            assert(outcome == all[i as int]);
            assert(downloads@ =~= all.skip(i + 1));
            assert(all.take(i + 1).drop_last() == all.take(i as int));
            assert(refs@.take(i + 1).drop_last() == refs@.take(i as int));
            assert(random@.take(i + 1).drop_last() == random@.take(i as int));
        }
        match outcome {
            Ok(content) => {
                fetched.push(FetchedArtifact { content, filename: fresh_filename(random[i]) });
            },
            Err(message) => {
                errors.push(FetchError { image_url: refs[i].image_url.clone(), message });
            },
        }
        i = i + 1;
    }
    proof {
        assert(all.take(all.len() as int) == all);
        assert(refs@.take(all.len() as int) == refs@);
        assert(random@.take(all.len() as int) == random@);
    }
    (fetched, errors)
}

proof fn lemma_all_succeed(refs: Seq<DalleResponse>, downloads: Seq<Result<Vec<u8>, String>>)
    requires
        refs.len() == downloads.len(),
        forall|i: int| 0 <= i < downloads.len() ==> (#[trigger] downloads[i]) is Ok,
    ensures
        successes(downloads).len() == downloads.len(),
        forall|i: int|
            0 <= i < downloads.len() ==> #[trigger] successes(downloads)[i] == downloads[i]->Ok_0,
        failures(refs, downloads) == Seq::<FetchError>::empty(),
    decreases downloads.len(),
{
    if downloads.len() > 0 {
        let dl = downloads.drop_last();
        assert forall|i: int| 0 <= i < dl.len() implies (#[trigger] dl[i]) is Ok by {
            assert(dl[i] == downloads[i]);
        }
        lemma_all_succeed(refs.drop_last(), dl);
        assert(downloads.last() == downloads[downloads.len() - 1]);
    }
}

/// With exactly one of M downloads failing (the one at `failed`), M - 1
/// images are kept, in the order of their references, and exactly one
/// failure is reported, for that reference.
pub proof fn lemma_one_failure(
    refs: Seq<DalleResponse>,
    downloads: Seq<Result<Vec<u8>, String>>,
    failed: int,
)
    requires
        refs.len() == downloads.len(),
        0 <= failed < downloads.len(),
        downloads[failed] is Err,
        forall|i: int| 0 <= i < downloads.len() && i != failed ==> (#[trigger] downloads[i]) is Ok,
    ensures
        successes(downloads).len() == downloads.len() - 1,
        forall|i: int|
            0 <= i < downloads.len() - 1 ==> #[trigger] successes(downloads)[i] == (if i < failed {
                downloads[i]->Ok_0
            } else {
                downloads[i + 1]->Ok_0
            }),
        failures(refs, downloads) == seq![
            FetchError { image_url: refs[failed].image_url, message: downloads[failed]->Err_0 },
        ],
    decreases downloads.len(),
{
    let dl = downloads.drop_last();
    let rl = refs.drop_last();
    let last = downloads.len() - 1;
    assert(downloads.last() == downloads[last]);
    assert(refs.last() == refs[last]);
    if failed == last {
        assert forall|i: int| 0 <= i < dl.len() implies (#[trigger] dl[i]) is Ok by {
            assert(dl[i] == downloads[i]);
        }
        lemma_all_succeed(rl, dl);
        assert forall|i: int| 0 <= i < downloads.len() - 1 implies #[trigger] successes(downloads)[i] == (if i < failed {
            downloads[i]->Ok_0
        } else {
            downloads[i + 1]->Ok_0
        }) by {
            assert(dl[i] == downloads[i]);
        }
        assert(failures(refs, downloads) =~= seq![
            FetchError { image_url: refs[failed].image_url, message: downloads[failed]->Err_0 },
        ]);
    } else {
        assert forall|i: int| 0 <= i < dl.len() && i != failed implies (#[trigger] dl[i]) is Ok by {
            assert(dl[i] == downloads[i]);
        }
        assert(dl[failed] == downloads[failed]);
        assert(rl[failed] == refs[failed]);
        lemma_one_failure(rl, dl, failed);
        assert forall|i: int| 0 <= i < downloads.len() - 1 implies #[trigger] successes(downloads)[i] == (if i < failed {
            downloads[i]->Ok_0
        } else {
            downloads[i + 1]->Ok_0
        }) by {
            if i < dl.len() - 1 {
                assert(dl[i] == downloads[i]);
                assert(dl[i + 1] == downloads[i + 1]);
            }
        }
    }
}

/// Fetching no references gives no images and no failures.
pub proof fn lemma_empty_batch(refs: Seq<DalleResponse>, downloads: Seq<Result<Vec<u8>, String>>)
    requires
        refs.len() == 0,
        downloads.len() == 0,
    ensures
        successes(downloads) == Seq::<Vec<u8>>::empty(),
        failures(refs, downloads) == Seq::<FetchError>::empty(),
{
}

} // verus!
