//! The bucket for the pictures. It is only made sure of at start-up: no
//! picture is stored or fetched yet.

use crate::backend::startup::{choose_endpoint, endpoint_for, Endpoint};
use crate::shared::opt_text;
use crate::text::same_text;
use vstd::prelude::*;
use vstd::string::StringExecFns;

verus! {

/// The name of the bucket.
pub fn bucket_name() -> (name: &'static str)
    ensures
        name@ == "refeed-rampage"@,
{
    "refeed-rampage"
}

/// What the object storage answered to the request for its buckets.
#[derive(Debug, Clone, PartialEq, Eq)]
pub enum BucketListing {
    /// The names of the buckets, where the answer holds a list; a bucket
    /// may lack a name.
    Listed(Option<Vec<Option<String>>>),
    Failed(String),
}

/// What is to be done about the bucket.
#[derive(Debug, Clone, PartialEq, Eq)]
pub enum BucketStep {
    /// The bucket is there.
    Ready,
    /// The bucket of this name is to be created.
    Create(String),
    /// The object storage is not there; the process must stop.
    Abort(String),
}

pub enum BucketStepView {
    Ready,
    Create(Seq<char>),
    Abort(Seq<char>),
}

impl View for BucketStep {
    type V = BucketStepView;

    open spec fn view(&self) -> BucketStepView {
        match self {
            BucketStep::Ready => BucketStepView::Ready,
            BucketStep::Create(name) => BucketStepView::Create(name@),
            BucketStep::Abort(reason) => BucketStepView::Abort(reason@),
        }
    }
}

/// Whether one of the buckets has the name.
pub open spec fn has_bucket(names: Seq<Option<String>>, name: Seq<char>) -> bool {
    exists|i: int| 0 <= i < names.len() && opt_text(#[trigger] names[i]) == Some(name)
}

/// What is to be done about the bucket `name`, given the listing.
pub open spec fn bucket_step(listing: BucketListing, name: Seq<char>) -> BucketStepView {
    match listing {
        BucketListing::Failed(reason) => BucketStepView::Abort(reason@),
        BucketListing::Listed(Some(names)) if has_bucket(names@, name) => BucketStepView::Ready,
        BucketListing::Listed(_) => BucketStepView::Create(name),
    }
}

/// Whether one of the listed buckets has the name.
pub fn bucket_listed(names: &Vec<Option<String>>, name: &str) -> (found: bool)
    ensures
        found == has_bucket(names@, name@),
{
    let mut i: usize = 0;
    while i < names.len()
        invariant
            i <= names.len(),
            forall|k: int| 0 <= k < i ==> opt_text(#[trigger] names@[k]) != Some(name@),
        decreases names.len() - i,
    {
        match &names[i] {
            Some(listed) => {
                if same_text(listed.as_str(), name) {
                    return true;
                }
            },
            None => {},
        }
        i += 1;
    }
    false
}

/// Decides, from the list of buckets, whether the bucket has to be created:
/// not where a bucket of that name is listed; and where the list could not
/// be had, nothing can go on.
pub fn create_bucket_if_needed(listing: &BucketListing, bucket_name: &str) -> (step: BucketStep)
    ensures
        step@ == bucket_step(*listing, bucket_name@),
{
    match listing {
        BucketListing::Failed(reason) => BucketStep::Abort(reason.clone()),
        BucketListing::Listed(Some(names)) => {
            if bucket_listed(names, bucket_name) {
                BucketStep::Ready
            } else {
                BucketStep::Create(String::from_str(bucket_name))
            }
        },
        BucketListing::Listed(None) => BucketStep::Create(String::from_str(bucket_name)),
    }
}

/// What is to be done once the creation of the bucket was answered: with
/// `None` it went well, else the answer is the complaint.
pub fn bucket_created(complaint: Option<String>) -> (step: BucketStep)
    ensures
        step@ == match complaint {
            None => BucketStepView::Ready,
            Some(reason) => BucketStepView::Abort(reason@),
        },
{
    match complaint {
        None => BucketStep::Ready,
        Some(reason) => BucketStep::Abort(reason),
    }
}

/// Where the client of the object storage connects to.
pub fn get_s3_client(s3_loc: &str) -> (endpoint: Endpoint)
    ensures
        endpoint@ == endpoint_for(s3_loc@),
{
    choose_endpoint(s3_loc)
}

} // verus!
