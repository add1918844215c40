//! Tag routing: which jobs a worker may claim.

use vstd::prelude::*;

use crate::text::{holds_text, optional_texts, texts};

verus! {

/// Whether two tag lists have a tag in common.
pub open spec fn tags_intersect(worker: Seq<Seq<char>>, job: Seq<Seq<char>>) -> bool {
    exists|i: int| 0 <= i < job.len() && worker.contains(#[trigger] job[i])
}

/// Whether a worker with the given tags may claim a job with the given tags:
/// a worker without tags takes the jobs without tags and no others, a worker
/// with tags takes the jobs that carry at least one of them.
pub open spec fn tags_match(worker: Seq<Seq<char>>, job: Option<Seq<Seq<char>>>) -> bool {
    if worker.len() == 0 {
        job is None
    } else {
        match job {
            Some(tags) => tags_intersect(worker, tags),
            None => false,
        }
    }
}

/// The tags of a job as a reader sees them: a list without tags reads as no
/// list.
pub open spec fn normalized_tags(tags: Option<Seq<Seq<char>>>) -> Option<Seq<Seq<char>>> {
    match tags {
        Some(list) => if list.len() == 0 {
            None
        } else {
            Some(list)
        },
        None => None,
    }
}

/// Tag routing is sound: a worker may claim a job exactly when the two tag
/// sets intersect, or the worker has no tags and the job has no tag list.
pub proof fn lemma_tag_routing(worker: Seq<Seq<char>>, job: Option<Seq<Seq<char>>>)
    ensures
        tags_match(worker, job) <==> ((job is Some && tags_intersect(worker, job->Some_0)) || (
        worker.len() == 0 && job is None)),
        tags_match(worker, job) <==> ((job is Some && exists|t: Seq<char>|
            worker.contains(t) && job->Some_0.contains(t)) || (worker.len() == 0 && job is None)),
{
}

/// Whether two tag lists have a tag in common.
pub fn share_tag(worker: &[String], job: &[String]) -> (shared: bool)
    ensures
        shared == tags_intersect(texts(worker@), texts(job@)),
{
    let mut i: usize = 0;
    while i < job.len()
        invariant
            i <= job.len(),
            forall|k: int| 0 <= k < i ==> !texts(worker@).contains(#[trigger] texts(job@)[k]),
        decreases job.len() - i,
    {
        if holds_text(worker, &job[i]) {
            assert(texts(worker@).contains(texts(job@)[i as int]));
            return true;
        }
        i += 1;
    }
    false
}

/// Whether a worker with the given tags may claim a job with the given tags.
pub fn worker_takes(worker: &[String], job: &Option<Vec<String>>) -> (takes: bool)
    ensures
        takes == tags_match(texts(worker@), optional_texts(*job)),
{
    if worker.len() == 0 {
        job.is_none()
    } else {
        match job {
            Some(tags) => share_tag(worker, tags.as_slice()),
            None => false,
        }
    }
}

/// The tags of a job as a reader sees them.
pub fn normalize_tags(tags: Option<Vec<String>>) -> (normal: Option<Vec<String>>)
    ensures
        optional_texts(normal) == normalized_tags(optional_texts(tags)),
{
    match tags {
        Some(list) => if list.len() == 0 {
            None
        } else {
            Some(list)
        },
        None => None,
    }
}

} // verus!
