//! The tasks of a run: which pushes are submitted, and what each of them
//! sends.

use vstd::prelude::*;
use crate::image::{generate_image, SyntheticImage, LAYER_COUNT, LAYER_SIZE};
use crate::reference::{
    lemma_references_distinct, reference_name, reference_parses, reference_text, task_reference,
    InvalidReference,
};

verus! {

/// One push to be submitted.
pub struct PushTask {
    /// The task's place in the run, and in the report.
    pub index: usize,
    /// The registry endpoint, held by the task for itself.
    pub host: String,
}

impl PushTask {
    /// The reference under which the task stores its image.
    pub open spec fn reference(self) -> Seq<char> {
        reference_text(self.host@, self.index as nat)
    }
}

/// Whether `tasks` are the tasks of a run of `image_count` pushes to
/// `host`: task `i` stands at place `i` and pushes to `host`.
pub open spec fn is_plan(tasks: Seq<PushTask>, image_count: nat, host: Seq<char>) -> bool {
    &&& tasks.len() == image_count
    &&& forall|i: int|
        0 <= i < tasks.len() ==> (#[trigger] tasks[i]).index == i && tasks[i].host@ == host
}

/// In a plan no two tasks push to the same reference.
pub proof fn lemma_plan_references_distinct(
    tasks: Seq<PushTask>,
    image_count: nat,
    host: Seq<char>,
    i: int,
    j: int,
)
    requires
        is_plan(tasks, image_count, host),
        0 <= i < image_count,
        0 <= j < image_count,
        i != j,
    ensures
        tasks[i].reference() != tasks[j].reference(),
{
    if tasks[i].reference() == tasks[j].reference() {
        lemma_references_distinct(host, i as nat, j as nat);
    }
}

/// Lists the pushes of a run: one task for each index below `image_count`,
/// in rising order, each owning the name of the host. All of them are to
/// be submitted at once; none is held back.
pub fn plan_pushes(image_count: usize, host: &str) -> (tasks: Vec<PushTask>)
    ensures
        is_plan(tasks@, image_count as nat, host@),
{
    let mut tasks: Vec<PushTask> = Vec::new();
    let mut index: usize = 0;
    while index < image_count
        invariant
            index <= image_count,
            is_plan(tasks@, index as nat, host@),
        decreases image_count - index,
    {
        tasks.push(PushTask { index, host: String::from_str(host) });
        index = index + 1;
    }
    tasks
}

/// What one task hands to the registry client.
pub struct PushRequest {
    /// The task's place in the run.
    pub index: usize,
    /// The reference as the task wrote it: `<host>/test/this-<index>:latest`.
    pub name: String,
    /// Where the image goes: what the registry client read out of `name`.
    pub reference: oci_distribution::Reference,
    /// The image to push.
    pub image: SyntheticImage,
}

/// Prepares the push of task `index` to `host`: makes the task's image, of
/// one layer of ten megabytes, and derives and parses its reference. The
/// push itself is the caller's to make, once.
pub fn prepare_push(index: usize, host: &str) -> (prepared: Result<PushRequest, InvalidReference>)
    ensures
        prepared is Ok == reference_parses(reference_text(host@, index as nat)),
        prepared matches Ok(request) ==> {
            &&& request.index == index
            &&& request.name@ == reference_text(host@, index as nat)
            &&& request.image.has_shape(LAYER_SIZE as nat, LAYER_COUNT as nat)
        },
        prepared matches Err(refused) ==> refused.text@ == reference_text(host@, index as nat),
{
    let image = generate_image(LAYER_SIZE, LAYER_COUNT);
    match task_reference(host, index) {
        Ok(reference) => Ok(
            PushRequest { index, name: reference_name(host, index), reference, image },
        ),
        Err(refused) => Err(refused),
    }
}

} // verus!
