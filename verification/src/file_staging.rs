//! Files that are put into the upload directory for the time of an upload,
//! so that what is uploaded describes itself: the project file, and for a
//! custom engine its entry point. Only what the directory lacks is copied
//! in, and whatever is copied in is taken out again, so that the directory
//! holds after the upload what it held before.

use vstd::prelude::*;
use crate::text::texts;

verus! {

/// A file that the upload directory should hold, and whether it holds one of
/// that name already.
#[derive(Debug, PartialEq, Eq)]
pub struct StageCandidate {
    /// The file to copy.
    pub source: String,
    /// Where it goes in the upload directory.
    pub destination: String,
    /// Whether something is at the destination already.
    pub already_present: bool,
}

/// One copy into the upload directory, to a place where nothing was.
#[derive(Debug, PartialEq, Eq)]
pub struct CopyStep {
    pub source: String,
    pub destination: String,
}

/// Whether a candidate has to be copied: only if nothing is at its
/// destination. What the upload directory holds already stays as it is.
pub open spec fn needs_copy(candidate: StageCandidate) -> bool {
    !candidate.already_present
}

/// The copy that a candidate calls for.
pub open spec fn copy_of_candidate(candidate: StageCandidate, step: CopyStep) -> bool {
    step.source@ == candidate.source@ && step.destination@ == candidate.destination@
}

/// Whether `steps` are the copies that the candidates call for: the project
/// file first, then the entry point, each only if it has to be copied.
pub open spec fn planned_for(
    config: StageCandidate,
    entrypoint: Option<StageCandidate>,
    steps: Seq<CopyStep>,
) -> bool {
    let first = needs_copy(config);
    let second = entrypoint is Some && needs_copy(entrypoint->0);
    &&& steps.len() == (if first {
        1nat
    } else {
        0nat
    }) + (if second {
        1nat
    } else {
        0nat
    })
    &&& first ==> copy_of_candidate(config, steps[0])
    &&& second ==> copy_of_candidate(entrypoint->0, steps[steps.len() - 1])
}

/// The destinations of the first `n` steps.
pub open spec fn destinations(steps: Seq<CopyStep>, n: int) -> Seq<Seq<char>> {
    Seq::new(n as nat, |i: int| steps[i].destination@)
}

/// The copies planned for an upload, and how many of them have been made.
#[derive(Debug, PartialEq, Eq)]
pub struct FileStaging {
    steps: Vec<CopyStep>,
    copied: usize,
}

fn step_for(candidate: &StageCandidate) -> (step: CopyStep)
    ensures
        copy_of_candidate(*candidate, step),
{
    CopyStep { source: candidate.source.clone(), destination: candidate.destination.clone() }
}

fn has_to_be_copied(candidate: &StageCandidate) -> (yes: bool)
    ensures
        yes == needs_copy(*candidate),
{
    !candidate.already_present
}

impl FileStaging {
    /// The copies planned, in order.
    pub closed spec fn plan(&self) -> Seq<CopyStep> {
        self.steps@
    }

    /// How many of the planned copies have been made.
    pub closed spec fn made(&self) -> int {
        self.copied as int
    }

    /// What holds of every staging: no more copies are made than planned.
    pub closed spec fn wf(&self) -> bool {
        self.copied <= self.steps@.len()
    }

    /// The files that staging has added to the upload directory.
    pub open spec fn added(&self) -> Seq<Seq<char>> {
        destinations(self.plan(), self.made())
    }

    /// A staging with nothing to copy.
    pub fn empty() -> (staging: FileStaging)
        ensures
            staging.wf(),
            staging.plan().len() == 0,
            staging.made() == 0,
    {
        FileStaging { steps: Vec::new(), copied: 0 }
    }

    /// Plans the copies for an upload; none of them is made yet.
    pub fn prepare(config: &StageCandidate, entrypoint: Option<&StageCandidate>) -> (staging:
        FileStaging)
        ensures
            staging.wf(),
            staging.made() == 0,
            planned_for(
                *config,
                match entrypoint {
                    Some(candidate) => Some(*candidate),
                    None => None,
                },
                staging.plan(),
            ),
    {
        let mut steps: Vec<CopyStep> = Vec::new();
        if has_to_be_copied(config) {
            steps.push(step_for(config));
        }
        match entrypoint {
            Some(candidate) => {
                if has_to_be_copied(candidate) {
                    steps.push(step_for(candidate));
                }
            },
            None => {},
        }
        FileStaging { steps, copied: 0 }
    }

    /// The next copy to make, if one is left.
    pub fn next_copy(&self) -> (step: Option<&CopyStep>)
        requires
            self.wf(),
        ensures
            step is Some == (self.made() < self.plan().len()),
            step matches Some(s) ==> *s == self.plan()[self.made()],
    {
        if self.copied < self.steps.len() {
            Some(&self.steps[self.copied])
        } else {
            None
        }
    }

    /// Records that the next copy has been made. With no copy left nothing
    /// changes.
    pub fn copy_done(&mut self)
        requires
            old(self).wf(),
        ensures
            final(self).wf(),
            final(self).plan() == old(self).plan(),
            final(self).made() == if old(self).made() < old(self).plan().len() {
                old(self).made() + 1
            } else {
                old(self).made()
            },
    {
        if self.copied < self.steps.len() {
            self.copied = self.copied + 1;
        }
    }

    /// The files to remove after the upload: exactly those that staging has
    /// added, in the order in which it added them.
    pub fn cleanup(&self) -> (files: Vec<String>)
        requires
            self.wf(),
        ensures
            texts(files@) == self.added(),
    {
        let mut files: Vec<String> = Vec::new();
        let mut i: usize = 0;
        while i < self.copied
            invariant
                i <= self.copied <= self.steps@.len(),
                texts(files@) == destinations(self.steps@, i as int),
            decreases self.copied - i,
        {
            let ghost before = texts(files@);
            let destination = self.steps[i].destination.clone();
            files.push(destination);
            assert(texts(files@) =~= before.push(destination@));
            assert(destinations(self.steps@, i + 1) =~= destinations(self.steps@, i as int).push(
                self.steps@[i as int].destination@,
            ));
            i += 1;
        }
        files
    }
}

/// What cleanup removes is what staging added: one file for each copy made,
/// none for a copy that was only planned, and nothing else.
pub proof fn law_cleanup_removes_what_was_added(staging: FileStaging)
    requires
        staging.wf(),
    ensures
        staging.added().len() == staging.made(),
        staging.made() <= staging.plan().len(),
        forall|i: int|
            0 <= i < staging.made() ==> #[trigger] staging.added()[i] == staging.plan()[i].destination@,
{
}

/// Staging copies only what the upload directory lacks: every planned copy
/// is that of a candidate with nothing at its destination, and where the
/// directory holds all candidates already, nothing is planned. With what
/// cleanup removes, the directory holds after an upload the files it held
/// before.
pub proof fn law_only_missing_files_are_staged(
    config: StageCandidate,
    entrypoint: Option<StageCandidate>,
    steps: Seq<CopyStep>,
)
    requires
        planned_for(config, entrypoint, steps),
    ensures
        forall|i: int|
            0 <= i < steps.len() ==> (copy_of_candidate(config, #[trigger] steps[i])
                && !config.already_present) || (entrypoint is Some && copy_of_candidate(
                entrypoint->0,
                steps[i],
            ) && !entrypoint->0.already_present),
        config.already_present && (entrypoint is Some ==> entrypoint->0.already_present)
            ==> steps.len() == 0,
{
}

} // verus!
