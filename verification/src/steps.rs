//! One ordered, independently failable file operation, and the driver that
//! runs an ordered list of them against a [`crate::tree::WorkingTree`],
//! halting on the first failure and leaving everything already done in place.

use vstd::prelude::*;

use crate::bytes::{copy_bytes, replace_all, replace_bytes};
use crate::tree::WorkingTree;

verus! {

/// One unit of work against a single path inside the working tree.
///
/// `Overwrite` and `ReplaceWithin` demand that the target already exists, as
/// opening an existing file for truncation does; `CreateFile` writes the file
/// whether or not it exists; `DeleteFile` demands an existing target.
#[derive(Debug)]
pub enum MutationStep {
    Overwrite { path: String, content: Vec<u8> },
    ReplaceWithin { path: String, pattern: Vec<u8>, replacement: Vec<u8> },
    CreateFile { path: String, content: Vec<u8> },
    DeleteFile { path: String },
}

/// The mathematical shape of a [`MutationStep`].
pub enum StepView {
    Overwrite { path: Seq<char>, content: Seq<u8> },
    ReplaceWithin { path: Seq<char>, pattern: Seq<u8>, replacement: Seq<u8> },
    CreateFile { path: Seq<char>, content: Seq<u8> },
    DeleteFile { path: Seq<char> },
}

impl View for MutationStep {
    type V = StepView;

    open spec fn view(&self) -> StepView {
        match self {
            MutationStep::Overwrite { path, content } => StepView::Overwrite {
                path: path@,
                content: content@,
            },
            MutationStep::ReplaceWithin { path, pattern, replacement } => StepView::ReplaceWithin {
                path: path@,
                pattern: pattern@,
                replacement: replacement@,
            },
            MutationStep::CreateFile { path, content } => StepView::CreateFile {
                path: path@,
                content: content@,
            },
            MutationStep::DeleteFile { path } => StepView::DeleteFile { path: path@ },
        }
    }
}

/// The single target path a step names.
pub open spec fn step_path(s: StepView) -> Seq<char> {
    match s {
        StepView::Overwrite { path, .. } => path,
        StepView::ReplaceWithin { path, .. } => path,
        StepView::CreateFile { path, .. } => path,
        StepView::DeleteFile { path } => path,
    }
}

/// What one step does to the tree: the updated tree, or `None` when the
/// step's target is missing and the step fails.
pub open spec fn spec_apply_step(t: Map<Seq<char>, Seq<u8>>, s: StepView) -> Option<
    Map<Seq<char>, Seq<u8>>,
> {
    match s {
        StepView::Overwrite { path, content } => if t.contains_key(path) {
            Some(t.insert(path, content))
        } else {
            None
        },
        StepView::ReplaceWithin { path, pattern, replacement } => if t.contains_key(path) {
            Some(t.insert(path, replace_bytes(t[path], pattern, replacement)))
        } else {
            None
        },
        StepView::CreateFile { path, content } => Some(t.insert(path, content)),
        StepView::DeleteFile { path } => if t.contains_key(path) {
            Some(t.remove(path))
        } else {
            None
        },
    }
}

/// Why a single step failed: its target path was not there.
#[derive(Clone, Copy, Debug, PartialEq, Eq, Structural)]
pub enum StepError {
    MissingFile,
}

/// Runs one step against the tree. On failure the tree is left untouched.
pub fn apply_step(tree: &mut WorkingTree, step: &MutationStep) -> (r: Result<(), StepError>)
    ensures
        match r {
            Ok(()) => spec_apply_step(old(tree)@, step@) == Some(final(tree)@),
            Err(e) => {
                &&& spec_apply_step(old(tree)@, step@) is None
                &&& final(tree)@ == old(tree)@
                &&& e == StepError::MissingFile
            },
        },
{
    match step {
        MutationStep::Overwrite { path, content } => {
            if tree.contains_path(path.as_str()) {
                tree.put_file(path.clone(), copy_bytes(content));
                Ok(())
            } else {
                Err(StepError::MissingFile)
            }
        },
        MutationStep::ReplaceWithin { path, pattern, replacement } => {
            let current = match tree.read_file(path.as_str()) {
                Some(c) => copy_bytes(c),
                None => {
                    return Err(StepError::MissingFile);
                },
            };
            let updated = replace_all(&current, pattern, replacement);
            tree.put_file(path.clone(), updated);
            Ok(())
        },
        MutationStep::CreateFile { path, content } => {
            tree.put_file(path.clone(), copy_bytes(content));
            Ok(())
        },
        MutationStep::DeleteFile { path } => {
            if tree.remove_file(path.as_str()) {
                Ok(())
            } else {
                proof {
                    assert(old(tree)@.remove(path@) =~= old(tree)@);
                }
                Err(StepError::MissingFile)
            }
        },
    }
}

/// The net effect of running a list of steps: the tree that is left behind,
/// and the position of the first step that failed, if any did.
pub struct RunOutcome {
    pub tree: Map<Seq<char>, Seq<u8>>,
    pub failed_step: Option<int>,
}

/// The same outcome, seen from `offset` steps earlier in the list.
pub open spec fn shift_outcome(o: RunOutcome, offset: int) -> RunOutcome {
    RunOutcome {
        tree: o.tree,
        failed_step: match o.failed_step {
            Some(j) => Some(j + offset),
            None => None,
        },
    }
}

/// Runs the steps in order against `t`, stopping at the first failure and
/// keeping every mutation already made: the fail-fast, no-rollback policy.
pub open spec fn spec_run_steps(t: Map<Seq<char>, Seq<u8>>, steps: Seq<StepView>) -> RunOutcome
    decreases steps.len(),
{
    if steps.len() == 0 {
        RunOutcome { tree: t, failed_step: None }
    } else {
        match spec_apply_step(t, steps[0]) {
            Some(t2) => shift_outcome(spec_run_steps(t2, steps.drop_first()), 1),
            None => RunOutcome { tree: t, failed_step: Some(0) },
        }
    }
}

/// The views of a list of executable steps.
pub open spec fn step_views(steps: Seq<MutationStep>) -> Seq<StepView> {
    steps.map_values(|m: MutationStep| m@)
}

/// Which step of a run failed, and on what path.
#[derive(Debug)]
pub struct PipelineError {
    pub step_index: usize,
    pub path: String,
}

/// The failing step's target path, for error reporting.
fn step_target(step: &MutationStep) -> (r: String)
    ensures
        r@ == step_path(step@),
{
    match step {
        MutationStep::Overwrite { path, .. } => path.clone(),
        MutationStep::ReplaceWithin { path, .. } => path.clone(),
        MutationStep::CreateFile { path, .. } => path.clone(),
        MutationStep::DeleteFile { path } => path.clone(),
    }
}

/// Runs every step in order against the tree. The first failure stops the
/// run at once and is reported with its position and target path; whatever
/// earlier steps did stays in place, with no rollback.
pub fn run_steps(tree: &mut WorkingTree, steps: &Vec<MutationStep>) -> (r: Result<
    (),
    PipelineError,
>)
    ensures
        ({
            let outcome = spec_run_steps(old(tree)@, step_views(steps@));
            &&& final(tree)@ == outcome.tree
            &&& match r {
                Ok(()) => outcome.failed_step is None,
                Err(e) => {
                    &&& e.step_index < steps@.len()
                    &&& outcome.failed_step == Some(e.step_index as int)
                    &&& e.path@ == step_path(step_views(steps@)[e.step_index as int])
                },
            }
        }),
{
    let ghost all = step_views(steps@);
    let mut i: usize = 0;
    proof {
        assert(all.skip(0) =~= all);
    }
    while i < steps.len()
        invariant
            0 <= i <= steps@.len(),
            all == step_views(steps@),
            spec_run_steps(old(tree)@, all) == shift_outcome(
                spec_run_steps(tree@, all.skip(i as int)),
                i as int,
            ),
        decreases steps@.len() - i,
    {
        let ghost t_before = tree@;
        let ghost rest = all.skip(i as int);
        proof {
            assert(rest[0] == steps@[i as int]@);
            assert(rest.drop_first() =~= all.skip(i + 1));
        }
        match apply_step(tree, &steps[i]) {
            Ok(()) => {
                proof {
                    assert(spec_run_steps(t_before, rest) == shift_outcome(
                        spec_run_steps(tree@, all.skip(i + 1)),
                        1,
                    ));
                    let inner = spec_run_steps(tree@, all.skip(i + 1));
                    assert(shift_outcome(shift_outcome(inner, 1), i as int) == shift_outcome(
                        inner,
                        i + 1,
                    ));
                }
                i = i + 1;
            },
            Err(_) => {
                proof {
                    assert(spec_run_steps(t_before, rest) == RunOutcome {
                        tree: t_before,
                        failed_step: Some(0int),
                    });
                }
                return Err(PipelineError { step_index: i, path: step_target(&steps[i]) });
            },
        }
    }
    proof {
        assert(all.skip(i as int).len() == 0);
    }
    Ok(())
}

} // verus!
