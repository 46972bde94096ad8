//! One action on the machine, and a plan as a sequence of them.
//!
//! The library never touches the machine. It says which actions are to be
//! performed and in which order; whoever performs them stops at the first one
//! that fails.

use vstd::prelude::*;
use crate::text::{owned, strings_view, strs_view};

verus! {

/// An action on the machine. Each one is fatal to the run when it fails.
#[derive(Debug, Clone, PartialEq, Eq)]
pub enum Step {
    /// Run `program` with `args` on the host.
    Exec { program: String, args: Vec<String>, purpose: String },
    /// Run `program` with `args` on the host, from directory `workdir`.
    ExecWorkdir { program: String, workdir: String, args: Vec<String>, purpose: String },
    /// Run `program` with `args` with the target tree as its root.
    ExecChroot { program: String, args: Vec<String>, purpose: String },
    /// Create the directory `path` and the missing ones above it.
    CreateDirectory { path: String, purpose: String },
    /// Create the file `path`, empty.
    CreateFile { path: String },
    /// Append the line `content` to the file `path`.
    AppendFile { path: String, content: String, purpose: String },
    /// Copy the file `from` to `to`.
    CopyFile { from: String, to: String },
}

/// What a [`Step`] says, over sequences of characters.
pub enum StepView {
    Exec { program: Seq<char>, args: Seq<Seq<char>>, purpose: Seq<char> },
    ExecWorkdir { program: Seq<char>, workdir: Seq<char>, args: Seq<Seq<char>>, purpose: Seq<char> },
    ExecChroot { program: Seq<char>, args: Seq<Seq<char>>, purpose: Seq<char> },
    CreateDirectory { path: Seq<char>, purpose: Seq<char> },
    CreateFile { path: Seq<char> },
    AppendFile { path: Seq<char>, content: Seq<char>, purpose: Seq<char> },
    CopyFile { from: Seq<char>, to: Seq<char> },
}

impl View for Step {
    type V = StepView;

    open spec fn view(&self) -> StepView {
        match self {
            Step::Exec { program, args, purpose } => StepView::Exec {
                program: program@,
                args: strings_view(args@),
                purpose: purpose@,
            },
            Step::ExecWorkdir { program, workdir, args, purpose } => StepView::ExecWorkdir {
                program: program@,
                workdir: workdir@,
                args: strings_view(args@),
                purpose: purpose@,
            },
            Step::ExecChroot { program, args, purpose } => StepView::ExecChroot {
                program: program@,
                args: strings_view(args@),
                purpose: purpose@,
            },
            Step::CreateDirectory { path, purpose } => StepView::CreateDirectory {
                path: path@,
                purpose: purpose@,
            },
            Step::CreateFile { path } => StepView::CreateFile { path: path@ },
            Step::AppendFile { path, content, purpose } => StepView::AppendFile {
                path: path@,
                content: content@,
                purpose: purpose@,
            },
            Step::CopyFile { from, to } => StepView::CopyFile { from: from@, to: to@ },
        }
    }
}

/// What a sequence of steps says, step by step.
pub open spec fn plan_view(steps: Seq<Step>) -> Seq<StepView> {
    Seq::new(steps.len(), |i: int| steps[i]@)
}

/// Owned copies of `items`, in their order.
pub fn owned_all(items: &Vec<&str>) -> (out: Vec<String>)
    ensures
        strings_view(out@) == strs_view(items@),
{
    let mut out: Vec<String> = Vec::new();
    let mut i: usize = 0;
    while i < items.len()
        invariant
            i <= items@.len(),
            out@.len() == i,
            forall|k: int| 0 <= k < i ==> out@[k]@ == items@[k]@,
        decreases items@.len() - i,
    {
        out.push(owned(items[i]));
        i += 1;
    }
    assert(strings_view(out@) =~= strs_view(items@));
    out
}

impl Step {
    /// Run `program` with `args` on the host.
    pub fn exec(program: &str, args: Vec<&str>, purpose: &str) -> (step: Step)
        ensures
            step@ == (StepView::Exec {
                program: program@,
                args: strs_view(args@),
                purpose: purpose@,
            }),
    {
        Step::Exec { program: owned(program), args: owned_all(&args), purpose: owned(purpose) }
    }

    /// Run `program` with `args` on the host, from directory `workdir`.
    pub fn exec_workdir(
        program: &str,
        workdir: &str,
        args: Vec<&str>,
        purpose: &str,
    ) -> (step: Step)
        ensures
            step@ == (StepView::ExecWorkdir {
                program: program@,
                workdir: workdir@,
                args: strs_view(args@),
                purpose: purpose@,
            }),
    {
        Step::ExecWorkdir {
            program: owned(program),
            workdir: owned(workdir),
            args: owned_all(&args),
            purpose: owned(purpose),
        }
    }

    /// Run `program` with `args` with the target tree as its root.
    pub fn exec_chroot(program: &str, args: Vec<&str>, purpose: &str) -> (step: Step)
        ensures
            step@ == (StepView::ExecChroot {
                program: program@,
                args: strs_view(args@),
                purpose: purpose@,
            }),
    {
        Step::ExecChroot {
            program: owned(program),
            args: owned_all(&args),
            purpose: owned(purpose),
        }
    }

    /// Create the directory `path` and the missing ones above it.
    pub fn create_directory(path: &str, purpose: &str) -> (step: Step)
        ensures
            step@ == (StepView::CreateDirectory { path: path@, purpose: purpose@ }),
    {
        Step::CreateDirectory { path: owned(path), purpose: owned(purpose) }
    }

    /// Create the file `path`, empty.
    pub fn create_file(path: &str) -> (step: Step)
        ensures
            step@ == (StepView::CreateFile { path: path@ }),
    {
        Step::CreateFile { path: owned(path) }
    }

    /// Append the line `content` to the file `path`.
    pub fn append_file(path: &str, content: &str, purpose: &str) -> (step: Step)
        ensures
            step@ == (StepView::AppendFile { path: path@, content: content@, purpose: purpose@ }),
    {
        Step::AppendFile { path: owned(path), content: owned(content), purpose: owned(purpose) }
    }

    /// Copy the file `from` to `to`.
    pub fn copy_file(from: &str, to: &str) -> (step: Step)
        ensures
            step@ == (StepView::CopyFile { from: from@, to: to@ }),
    {
        Step::CopyFile { from: owned(from), to: owned(to) }
    }
}

/// Puts `step` at the end of `plan`.
pub fn put(plan: &mut Vec<Step>, step: Step)
    ensures
        plan_view(final(plan)@) == plan_view(old(plan)@).push(step@),
{
    plan.push(step);
    assert(plan_view(plan@) =~= plan_view(old(plan)@).push(step@));
}

/// Puts the steps of `more` at the end of `plan`, in their order.
pub fn put_all(plan: &mut Vec<Step>, more: Vec<Step>)
    ensures
        plan_view(final(plan)@) == plan_view(old(plan)@) + plan_view(more@),
{
    let mut more = more;
    let ghost added = more@;
    plan.append(&mut more);
    assert(plan_view(plan@) =~= plan_view(old(plan)@) + plan_view(added));
}

} // verus!
