//! Installing packages into the target tree.

use vstd::prelude::*;
use vstd::string::*;
use crate::functions::partition::{umount, umount_step};
use crate::step::{plan_view, put, Step, StepView};
use crate::text::{glue, join, joined, strs_view};

verus! {

/// The steps that install `pkgs` into the tree under `/mnt`: `pacstrap` with
/// all of them at once, then the unmounting of `/mnt/dev`, which `pacstrap`
/// leaves mounted.
pub open spec fn install_plan(pkgs: Seq<Seq<char>>) -> Seq<StepView> {
    seq![
        StepView::Exec {
            program: "pacstrap"@,
            args: seq!["/mnt"@] + pkgs,
            purpose: "Installing packages: "@ + joined(pkgs, ", "@),
        },
        umount_step("/mnt/dev"@),
    ]
}

/// Installs packages on the new installation.
pub fn install(pkgs: Vec<&str>) -> (plan: Vec<Step>)
    ensures
        plan_view(plan@) == install_plan(strs_view(pkgs@)),
{
    let list = join(&pkgs, ", ");
    let purpose = glue("Installing packages: ", list.as_str());
    let mut args: Vec<&str> = vec!["/mnt"];
    let mut i: usize = 0;
    while i < pkgs.len()
        invariant
            i <= pkgs@.len(),
            args@.len() == i + 1,
            args@[0]@ == "/mnt"@,
            forall|k: int| 0 <= k < i ==> args@[k + 1]@ == pkgs@[k]@,
        decreases pkgs@.len() - i,
    {
        args.push(pkgs[i]);
        i += 1;
    }
    assert(strs_view(args@) =~= seq!["/mnt"@] + strs_view(pkgs@));
    let mut plan: Vec<Step> = Vec::new();
    put(&mut plan, Step::exec("pacstrap", args, purpose.as_str()));
    put(&mut plan, umount("/mnt/dev"));
    assert(plan_view(plan@) =~= install_plan(strs_view(pkgs@)));
    plan
}

} // verus!
