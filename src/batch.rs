use vstd::prelude::*;
use crate::config::Context;
use crate::entry::InstallationEntry;
use crate::manager::PackageManager;

verus! {

/// One call that a batch makes into a backend.
#[derive(Clone, Copy, Debug, PartialEq, Eq, Structural)]
pub enum BatchStep {
    /// `install` on the entry at this index of the batch.
    Install(usize),
    /// The backend's `post_install` hook.
    PostInstall,
}

/// `install` on each of the first `n` entries, in order.
pub open spec fn install_steps(n: nat) -> Seq<BatchStep> {
    Seq::new(n, |i: int| BatchStep::Install(i as usize))
}

/// The calls of a batch of `n` installs: each install in order, then the hook
/// once. An empty batch makes no call.
pub open spec fn batch_schedule(n: nat) -> Seq<BatchStep> {
    if n == 0 {
        Seq::empty()
    } else {
        install_steps(n).push(BatchStep::PostInstall)
    }
}

/// The names of the entries whose install succeeded, in batch order.
pub open spec fn succeeded_names(
    entries: Seq<InstallationEntry>,
    results: Seq<Result<(), anyhow::Error>>,
) -> Seq<Seq<char>>
    decreases entries.len(),
{
    if entries.len() == 0 || results.len() == 0 {
        Seq::empty()
    } else {
        let earlier = succeeded_names(entries.drop_last(), results.drop_last());
        if results.last() is Ok {
            earlier.push(entries.last().name@)
        } else {
            earlier
        }
    }
}

/// What a batch of installs did: the calls it made, in order, the result of
/// each install, and the result of the hook if it ran.
pub struct BatchOutcome {
    pub steps: Vec<BatchStep>,
    pub results: Vec<Result<(), anyhow::Error>>,
    pub post_install: Option<Result<(), anyhow::Error>>,
}

/// Installs each entry with `manager`, in order, whether or not an earlier one
/// failed, and then runs the backend's `post_install` once. An empty batch
/// calls nothing.
pub fn install_batch<P: PackageManager>(
    manager: &P,
    context: &Context,
    entries: &Vec<InstallationEntry>,
) -> (r: BatchOutcome)
    ensures
        r.steps@ == batch_schedule(entries.len() as nat),
        r.results.len() == entries.len(),
        r.post_install is Some <==> entries.len() > 0,
{
    let mut steps: Vec<BatchStep> = Vec::new();
    let mut results: Vec<Result<(), anyhow::Error>> = Vec::new();
    let mut i: usize = 0;
    while i < entries.len()
        invariant
            i <= entries.len(),
            steps@ == install_steps(i as nat),
            results.len() == i,
        decreases entries.len() - i,
    {
        steps.push(BatchStep::Install(i));
        let result = manager.install(context, &entries[i]);
        results.push(result);
        i = i + 1;
        assert(steps@ =~= install_steps(i as nat));
    }
    let post_install = if entries.len() == 0 {
        None
    } else {
        steps.push(BatchStep::PostInstall);
        Some(manager.post_install(context))
    };
    BatchOutcome { steps, results, post_install }
}

/// The names of the entries whose install succeeded, in batch order: what the
/// front end may record as installed. `results[i]` is the result for `entries[i]`.
pub fn installed_names(
    entries: &Vec<InstallationEntry>,
    results: &Vec<Result<(), anyhow::Error>>,
) -> (r: Vec<String>)
    requires
        results.len() == entries.len(),
    ensures
        r@.map_values(|s: String| s@) == succeeded_names(entries@, results@),
{
    let mut names: Vec<String> = Vec::new();
    let mut i: usize = 0;
    while i < entries.len()
        invariant
            i <= entries.len(),
            results.len() == entries.len(),
            names@.map_values(|s: String| s@)
                == succeeded_names(entries@.subrange(0, i as int), results@.subrange(0, i as int)),
        decreases entries.len() - i,
    {
        let ghost before = names@;
        assert(entries@.subrange(0, i + 1).drop_last() =~= entries@.subrange(0, i as int));
        assert(results@.subrange(0, i + 1).drop_last() =~= results@.subrange(0, i as int));
        if results[i].is_ok() {
            names.push(entries[i].name.clone());
            assert(names@.map_values(|s: String| s@) =~= before.map_values(|s: String| s@).push(
                entries@[i as int].name@,
            ));
        }
        i = i + 1;
    }
    assert(entries@.subrange(0, entries.len() as int) =~= entries@);
    assert(results@.subrange(0, results.len() as int) =~= results@);
    names
}

/// A batch of `n ≥ 1` installs calls `install` on each entry once, in order,
/// and `post_install` exactly once, after all of them.
pub proof fn lemma_post_install_once_after_all(n: nat)
    requires
        n >= 1,
    ensures
        batch_schedule(n).len() == n + 1,
        forall|i: int| 0 <= i < n ==> batch_schedule(n)[i] == BatchStep::Install(i as usize),
        batch_schedule(n).last() == BatchStep::PostInstall,
        forall|i: int|
            0 <= i < batch_schedule(n).len() && batch_schedule(n)[i] == BatchStep::PostInstall
                ==> i == n,
{
}

} // verus!
