//! A scan as a whole: the jobs of a tree, finished in any order, and what
//! holds of every such order.
//!
//! A job finishes as `jobs::do_job` is proved to finish it: the jobs that its
//! run submits become pending, the record that its run sends is sent, and the
//! count of outstanding jobs changes by `jobs::count_after`. The pool decides
//! which of the pending jobs finishes next; here every choice is allowed, so
//! what is proved holds of a pool of any size.

use crate::dicom_file_reader::Record;
use crate::jobs::{count_after, JobRun};
use vstd::multiset::Multiset;
use vstd::prelude::*;

verus! {

/// A scan unfolded: the run of one job, and the scans of the jobs that it
/// submitted. For a directory that was listed these are the scans of its
/// entries; a regular file, a path of another kind and a directory that
/// could not be listed have none.
pub ghost struct Tree {
    pub run: JobRun,
    pub children: Seq<Tree>,
}

/// Whether the jobs of the scans under a run are the jobs that the run
/// submitted, in their order, here and in every scan below.
pub open spec fn well_formed(tree: Tree) -> bool
    decreases tree,
{
    &&& tree.children.len() == tree.run.spawned().len()
    &&& forall|i: int|
        0 <= i < tree.children.len() ==> (#[trigger] tree.children[i]).run.job()
            == tree.run.spawned()[i]
    &&& all_well_formed(tree.children)
}

/// Whether each of the scans is well formed.
pub open spec fn all_well_formed(trees: Seq<Tree>) -> bool
    decreases trees,
{
    trees.len() > 0 ==> well_formed(trees[0]) && all_well_formed(trees.drop_first())
}

/// The number of jobs of a scan.
pub open spec fn jobs_in(tree: Tree) -> nat
    decreases tree,
{
    1 + jobs_in_all(tree.children)
}

/// The number of jobs of several scans together.
pub open spec fn jobs_in_all(trees: Seq<Tree>) -> nat
    decreases trees,
{
    if trees.len() == 0 {
        0
    } else {
        jobs_in(trees[0]) + jobs_in_all(trees.drop_first())
    }
}

/// The records that one run sends, as a multiset of at most one.
pub open spec fn sent_by(run: JobRun) -> Multiset<Record> {
    match run.sent() {
        Some(record) => Multiset::singleton(record),
        None => Multiset::empty(),
    }
}

/// The records of a scan: one for each regular file in it that gave one.
pub open spec fn records_in(tree: Tree) -> Multiset<Record>
    decreases tree,
{
    sent_by(tree.run).add(records_in_all(tree.children))
}

/// The records of several scans together.
pub open spec fn records_in_all(trees: Seq<Tree>) -> Multiset<Record>
    decreases trees,
{
    if trees.len() == 0 {
        Multiset::empty()
    } else {
        records_in(trees[0]).add(records_in_all(trees.drop_first()))
    }
}

/// The number of regular files of a scan that gave a record.
pub open spec fn files_read(tree: Tree) -> nat
    decreases tree,
{
    (if tree.run.sent() is Some {
        1nat
    } else {
        0nat
    }) + files_read_all(tree.children)
}

/// The number of regular files of several scans that gave a record.
pub open spec fn files_read_all(trees: Seq<Tree>) -> nat
    decreases trees,
{
    if trees.len() == 0 {
        0
    } else {
        files_read(trees[0]) + files_read_all(trees.drop_first())
    }
}

/// Several scans taken together are taken one after the other.
proof fn lemma_all_concat(a: Seq<Tree>, b: Seq<Tree>)
    ensures
        all_well_formed(a + b) == (all_well_formed(a) && all_well_formed(b)),
        jobs_in_all(a + b) == jobs_in_all(a) + jobs_in_all(b),
        records_in_all(a + b) == records_in_all(a).add(records_in_all(b)),
        files_read_all(a + b) == files_read_all(a) + files_read_all(b),
    decreases a.len(),
{
    broadcast use vstd::multiset::group_multiset_axioms;

    if a.len() == 0 {
        assert(a + b == b);
    } else {
        assert((a + b).drop_first() == a.drop_first() + b);
        lemma_all_concat(a.drop_first(), b);
    }
}

/// Taking one scan out of several takes out what it holds, and no more.
proof fn lemma_all_remove(trees: Seq<Tree>, i: int)
    requires
        0 <= i < trees.len(),
    ensures
        all_well_formed(trees) == (well_formed(trees[i]) && all_well_formed(trees.remove(i))),
        jobs_in_all(trees) == jobs_in(trees[i]) + jobs_in_all(trees.remove(i)),
        records_in_all(trees) == records_in(trees[i]).add(records_in_all(trees.remove(i))),
        files_read_all(trees) == files_read(trees[i]) + files_read_all(trees.remove(i)),
    decreases trees.len(),
{
    broadcast use vstd::multiset::group_multiset_axioms;

    if i == 0 {
        assert(trees.remove(0) == trees.drop_first());
    } else {
        assert(trees.remove(i).drop_first() == trees.drop_first().remove(i - 1));
        lemma_all_remove(trees.drop_first(), i - 1);
    }
}

/// One scan taken alone holds what it holds.
proof fn lemma_all_single(tree: Tree)
    ensures
        all_well_formed(seq![tree]) == well_formed(tree),
        jobs_in_all(seq![tree]) == jobs_in(tree),
        records_in_all(seq![tree]) == records_in(tree),
        files_read_all(seq![tree]) == files_read(tree),
{
    broadcast use vstd::multiset::group_multiset_axioms;

    let none = Seq::<Tree>::empty();
    assert(seq![tree].drop_first() == none);
    assert(all_well_formed(none));
    assert(jobs_in_all(none) == 0);
    assert(files_read_all(none) == 0);
    assert(records_in_all(none) == Multiset::<Record>::empty());
}

/// Scans that hold no job are no scans at all.
proof fn lemma_no_jobs(trees: Seq<Tree>)
    ensures
        jobs_in_all(trees) == 0 <==> trees.len() == 0,
        jobs_in_all(trees) >= trees.len(),
    decreases trees.len(),
{
    if trees.len() > 0 {
        lemma_no_jobs(trees.drop_first());
        assert(jobs_in(trees[0]) >= 1);
    }
}

/// A scan has as many records as it has regular files that gave one.
pub proof fn lemma_records_counted(tree: Tree)
    ensures
        records_in(tree).len() == files_read(tree),
    decreases tree,
{
    broadcast use vstd::multiset::group_multiset_axioms;

    lemma_records_counted_all(tree.children);
}

/// Several scans have as many records as regular files that gave one.
pub proof fn lemma_records_counted_all(trees: Seq<Tree>)
    ensures
        records_in_all(trees).len() == files_read_all(trees),
    decreases trees,
{
    broadcast use vstd::multiset::group_multiset_axioms;

    if trees.len() > 0 {
        lemma_records_counted(trees[0]);
        lemma_records_counted_all(trees.drop_first());
    }
}

/// How far a scan has come.
pub ghost struct Progress {
    /// The scans of the jobs that were submitted and have not finished.
    pub pending: Seq<Tree>,
    /// The records sent so far, in the order in which they were sent.
    pub sent: Seq<Record>,
    /// The count of outstanding jobs, as the scan's context keeps it.
    pub outstanding: int,
}

/// A scan whose first job was submitted and has not run.
pub open spec fn begun(root: Tree) -> Progress {
    Progress { pending: seq![root], sent: Seq::empty(), outstanding: 1 }
}

/// The records sent once a run has sent its own.
pub open spec fn sent_after(sent: Seq<Record>, run: JobRun) -> Seq<Record> {
    match run.sent() {
        Some(record) => sent.push(record),
        None => sent,
    }
}

/// The scan after one more job has finished: the one at place `pick`, taken
/// round, among those pending. Its record is sent, the jobs that it
/// submitted are pending in its place, and the count is kept as the scan's
/// context keeps it. Where no job is pending nothing changes.
pub open spec fn finish_one(before: Progress, pick: nat) -> Progress {
    if before.pending.len() == 0 {
        before
    } else {
        let i = (pick % before.pending.len()) as int;
        let tree = before.pending[i];
        Progress {
            pending: before.pending.remove(i) + tree.children,
            sent: sent_after(before.sent, tree.run),
            outstanding: count_after(before.outstanding, tree.run),
        }
    }
}

/// The scan after as many jobs have finished as `picks` is long, each
/// chosen among those pending by the next of `picks`.
pub open spec fn finish_all(before: Progress, picks: Seq<nat>) -> Progress
    decreases picks.len(),
{
    if picks.len() == 0 {
        before
    } else {
        finish_all(finish_one(before, picks[0]), picks.drop_first())
    }
}

/// Whether the pending scans are well formed and the count is their number.
pub open spec fn consistent(progress: Progress) -> bool {
    all_well_formed(progress.pending) && progress.outstanding == progress.pending.len()
}

/// The records sent together with those that the pending scans still hold.
pub open spec fn records_due(progress: Progress) -> Multiset<Record> {
    progress.sent.to_multiset().add(records_in_all(progress.pending))
}

/// The number of jobs left after `finished` of `jobs` have finished.
pub open spec fn jobs_left(jobs: nat, finished: nat) -> nat {
    if finished >= jobs {
        0
    } else {
        (jobs - finished) as nat
    }
}

/// One job finishing keeps the count right, loses and adds no record, and
/// leaves one job less.
proof fn lemma_finish_one(before: Progress, pick: nat)
    requires
        consistent(before),
    ensures
        consistent(finish_one(before, pick)),
        records_due(finish_one(before, pick)) == records_due(before),
        jobs_in_all(finish_one(before, pick).pending) == jobs_left(jobs_in_all(before.pending), 1),
{
    broadcast use vstd::multiset::group_multiset_axioms;
    broadcast use vstd::seq_lib::group_to_multiset_ensures;

    if before.pending.len() > 0 {
        let len = before.pending.len();
        let i = (pick % len) as int;
        assert(0 <= i < len) by (nonlinear_arith)
            requires
                i == (pick % len) as int,
                len > 0,
        ;
        let tree = before.pending[i];
        lemma_all_remove(before.pending, i);
        lemma_all_concat(before.pending.remove(i), tree.children);
        assert(jobs_in(tree) == 1 + jobs_in_all(tree.children));
        assert(records_in(tree) == sent_by(tree.run).add(records_in_all(tree.children)));
    }
}

/// Any number of jobs finishing, in any order, keeps the count right, loses
/// and adds no record, and leaves that many jobs less.
proof fn lemma_finish_all(before: Progress, picks: Seq<nat>)
    requires
        consistent(before),
    ensures
        consistent(finish_all(before, picks)),
        records_due(finish_all(before, picks)) == records_due(before),
        jobs_in_all(finish_all(before, picks).pending) == jobs_left(
            jobs_in_all(before.pending),
            picks.len(),
        ),
    decreases picks.len(),
{
    if picks.len() > 0 {
        lemma_finish_one(before, picks[0]);
        lemma_finish_all(finish_one(before, picks[0]), picks.drop_first());
    }
}

/// A scan that has begun owes the records of its tree, all of them.
proof fn lemma_nothing_sent_at_first(root: Tree)
    ensures
        records_due(begun(root)) == records_in(root),
{
    broadcast use vstd::multiset::group_multiset_axioms;
    broadcast use vstd::seq_lib::group_to_multiset_ensures;

    lemma_all_single(root);
    assert(Seq::<Record>::empty().to_multiset() == Multiset::<Record>::empty());
}

/// Every scan ends, and has then sent each record of the tree once.
///
/// Whatever the order in which the pool finishes the jobs, and so whatever
/// the number of its workers: once as many jobs have finished as the tree
/// holds, none is pending, the count of outstanding jobs is zero, and the
/// records sent are, as a multiset, those of the regular files of the tree
/// that gave one. Their number is the number of those files.
pub proof fn law_every_record_sent_once(root: Tree, picks: Seq<nat>)
    requires
        well_formed(root),
        picks.len() >= jobs_in(root),
    ensures
        finish_all(begun(root), picks).pending.len() == 0,
        finish_all(begun(root), picks).outstanding == 0,
        finish_all(begun(root), picks).sent.to_multiset() == records_in(root),
        finish_all(begun(root), picks).sent.len() == files_read(root),
{
    broadcast use vstd::multiset::group_multiset_axioms;
    broadcast use vstd::seq_lib::group_to_multiset_ensures;

    let end = finish_all(begun(root), picks);
    lemma_all_single(root);
    lemma_finish_all(begun(root), picks);
    lemma_no_jobs(end.pending);
    lemma_nothing_sent_at_first(root);
    assert(records_due(end) == end.sent.to_multiset());
    lemma_records_counted(root);
}

/// The count of outstanding jobs tells the end of the scan, and nothing
/// else does.
///
/// After any number of jobs have finished, in any order, the count is the
/// number of jobs pending; it is zero if and only if every job of the tree
/// has finished. Until then the records sent are among those of the tree.
pub proof fn law_count_tells_the_end(root: Tree, picks: Seq<nat>)
    requires
        well_formed(root),
    ensures
        finish_all(begun(root), picks).outstanding == finish_all(begun(root), picks).pending.len(),
        finish_all(begun(root), picks).outstanding == 0 <==> picks.len() >= jobs_in(root),
        finish_all(begun(root), picks).sent.to_multiset().subset_of(records_in(root)),
{
    broadcast use vstd::multiset::group_multiset_axioms;
    broadcast use vstd::seq_lib::group_to_multiset_ensures;

    lemma_all_single(root);
    lemma_finish_all(begun(root), picks);
    lemma_no_jobs(finish_all(begun(root), picks).pending);
    lemma_nothing_sent_at_first(root);
}

/// Two scans of one tree send the same records, in whatever order each
/// finishes its jobs: the order and the number of workers change at most
/// the order of arrival, and a second scan of an unchanged tree gives what
/// the first gave.
pub proof fn law_order_is_immaterial(root: Tree, first: Seq<nat>, second: Seq<nat>)
    requires
        well_formed(root),
        first.len() >= jobs_in(root),
        second.len() >= jobs_in(root),
    ensures
        finish_all(begun(root), first).sent.to_multiset() == finish_all(
            begun(root),
            second,
        ).sent.to_multiset(),
{
    law_every_record_sent_once(root, first);
    law_every_record_sent_once(root, second);
}

/// Whether `path` leads from a scan to one below it (or is empty): each of
/// its numbers is the place of a scan among those under the one before.
pub open spec fn leads_into(tree: Tree, path: Seq<int>) -> bool
    decreases path.len(),
{
    path.len() > 0 ==> 0 <= path[0] < tree.children.len() && leads_into(
        tree.children[path[0]],
        path.drop_first(),
    )
}

/// The scan that `path` leads to.
pub open spec fn subtree(tree: Tree, path: Seq<int>) -> Tree
    decreases path.len(),
{
    if path.len() == 0 {
        tree
    } else {
        subtree(tree.children[path[0]], path.drop_first())
    }
}

/// The scan with the one that `path` leads to replaced.
pub open spec fn replaced(tree: Tree, path: Seq<int>, by: Tree) -> Tree
    decreases path.len(),
{
    if path.len() == 0 {
        by
    } else {
        Tree {
            run: tree.run,
            children: tree.children.update(
                path[0],
                replaced(tree.children[path[0]], path.drop_first(), by),
            ),
        }
    }
}

/// Whether the scan is that of a directory that could not be listed.
pub open spec fn unlisted(tree: Tree) -> bool {
    tree.run matches JobRun::Dir(_, Err(_)) && tree.children.len() == 0
}

/// Replacing one of several scans changes what they hold by the difference
/// of the two.
proof fn lemma_all_update(trees: Seq<Tree>, i: int, by: Tree)
    requires
        0 <= i < trees.len(),
    ensures
        records_in_all(trees.update(i, by)).add(records_in(trees[i])) == records_in_all(trees).add(
            records_in(by),
        ),
        all_well_formed(trees) && well_formed(by) ==> all_well_formed(trees.update(i, by)),
{
    broadcast use vstd::multiset::group_multiset_axioms;

    assert(trees.update(i, by).remove(i) == trees.remove(i));
    lemma_all_remove(trees, i);
    lemma_all_remove(trees.update(i, by), i);
}

/// Replacing a scan below changes the records of the whole by the
/// difference of the two, and keeps the whole well formed where the new
/// scan is well formed and runs the same job.
proof fn lemma_replaced(tree: Tree, path: Seq<int>, by: Tree)
    requires
        leads_into(tree, path),
    ensures
        records_in(replaced(tree, path, by)).add(records_in(subtree(tree, path))) == records_in(
            tree,
        ).add(records_in(by)),
        well_formed(tree) && well_formed(by) && by.run.job() == subtree(tree, path).run.job()
            ==> well_formed(replaced(tree, path, by)),
        replaced(tree, path, by).run.job() == if path.len() == 0 {
            by.run.job()
        } else {
            tree.run.job()
        },
    decreases path.len(),
{
    broadcast use vstd::multiset::group_multiset_axioms;

    if path.len() > 0 {
        let i = path[0];
        let child = tree.children[i];
        let new_child = replaced(child, path.drop_first(), by);
        lemma_replaced(child, path.drop_first(), by);
        lemma_all_update(tree.children, i, new_child);
        let new_tree = replaced(tree, path, by);
        let under = records_in(subtree(tree, path));
        let changed = records_in_all(new_tree.children).add(records_in(child));
        let unchanged = records_in_all(tree.children).add(records_in(new_child));
        assert forall|v: Record|
            records_in(new_tree).add(under).count(v) == records_in(tree).add(records_in(by)).count(
                v,
            ) by {
            assert(changed.count(v) == unchanged.count(v));
            assert(records_in(new_child).add(under).count(v) == records_in(child).add(
                records_in(by),
            ).count(v));
        }
        if well_formed(tree) && well_formed(by) && by.run.job() == subtree(tree, path).run.job() {
            lemma_all_remove(tree.children, i);
            assert forall|j: int| 0 <= j < new_tree.children.len() implies (
            #[trigger] new_tree.children[j]).run.job() == new_tree.run.spawned()[j] by {
                if j != i {
                    assert(new_tree.children[j] == tree.children[j]);
                }
            }
        }
    }
}

/// A directory that cannot be listed costs the records under it and no
/// other.
///
/// Take a tree and, anywhere in it, a scan; let the same job fail to list
/// its directory instead. The records of the tree are then those of the
/// changed tree together with those that were under the scan: what is
/// outside it is sent as before, record by record. The changed tree is well
/// formed, so all that holds of scans holds of it.
pub proof fn law_failed_listing_spares_the_rest(tree: Tree, path: Seq<int>, failed: Tree)
    requires
        well_formed(tree),
        leads_into(tree, path),
        unlisted(failed),
        failed.run.job() == subtree(tree, path).run.job(),
    ensures
        well_formed(replaced(tree, path, failed)),
        records_in(tree) == records_in(replaced(tree, path, failed)).add(
            records_in(subtree(tree, path)),
        ),
        files_read(tree) == files_read(replaced(tree, path, failed)) + files_read(
            subtree(tree, path),
        ),
{
    broadcast use vstd::multiset::group_multiset_axioms;

    assert(failed.children == Seq::<Tree>::empty());
    assert(records_in(failed) == Multiset::<Record>::empty());
    lemma_replaced(tree, path, failed);
    assert(records_in(tree) == records_in(replaced(tree, path, failed)).add(
        records_in(subtree(tree, path)),
    ));
    lemma_records_counted(tree);
    lemma_records_counted(replaced(tree, path, failed));
    lemma_records_counted(subtree(tree, path));
}

} // verus!
