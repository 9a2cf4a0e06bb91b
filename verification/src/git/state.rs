//! The repository state the panel is derived from.
use vstd::prelude::*;

use crate::git::branches::{Branch, BranchScope, SpecBranch, branches_view};
use crate::git::commits::Commit;
use crate::git::status::{Status, empty_status};
use crate::text::{chars_of, contains, decimal, owned, push_decimal, push_str, same, seq_contains, strs};

verus! {

/// A long-running Git operation the working tree is in the middle of.
///
/// Detected from `.git` marker files rather than inferred from status output,
/// because status alone cannot distinguish a paused rebase from an ordinary
/// conflict.
#[derive(Debug, Clone, Copy, PartialEq, Eq, Structural)]
pub enum Operation {
    Idle,
    Merge,
    Rebase,
    CherryPick,
}

impl Default for Operation {
    fn default() -> (op: Self)
        ensures
            op == Operation::Idle,
    {
        Operation::Idle
    }
}

pub open spec fn operation_label(op: Operation) -> Seq<char> {
    match op {
        Operation::Idle => ""@,
        Operation::Merge => "Merging"@,
        Operation::Rebase => "Rebasing"@,
        Operation::CherryPick => "Cherry-picking"@,
    }
}

/// True when some marker mentions `needle`.
pub open spec fn has_marker(markers: Seq<Seq<char>>, needle: Seq<char>) -> bool {
    exists|i: int| 0 <= i < markers.len() && seq_contains(#[trigger] markers[i], needle)
}

/// The operation a set of pseudo-refs names, a paused rebase first.
pub open spec fn spec_from_markers(markers: Seq<Seq<char>>) -> Operation {
    if has_marker(markers, "REBASE_HEAD"@) {
        Operation::Rebase
    } else if has_marker(markers, "CHERRY_PICK_HEAD"@) {
        Operation::CherryPick
    } else if has_marker(markers, "MERGE_HEAD"@) {
        Operation::Merge
    } else {
        Operation::Idle
    }
}

fn any_contains(markers: &[String], needle: &str) -> (b: bool)
    ensures
        b == has_marker(strs(markers@), needle@),
{
    let n = chars_of(needle);
    let ghost ms = strs(markers@);
    let mut i: usize = 0;
    while i < markers.len()
        invariant
            0 <= i <= markers@.len(),
            ms == strs(markers@),
            n@ == needle@,
            forall|j: int| 0 <= j < i ==> !seq_contains(#[trigger] ms[j], needle@),
        decreases markers@.len() - i,
    {
        let m = chars_of(markers[i].as_str());
        if contains(&m, &n) {
            assert(seq_contains(ms[i as int], needle@));
            return true;
        }
        i += 1;
    }
    false
}

impl Operation {
    pub fn label(self) -> (s: &'static str)
        ensures
            s@ == operation_label(self),
    {
        match self {
            Operation::Idle => "",
            Operation::Merge => "Merging",
            Operation::Rebase => "Rebasing",
            Operation::CherryPick => "Cherry-picking",
        }
    }

    pub fn is_active(self) -> (b: bool)
        ensures
            b == (self != Operation::Idle),
    {
        !matches!(self, Operation::Idle)
    }

    /// Reads the pseudo-refs Git sets while an operation is paused.
    ///
    /// Order matters: a rebase that stopped on a conflict can leave several of
    /// these present at once, and the rebase is the operation the user actually
    /// has to resolve.
    pub fn from_marker_paths(markers: &[String]) -> (op: Operation)
        ensures
            op == spec_from_markers(strs(markers@)),
    {
        if any_contains(markers, "REBASE_HEAD") {
            Operation::Rebase
        } else if any_contains(markers, "CHERRY_PICK_HEAD") {
            Operation::CherryPick
        } else if any_contains(markers, "MERGE_HEAD") {
            Operation::Merge
        } else {
            Operation::Idle
        }
    }
}

/// Everything the panel needs about one repository.
#[derive(Debug, Clone)]
pub struct RepositoryState {
    pub root: String,
    pub status: Status,
    pub branches: Vec<Branch>,
    pub remotes: Vec<String>,
    pub history: Vec<Commit>,
    pub operation: Operation,
    /// Set when the last refresh failed, so the panel can show why instead of
    /// silently showing stale or empty content.
    pub error: Option<String>,
}

impl Default for RepositoryState {
    fn default() -> (s: Self)
        ensures
            s.root@.len() == 0,
            s.status@ == empty_status(),
            s.branches@.len() == 0,
            s.remotes@.len() == 0,
            s.history@.len() == 0,
            s.operation == Operation::Idle,
            s.error is None,
    {
        RepositoryState {
            root: String::new(),
            status: Status::default(),
            branches: Vec::new(),
            remotes: Vec::new(),
            history: Vec::new(),
            operation: Operation::Idle,
            error: None,
        }
    }
}

/// The branches of `branches` in `scope`, in order.
pub open spec fn in_scope(branches: Seq<SpecBranch>, scope: BranchScope) -> Seq<SpecBranch>
    decreases branches.len(),
{
    if branches.len() == 0 {
        Seq::empty()
    } else if branches.last().scope == scope {
        in_scope(branches.drop_last(), scope).push(branches.last())
    } else {
        in_scope(branches.drop_last(), scope)
    }
}

/// The first checked-out branch, if any.
pub open spec fn first_head(branches: Seq<SpecBranch>) -> Option<int> {
    if exists|i: int| 0 <= i < branches.len() && (#[trigger] branches[i]).is_head {
        Some(choose|i: int| 0 <= i < branches.len() && (#[trigger] branches[i]).is_head
            && forall|j: int| 0 <= j < i ==> !(#[trigger] branches[j]).is_head)
    } else {
        None
    }
}

/// Where HEAD stands relative to its upstream, as the summary row says it.
pub open spec fn divergence(ahead: u32, behind: u32) -> Seq<char> {
    if ahead == 0 && behind == 0 {
        " (up to date)"@
    } else if behind == 0 {
        " (\u{2191}"@ + decimal(ahead as nat) + ")"@
    } else if ahead == 0 {
        " (\u{2193}"@ + decimal(behind as nat) + ")"@
    } else {
        " (\u{2191}"@ + decimal(ahead as nat) + " \u{2193}"@ + decimal(behind as nat) + ")"@
    }
}

/// The one-line summary of where HEAD is.
pub open spec fn spec_head_summary(s: RepositoryState) -> Seq<char> {
    match s.status.branch.head {
        None => "Detached HEAD"@,
        Some(head) => if s.status.branch.is_initial {
            head@ + " (no commits yet)"@
        } else {
            match s.status.branch.upstream {
                Some(upstream) => head@ + " \u{2192} "@ + upstream@ + divergence(
                    s.status.branch.ahead,
                    s.status.branch.behind,
                ),
                None => head@ + " (no upstream)"@,
            }
        },
    }
}

/// The remote to push a new branch to: `origin` when present, otherwise the
/// only remote.
pub open spec fn spec_default_remote(remotes: Seq<Seq<char>>) -> Option<Seq<char>> {
    if remotes.contains("origin"@) {
        Some("origin"@)
    } else if remotes.len() == 1 {
        Some(remotes[0])
    } else {
        None
    }
}

/// Local branches other than the checked-out one.
pub open spec fn base_candidates(branches: Seq<SpecBranch>) -> Seq<SpecBranch>
    decreases branches.len(),
{
    if branches.len() == 0 {
        Seq::empty()
    } else {
        let prev = base_candidates(branches.drop_last());
        let b = branches.last();
        if b.scope == BranchScope::Local && !b.is_head {
            prev.push(b)
        } else {
            prev
        }
    }
}

pub open spec fn names_of(branches: Seq<SpecBranch>) -> Seq<Seq<char>> {
    branches.map_values(|b: SpecBranch| b.name)
}

/// A base branch for merge checks: `main`, `master`, `develop`, in that
/// order of preference, else the first other local branch.
pub open spec fn spec_default_base(branches: Seq<SpecBranch>) -> Option<Seq<char>> {
    let names = names_of(base_candidates(branches));
    if names.contains("main"@) {
        Some("main"@)
    } else if names.contains("master"@) {
        Some("master"@)
    } else if names.contains("develop"@) {
        Some("develop"@)
    } else if names.len() > 0 {
        Some(names[0])
    } else {
        None
    }
}

/// Every branch is local or remote, and not both: the branches of the two
/// scopes together are as many as the branches.
pub proof fn lemma_scopes_split_the_branches(branches: Seq<SpecBranch>)
    ensures
        in_scope(branches, BranchScope::Local).len() + in_scope(branches, BranchScope::Remote).len()
            == branches.len(),
    decreases branches.len(),
{
    if branches.len() > 0 {
        lemma_scopes_split_the_branches(branches.drop_last());
    }
}

impl RepositoryState {
    pub fn local_branches(&self) -> (r: Vec<&Branch>)
        ensures
            r@.map_values(|b: &Branch| b@) == in_scope(branches_view(self.branches@), BranchScope::Local),
    {
        self.scoped(BranchScope::Local)
    }

    pub fn remote_branches(&self) -> (r: Vec<&Branch>)
        ensures
            r@.map_values(|b: &Branch| b@) == in_scope(branches_view(self.branches@), BranchScope::Remote),
    {
        self.scoped(BranchScope::Remote)
    }

    fn scoped(&self, scope: BranchScope) -> (r: Vec<&Branch>)
        ensures
            r@.map_values(|b: &Branch| b@) == in_scope(branches_view(self.branches@), scope),
    {
        let ghost all = branches_view(self.branches@);
        let mut out: Vec<&Branch> = Vec::new();
        let mut i: usize = 0;
        while i < self.branches.len()
            invariant
                0 <= i <= self.branches@.len(),
                all == branches_view(self.branches@),
                out@.map_values(|b: &Branch| b@) == in_scope(all.take(i as int), scope),
            decreases self.branches@.len() - i,
        {
            assert(all.take(i + 1).drop_last() =~= all.take(i as int));
            assert(all.take(i + 1).last() == self.branches@[i as int]@);
            if self.branches[i].scope == scope {
                let ghost before = out@.map_values(|b: &Branch| b@);
                out.push(&self.branches[i]);
                assert(out@.map_values(|b: &Branch| b@) =~= before.push(self.branches@[i as int]@));
            }
            i += 1;
        }
        assert(all.take(self.branches@.len() as int) =~= all);
        out
    }

    pub fn current_branch(&self) -> (r: Option<&Branch>)
        ensures
            match r {
                Some(b) => first_head(branches_view(self.branches@)) matches Some(i) && b@
                    == branches_view(self.branches@)[i],
                None => first_head(branches_view(self.branches@)) is None,
            },
    {
        let ghost all = branches_view(self.branches@);
        let mut i: usize = 0;
        while i < self.branches.len()
            invariant
                0 <= i <= self.branches@.len(),
                all == branches_view(self.branches@),
                forall|j: int| 0 <= j < i ==> !(#[trigger] all[j]).is_head,
            decreases self.branches@.len() - i,
        {
            if self.branches[i].is_head {
                assert(all[i as int].is_head);
                proof {
                    let k = choose|k: int| 0 <= k < all.len() && (#[trigger] all[k]).is_head
                        && forall|j: int| 0 <= j < k ==> !(#[trigger] all[j]).is_head;
                    if k < i {
                        assert(!all[k].is_head);
                    } else if k > i {
                        assert(!all[i as int].is_head);
                    }
                }
                return Some(&self.branches[i]);
            }
            i += 1;
        }
        None
    }

    /// A one-line summary of where HEAD is relative to its upstream.
    pub fn head_summary(&self) -> (s: String)
        ensures
            s@ == spec_head_summary(*self),
    {
        let Some(head) = &self.status.branch.head else {
            return owned("Detached HEAD");
        };
        let mut summary = head.clone();
        if self.status.branch.is_initial {
            push_str(&mut summary, " (no commits yet)");
            return summary;
        }
        match &self.status.branch.upstream {
            Some(upstream) => {
                push_str(&mut summary, " \u{2192} ");
                push_str(&mut summary, upstream.as_str());
                let ahead = self.status.branch.ahead;
                let behind = self.status.branch.behind;
                if ahead == 0 && behind == 0 {
                    push_str(&mut summary, " (up to date)");
                } else if behind == 0 {
                    push_str(&mut summary, " (\u{2191}");
                    push_decimal(&mut summary, ahead as u64);
                    push_str(&mut summary, ")");
                } else if ahead == 0 {
                    push_str(&mut summary, " (\u{2193}");
                    push_decimal(&mut summary, behind as u64);
                    push_str(&mut summary, ")");
                } else {
                    push_str(&mut summary, " (\u{2191}");
                    push_decimal(&mut summary, ahead as u64);
                    push_str(&mut summary, " \u{2193}");
                    push_decimal(&mut summary, behind as u64);
                    push_str(&mut summary, ")");
                }
                assert(summary@ =~= spec_head_summary(*self));
            },
            None => {
                push_str(&mut summary, " (no upstream)");
            },
        }
        summary
    }

    /// The remote to push a new branch to.
    ///
    /// `origin` when it exists, otherwise the only remote; ambiguity with
    /// several non-`origin` remotes is left to the caller to resolve rather
    /// than guessed at.
    pub fn default_remote(&self) -> (r: Option<&str>)
        ensures
            match r {
                Some(name) => spec_default_remote(strs(self.remotes@)) == Some(name@),
                None => spec_default_remote(strs(self.remotes@)) is None,
            },
    {
        let ghost rs = strs(self.remotes@);
        let mut i: usize = 0;
        while i < self.remotes.len()
            invariant
                0 <= i <= self.remotes@.len(),
                rs == strs(self.remotes@),
                forall|j: int| 0 <= j < i ==> rs[j] != "origin"@,
            decreases self.remotes@.len() - i,
        {
            if same(self.remotes[i].as_str(), "origin") {
                assert(rs[i as int] == "origin"@);
                return Some("origin");
            }
            i += 1;
        }
        assert(!rs.contains("origin"@));
        if self.remotes.len() == 1 {
            Some(self.remotes[0].as_str())
        } else {
            None
        }
    }

    /// A base branch to compare against for merge checks, preferring the
    /// conventional names before falling back to any other local branch.
    ///
    /// The checked-out branch is never the answer: "commits on this branch not
    /// in itself" is always zero, which would make a force delete look safe.
    pub fn default_base_branch(&self) -> (r: Option<&str>)
        ensures
            match r {
                Some(name) => spec_default_base(branches_view(self.branches@)) == Some(name@),
                None => spec_default_base(branches_view(self.branches@)) is None,
            },
    {
        let ghost all = branches_view(self.branches@);
        let mut candidates: Vec<&Branch> = Vec::new();
        let mut i: usize = 0;
        while i < self.branches.len()
            invariant
                0 <= i <= self.branches@.len(),
                all == branches_view(self.branches@),
                candidates@.map_values(|b: &Branch| b@) == base_candidates(all.take(i as int)),
            decreases self.branches@.len() - i,
        {
            assert(all.take(i + 1).drop_last() =~= all.take(i as int));
            assert(all.take(i + 1).last() == self.branches@[i as int]@);
            if self.branches[i].scope == BranchScope::Local && !self.branches[i].is_head {
                let ghost before = candidates@.map_values(|b: &Branch| b@);
                candidates.push(&self.branches[i]);
                assert(candidates@.map_values(|b: &Branch| b@) =~= before.push(self.branches@[i as int]@));
            }
            i += 1;
        }
        assert(all.take(self.branches@.len() as int) =~= all);
        let ghost names = names_of(base_candidates(all));
        assert(names =~= candidates@.map_values(|b: &Branch| b@.name));
        if Self::has_name(&candidates, "main") {
            return Some("main");
        }
        if Self::has_name(&candidates, "master") {
            return Some("master");
        }
        if Self::has_name(&candidates, "develop") {
            return Some("develop");
        }
        if candidates.len() > 0 {
            Some(candidates[0].name.as_str())
        } else {
            None
        }
    }

    fn has_name(candidates: &Vec<&Branch>, name: &str) -> (b: bool)
        ensures
            b == candidates@.map_values(|b: &Branch| b@.name).contains(name@),
    {
        let ghost ns = candidates@.map_values(|b: &Branch| b@.name);
        let mut i: usize = 0;
        while i < candidates.len()
            invariant
                0 <= i <= candidates@.len(),
                ns == candidates@.map_values(|b: &Branch| b@.name),
                forall|j: int| 0 <= j < i ==> ns[j] != name@,
            decreases candidates@.len() - i,
        {
            if same(candidates[i].name.as_str(), name) {
                assert(ns[i as int] == name@);
                return true;
            }
            i += 1;
        }
        false
    }
}

} // verus!
