//! Parser for `git status --porcelain=v2 -z --branch`.
//!
//! Porcelain v2 with NUL termination is the only status format that is safe to
//! parse: paths are emitted raw, so a filename containing a space, a quote or a
//! newline cannot be confused with a field separator or a record boundary.
use vstd::prelude::*;

use crate::text::{
    chars_of, equals, keep_non_empty, non_empty, owned, parse_u32, parse_u32_at,
    push_char, split_on, split_once, split_once_at, split_seq, string_of,
    string_of_all, views, words, words_of,
};

verus! {

/// Where a change sits relative to the index.
#[derive(Debug, Clone, Copy, PartialEq, Eq, PartialOrd, Ord, Structural)]
pub enum ChangeKind {
    Added,
    Modified,
    Deleted,
    Renamed,
    Copied,
    TypeChanged,
    Untracked,
    Conflicted,
}

/// The single-letter code Git prints for each kind.
pub open spec fn change_code(kind: ChangeKind) -> Seq<char> {
    match kind {
        ChangeKind::Added => seq!['A'],
        ChangeKind::Modified => seq!['M'],
        ChangeKind::Deleted => seq!['D'],
        ChangeKind::Renamed => seq!['R'],
        ChangeKind::Copied => seq!['C'],
        ChangeKind::TypeChanged => seq!['T'],
        ChangeKind::Untracked => seq!['?'],
        ChangeKind::Conflicted => seq!['U'],
    }
}

/// The kind a porcelain `XY` letter names, if it names one.
pub open spec fn status_letter(c: char) -> Option<ChangeKind> {
    if c == 'A' {
        Some(ChangeKind::Added)
    } else if c == 'M' {
        Some(ChangeKind::Modified)
    } else if c == 'D' {
        Some(ChangeKind::Deleted)
    } else if c == 'R' {
        Some(ChangeKind::Renamed)
    } else if c == 'C' {
        Some(ChangeKind::Copied)
    } else if c == 'T' {
        Some(ChangeKind::TypeChanged)
    } else {
        None
    }
}

impl ChangeKind {
    /// Single-letter code, matching what Git itself prints.
    pub fn code(self) -> (s: String)
        ensures
            s@ == change_code(self),
    {
        let c = match self {
            ChangeKind::Added => 'A',
            ChangeKind::Modified => 'M',
            ChangeKind::Deleted => 'D',
            ChangeKind::Renamed => 'R',
            ChangeKind::Copied => 'C',
            ChangeKind::TypeChanged => 'T',
            ChangeKind::Untracked => '?',
            ChangeKind::Conflicted => 'U',
        };
        let mut s = String::new();
        push_char(&mut s, c);
        assert(s@ =~= change_code(self));
        s
    }

    fn from_status_letter(letter: char) -> (k: Option<ChangeKind>)
        ensures
            k == status_letter(letter),
    {
        if letter == 'A' {
            Some(ChangeKind::Added)
        } else if letter == 'M' {
            Some(ChangeKind::Modified)
        } else if letter == 'D' {
            Some(ChangeKind::Deleted)
        } else if letter == 'R' {
            Some(ChangeKind::Renamed)
        } else if letter == 'C' {
            Some(ChangeKind::Copied)
        } else if letter == 'T' {
            Some(ChangeKind::TypeChanged)
        } else {
            None
        }
    }
}

/// One changed path, as it appears in one of the panel's change sections.
#[derive(Debug, Clone, PartialEq, Eq)]
pub struct FileChange {
    /// Repository-relative, so it round-trips through panel item ids and back
    /// into a Git argument without translation.
    pub path: String,
    pub kind: ChangeKind,
    /// Set for renames and copies.
    pub original_path: Option<String>,
}

pub struct SpecFileChange {
    pub path: Seq<char>,
    pub kind: ChangeKind,
    pub original_path: Option<Seq<char>>,
}

impl View for FileChange {
    type V = SpecFileChange;

    open spec fn view(&self) -> SpecFileChange {
        SpecFileChange {
            path: self.path@,
            kind: self.kind,
            original_path: self.original_path.deep_view(),
        }
    }
}

pub open spec fn changes_view(v: Seq<FileChange>) -> Seq<SpecFileChange> {
    v.map_values(|c: FileChange| c@)
}

/// Branch and divergence information from the `# branch.*` headers.
#[derive(Debug, Clone, PartialEq, Eq)]
pub struct BranchStatus {
    /// `None` on a detached HEAD.
    pub head: Option<String>,
    pub upstream: Option<String>,
    pub ahead: u32,
    pub behind: u32,
    /// True before the first commit, where `HEAD` does not resolve.
    pub is_initial: bool,
}

pub struct SpecBranchStatus {
    pub head: Option<Seq<char>>,
    pub upstream: Option<Seq<char>>,
    pub ahead: u32,
    pub behind: u32,
    pub is_initial: bool,
}

impl View for BranchStatus {
    type V = SpecBranchStatus;

    open spec fn view(&self) -> SpecBranchStatus {
        SpecBranchStatus {
            head: self.head.deep_view(),
            upstream: self.upstream.deep_view(),
            ahead: self.ahead,
            behind: self.behind,
            is_initial: self.is_initial,
        }
    }
}

impl Default for BranchStatus {
    fn default() -> (b: Self)
        ensures
            b@ == empty_branch_status(),
    {
        BranchStatus { head: None, upstream: None, ahead: 0, behind: 0, is_initial: false }
    }
}

pub open spec fn empty_branch_status() -> SpecBranchStatus {
    SpecBranchStatus { head: None, upstream: None, ahead: 0, behind: 0, is_initial: false }
}

/// A repository's working-tree state.
#[derive(Debug, Clone, PartialEq, Eq)]
pub struct Status {
    pub branch: BranchStatus,
    pub staged: Vec<FileChange>,
    pub unstaged: Vec<FileChange>,
    pub untracked: Vec<FileChange>,
    pub conflicts: Vec<FileChange>,
}

pub struct SpecStatus {
    pub branch: SpecBranchStatus,
    pub staged: Seq<SpecFileChange>,
    pub unstaged: Seq<SpecFileChange>,
    pub untracked: Seq<SpecFileChange>,
    pub conflicts: Seq<SpecFileChange>,
}

impl View for Status {
    type V = SpecStatus;

    open spec fn view(&self) -> SpecStatus {
        SpecStatus {
            branch: self.branch@,
            staged: changes_view(self.staged@),
            unstaged: changes_view(self.unstaged@),
            untracked: changes_view(self.untracked@),
            conflicts: changes_view(self.conflicts@),
        }
    }
}

pub open spec fn empty_status() -> SpecStatus {
    SpecStatus {
        branch: empty_branch_status(),
        staged: Seq::empty(),
        unstaged: Seq::empty(),
        untracked: Seq::empty(),
        conflicts: Seq::empty(),
    }
}

impl Default for Status {
    fn default() -> (s: Self)
        ensures
            s@ == empty_status(),
    {
        let s = Status {
            branch: BranchStatus::default(),
            staged: Vec::new(),
            unstaged: Vec::new(),
            untracked: Vec::new(),
            conflicts: Vec::new(),
        };
        assert(s@.staged =~= Seq::<SpecFileChange>::empty());
        assert(s@.unstaged =~= Seq::<SpecFileChange>::empty());
        assert(s@.untracked =~= Seq::<SpecFileChange>::empty());
        assert(s@.conflicts =~= Seq::<SpecFileChange>::empty());
        s
    }
}

/// True when no section of `s` has a change in it.
pub open spec fn no_changes(s: Status) -> bool {
    s.staged@.len() == 0 && s.unstaged@.len() == 0 && s.untracked@.len() == 0 && s.conflicts@.len() == 0
}

/// The number of rows across the four sections of `s`.
pub open spec fn change_count(s: Status) -> nat {
    s.staged@.len() + s.unstaged@.len() + s.untracked@.len() + s.conflicts@.len()
}

/// A clean status is exactly one with no changes to count:
/// [`Status::is_clean`] holds when, and only when, [`Status::total_changes`]
/// is zero.
pub proof fn lemma_clean_means_nothing_to_count(s: Status)
    ensures
        no_changes(s) <==> change_count(s) == 0,
{
}

impl Status {
    /// True when no section has any change in it.
    pub fn is_clean(&self) -> (b: bool)
        ensures
            b == no_changes(*self),
    {
        self.staged.len() == 0 && self.unstaged.len() == 0 && self.untracked.len() == 0
            && self.conflicts.len() == 0
    }

    /// The number of rows across all four sections.
    pub fn total_changes(&self) -> (n: usize)
        requires
            change_count(*self) <= usize::MAX,
        ensures
            n == change_count(*self),
    {
        self.staged.len() + self.unstaged.len() + self.untracked.len() + self.conflicts.len()
    }
}

/// Arguments that produce the output [`parse`] expects.
pub open spec fn spec_status_args() -> Seq<Seq<char>> {
    seq![
        "status"@,
        "--porcelain=v2"@,
        "--branch"@,
        "--untracked-files=normal"@,
        "-z"@,
    ]
}

pub fn status_args() -> (args: Vec<String>)
    ensures
        args@.map_values(|a: String| a@) == spec_status_args(),
{
    let args = vec![
        owned("status"),
        owned("--porcelain=v2"),
        owned("--branch"),
        owned("--untracked-files=normal"),
        owned("-z"),
    ];
    assert(args@.map_values(|a: String| a@) =~= spec_status_args());
    args
}

// ---------------------------------------------------------------------------
// The meaning of one status report.

/// Everything after `skip` space-separated fields, when that is non-empty.
pub open spec fn nth_field_onwards(s: Seq<char>, skip: nat) -> Option<Seq<char>>
    decreases skip,
{
    if skip == 0 {
        if s.len() > 0 {
            Some(s)
        } else {
            None
        }
    } else {
        match split_once(s, ' ') {
            Some((_, rest)) => nth_field_onwards(rest, (skip - 1) as nat),
            None => None,
        }
    }
}

/// The staged and unstaged kinds an `XY` code names. An `XY` of two bytes
/// that are not two ASCII characters yields no change on either side, so it
/// is treated as no code at all.
pub open spec fn spec_split_xy(xy: Seq<char>) -> Option<(Option<ChangeKind>, Option<ChangeKind>)> {
    if xy.len() == 2 && (xy[0] as u32) < 128 && (xy[1] as u32) < 128 {
        Some((status_letter(xy[0]), status_letter(xy[1])))
    } else {
        None
    }
}

/// `<XY> <fields>... <path>` with `fields` fields before the path.
pub open spec fn spec_change_record(rest: Seq<char>, fields: nat) -> Option<
    (Option<ChangeKind>, Option<ChangeKind>, Seq<char>),
> {
    match split_once(rest, ' ') {
        None => None,
        Some((xy, remainder)) => match nth_field_onwards(remainder, fields) {
            None => None,
            Some(path) => match spec_split_xy(xy) {
                None => None,
                Some((x, y)) => Some((x, y, path)),
            },
        },
    }
}

/// `u <XY> <sub> <m1> <m2> <m3> <mW> <h1> <h2> <h3> <path>`
pub open spec fn spec_unmerged(rest: Seq<char>) -> Option<Seq<char>> {
    match split_once(rest, ' ') {
        None => None,
        Some((_, remainder)) => nth_field_onwards(remainder, 8),
    }
}

pub open spec fn change(path: Seq<char>, kind: ChangeKind, original_path: Option<Seq<char>>) -> SpecFileChange {
    SpecFileChange { path, kind, original_path }
}

/// Records a change on the staged side, the unstaged side, or both.
pub open spec fn spec_push_change(
    st: SpecStatus,
    staged: Option<ChangeKind>,
    unstaged: Option<ChangeKind>,
    path: Seq<char>,
    original: Option<Seq<char>>,
) -> SpecStatus {
    let st1 = match staged {
        Some(kind) => SpecStatus { staged: st.staged.push(change(path, kind, original)), ..st },
        None => st,
    };
    match unstaged {
        Some(kind) => SpecStatus { unstaged: st1.unstaged.push(change(path, kind, None)), ..st1 },
        None => st1,
    }
}

/// One `+N` or `-N` token of `# branch.ab`.
pub open spec fn spec_ab_token(t: Seq<char>, b: SpecBranchStatus) -> SpecBranchStatus {
    if t.len() >= 1 && (t[0] == '+' || t[0] == '-') {
        match parse_u32(t.drop_first()) {
            Some(n) => if t[0] == '+' {
                SpecBranchStatus { ahead: n, ..b }
            } else {
                SpecBranchStatus { behind: n, ..b }
            },
            None => b,
        }
    } else {
        b
    }
}

pub open spec fn spec_ab_tokens(tokens: Seq<Seq<char>>, b: SpecBranchStatus) -> SpecBranchStatus
    decreases tokens.len(),
{
    if tokens.len() == 0 {
        b
    } else {
        spec_ab_token(tokens.last(), spec_ab_tokens(tokens.drop_last(), b))
    }
}

/// One `# branch.<key> <value>` header.
pub open spec fn spec_branch_header(rest: Seq<char>, b: SpecBranchStatus) -> SpecBranchStatus {
    match split_once(rest, ' ') {
        None => b,
        Some((key, value)) => if key == "branch.oid"@ {
            SpecBranchStatus { is_initial: value == "(initial)"@, ..b }
        } else if key == "branch.head"@ {
            SpecBranchStatus { head: if value != "(detached)"@ { Some(value) } else { None }, ..b }
        } else if key == "branch.upstream"@ {
            SpecBranchStatus { upstream: Some(value), ..b }
        } else if key == "branch.ab"@ {
            spec_ab_tokens(words(value), b)
        } else {
            b
        },
    }
}

/// Applies one record that does not consume a following record.
pub open spec fn spec_record(st: SpecStatus, marker: char, rest: Seq<char>) -> SpecStatus {
    if marker == '#' {
        SpecStatus { branch: spec_branch_header(rest, st.branch), ..st }
    } else if marker == '1' {
        match spec_change_record(rest, 6) {
            Some((x, y, path)) => spec_push_change(st, x, y, path, None),
            None => st,
        }
    } else if marker == 'u' {
        match spec_unmerged(rest) {
            Some(path) => SpecStatus {
                conflicts: st.conflicts.push(change(path, ChangeKind::Conflicted, None)),
                ..st
            },
            None => st,
        }
    } else if marker == '?' {
        SpecStatus { untracked: st.untracked.push(change(rest, ChangeKind::Untracked, None)), ..st }
    } else {
        st
    }
}

/// A record after its marker and the one space that separates the marker
/// from the rest. Only that space goes: a path that begins with a space
/// keeps it, byte for byte.
pub open spec fn after_marker(r: Seq<char>) -> Seq<char> {
    if r.len() >= 2 && r[1] == ' ' {
        r.subrange(2, r.len() as int)
    } else {
        r.drop_first()
    }
}

/// Where [`after_marker`] of `v[0..hi]` starts.
fn marker_end(v: &Vec<char>, hi: usize) -> (a: usize)
    requires
        0 < hi <= v.len(),
    ensures
        1 <= a <= hi,
        v@.subrange(a as int, hi as int) == after_marker(v@.subrange(0, hi as int)),
{
    let ghost r = v@.subrange(0, hi as int);
    if hi >= 2 && v[1] == ' ' {
        assert(v@.subrange(2, hi as int) =~= r.subrange(2, r.len() as int));
        2
    } else {
        assert(v@.subrange(1, hi as int) =~= r.drop_first());
        1
    }
}

/// Applies the records from `i` on. A rename or copy (`2`) spends the
/// following record on its original path.
pub open spec fn spec_records_from(records: Seq<Seq<char>>, i: int, st: SpecStatus) -> SpecStatus
    decreases records.len() - i,
{
    if i < 0 || i >= records.len() {
        st
    } else if records[i].len() == 0 {
        spec_records_from(records, i + 1, st)
    } else {
        let r = records[i];
        let rest = after_marker(r);
        if r[0] == '2' {
            let original = if i + 1 < records.len() { Some(records[i + 1]) } else { None };
            let next = if i + 1 < records.len() { i + 2 } else { i + 1 };
            let st2 = match spec_change_record(rest, 7) {
                Some((x, y, path)) => spec_push_change(st, x, y, path, original),
                None => st,
            };
            spec_records_from(records, next, st2)
        } else {
            spec_records_from(records, i + 1, spec_record(st, r[0], rest))
        }
    }
}

/// The meaning of `git status --porcelain=v2 -z --branch` output: its
/// non-empty NUL-separated records applied in order to an empty status.
pub open spec fn spec_parse(output: Seq<char>) -> SpecStatus {
    spec_records_from(non_empty(split_seq(output, '\0')), 0, empty_status())
}

/// The untracked paths of `records` from `i` on: one for each record that
/// starts with `?`, in order, its path after the marker and separating
/// space. The record after a rename or copy (`2`) is that record's original
/// path, not a record of its own.
pub open spec fn untracked_records(records: Seq<Seq<char>>, i: int) -> Seq<SpecFileChange>
    decreases records.len() - i,
{
    if i < 0 || i >= records.len() {
        Seq::empty()
    } else if records[i].len() > 0 && records[i][0] == '2' {
        untracked_records(records, if i + 1 < records.len() { i + 2 } else { i + 1 })
    } else if records[i].len() > 0 && records[i][0] == '?' {
        let r = records[i];
        let path = if r.len() >= 2 && r[1] == ' ' { r.subrange(2, r.len() as int) } else { r.drop_first() };
        seq![change(path, ChangeKind::Untracked, None)] + untracked_records(records, i + 1)
    } else {
        untracked_records(records, i + 1)
    }
}

proof fn lemma_untracked_from(records: Seq<Seq<char>>, i: int, st: SpecStatus)
    requires
        0 <= i,
    ensures
        spec_records_from(records, i, st).untracked == st.untracked + untracked_records(records, i),
    decreases records.len() - i,
{
    if i >= records.len() {
        assert(st.untracked + Seq::<SpecFileChange>::empty() =~= st.untracked);
    } else if records[i].len() == 0 {
        lemma_untracked_from(records, i + 1, st);
    } else {
        let r = records[i];
        let rest = after_marker(r);
        if r[0] == '2' {
            let original = if i + 1 < records.len() { Some(records[i + 1]) } else { None };
            let next = if i + 1 < records.len() { i + 2 } else { i + 1 };
            let st2 = match spec_change_record(rest, 7) {
                Some((x, y, path)) => spec_push_change(st, x, y, path, original),
                None => st,
            };
            assert(st2.untracked == st.untracked);
            lemma_untracked_from(records, next, st2);
        } else {
            let st2 = spec_record(st, r[0], rest);
            lemma_untracked_from(records, i + 1, st2);
            if r[0] == '?' {
                assert(st2.untracked == st.untracked.push(change(rest, ChangeKind::Untracked, None)));
                assert(st.untracked.push(change(rest, ChangeKind::Untracked, None)) + untracked_records(records, i + 1)
                    =~= st.untracked + (seq![change(rest, ChangeKind::Untracked, None)] + untracked_records(records, i + 1)));
            } else {
                assert(st2.untracked == st.untracked);
            }
        }
    }
}

/// Every untracked file is reported, once, in order: the untracked section
/// of a parse holds exactly one entry for each record of the output that
/// starts with `?`, with that record's path, and nothing else.
pub proof fn lemma_every_untracked_record_is_reported(output: Seq<char>)
    ensures
        spec_parse(output).untracked == untracked_records(non_empty(split_seq(output, '\0')), 0),
{
    lemma_untracked_from(non_empty(split_seq(output, '\0')), 0, empty_status());
    assert(empty_status().untracked + untracked_records(non_empty(split_seq(output, '\0')), 0)
        =~= untracked_records(non_empty(split_seq(output, '\0')), 0));
}

// ---------------------------------------------------------------------------
// The parser.

/// Start of everything after `skip` space-separated fields of `v[lo..hi]`.
fn nth_field_onwards_at(v: &Vec<char>, lo: usize, hi: usize, skip: usize) -> (r: Option<usize>)
    requires
        lo <= hi <= v.len(),
    ensures
        match r {
            Some(a) => lo <= a < hi && nth_field_onwards(v@.subrange(lo as int, hi as int), skip as nat)
                == Some(v@.subrange(a as int, hi as int)),
            None => nth_field_onwards(v@.subrange(lo as int, hi as int), skip as nat) is None,
        },
    decreases skip,
{
    if skip == 0 {
        if lo < hi {
            Some(lo)
        } else {
            None
        }
    } else {
        match split_once_at(v, lo, hi, ' ') {
            Some((_, after)) => nth_field_onwards_at(v, after, hi, skip - 1),
            None => None,
        }
    }
}

fn split_xy(v: &Vec<char>, lo: usize, hi: usize) -> (r: Option<(Option<ChangeKind>, Option<ChangeKind>)>)
    requires
        lo <= hi <= v.len(),
    ensures
        r == spec_split_xy(v@.subrange(lo as int, hi as int)),
{
    if hi - lo == 2 && (v[lo] as u32) < 128 && (v[lo + 1] as u32) < 128 {
        Some((ChangeKind::from_status_letter(v[lo]), ChangeKind::from_status_letter(v[lo + 1])))
    } else {
        None
    }
}

/// Parses `<XY> <fields>... <path>`, returning the kinds and the path range.
fn change_record(v: &Vec<char>, lo: usize, hi: usize, fields: usize) -> (r: Option<
    (Option<ChangeKind>, Option<ChangeKind>, usize),
>)
    requires
        lo <= hi <= v.len(),
    ensures
        match r {
            Some((x, y, a)) => lo <= a <= hi && spec_change_record(v@.subrange(lo as int, hi as int), fields as nat)
                == Some((x, y, v@.subrange(a as int, hi as int))),
            None => spec_change_record(v@.subrange(lo as int, hi as int), fields as nat) is None,
        },
{
    match split_once_at(v, lo, hi, ' ') {
        None => None,
        Some((k, after)) => match nth_field_onwards_at(v, after, hi, fields) {
            None => None,
            Some(a) => match split_xy(v, lo, k) {
                None => None,
                Some((x, y)) => Some((x, y, a)),
            },
        },
    }
}

fn unmerged(v: &Vec<char>, lo: usize, hi: usize) -> (r: Option<usize>)
    requires
        lo <= hi <= v.len(),
    ensures
        match r {
            Some(a) => lo <= a <= hi && spec_unmerged(v@.subrange(lo as int, hi as int)) == Some(
                v@.subrange(a as int, hi as int),
            ),
            None => spec_unmerged(v@.subrange(lo as int, hi as int)) is None,
        },
{
    match split_once_at(v, lo, hi, ' ') {
        None => None,
        Some((_, after)) => nth_field_onwards_at(v, after, hi, 8),
    }
}

fn push_change(
    status: &mut Status,
    staged: Option<ChangeKind>,
    unstaged: Option<ChangeKind>,
    path: &String,
    original_path: Option<String>,
)
    ensures
        final(status)@ == spec_push_change(old(status)@, staged, unstaged, path@, original_path.deep_view()),
{
    let ghost st0 = status@;
    if let Some(kind) = staged {
        status.staged.push(FileChange { path: path.clone(), kind, original_path: original_path });
        assert(changes_view(status.staged@) =~= st0.staged.push(change(path@, kind, original_path.deep_view())));
    }
    let ghost st1 = status@;
    if let Some(kind) = unstaged {
        // The rename is what the index records; the worktree change on top
        // of it is an ordinary modification of the new path.
        status.unstaged.push(FileChange { path: path.clone(), kind, original_path: None });
        assert(changes_view(status.unstaged@) =~= st1.unstaged.push(change(path@, kind, None)));
    }
}

fn ab_token(t: &Vec<char>, b: &mut BranchStatus)
    ensures
        final(b)@ == spec_ab_token(t@, old(b)@),
{
    if t.len() >= 1 && (t[0] == '+' || t[0] == '-') {
        assert(t@.subrange(1, t@.len() as int) =~= t@.drop_first());
        match parse_u32_at(t, 1, t.len()) {
            Some(n) => {
                if t[0] == '+' {
                    b.ahead = n;
                } else {
                    b.behind = n;
                }
            },
            None => {},
        }
    }
}

fn branch_header(v: &Vec<char>, lo: usize, hi: usize, b: &mut BranchStatus)
    requires
        lo <= hi <= v.len(),
    ensures
        final(b)@ == spec_branch_header(v@.subrange(lo as int, hi as int), old(b)@),
{
    let Some((k, after)) = split_once_at(v, lo, hi, ' ') else {
        return;
    };
    if equals(v, lo, k, &chars_of("branch.oid")) {
        b.is_initial = equals(v, after, hi, &chars_of("(initial)"));
    } else if equals(v, lo, k, &chars_of("branch.head")) {
        if !equals(v, after, hi, &chars_of("(detached)")) {
            b.head = Some(string_of(v, after, hi));
        } else {
            b.head = None;
        }
    } else if equals(v, lo, k, &chars_of("branch.upstream")) {
        b.upstream = Some(string_of(v, after, hi));
    } else if equals(v, lo, k, &chars_of("branch.ab")) {
        let tokens = words_of(v, after, hi);
        let ghost toks = views(tokens@);
        let ghost b0 = b@;
        let mut i: usize = 0;
        while i < tokens.len()
            invariant
                0 <= i <= tokens.len(),
                toks == views(tokens@),
                b@ == spec_ab_tokens(toks.take(i as int), b0),
            decreases tokens.len() - i,
        {
            assert(toks.take(i + 1).drop_last() =~= toks.take(i as int));
            assert(toks.take(i + 1).last() == tokens@[i as int]@);
            ab_token(&tokens[i], b);
            i += 1;
        }
        assert(toks.take(tokens.len() as int) =~= toks);
    }
}

fn apply_record(status: &mut Status, v: &Vec<char>, hi: usize)
    requires
        0 < hi <= v.len(),
        v@[0] != '2',
    ensures
        final(status)@ == spec_record(
            old(status)@,
            v@.subrange(0, hi as int)[0],
            after_marker(v@.subrange(0, hi as int)),
        ),
{
    let ghost r = v@.subrange(0, hi as int);
    let a = marker_end(v, hi);
    let marker = v[0];
    if marker == '#' {
        branch_header(v, a, hi, &mut status.branch);
    } else if marker == '1' {
        match change_record(v, a, hi, 6) {
            Some((x, y, p)) => {
                let path = string_of(v, p, hi);
                push_change(status, x, y, &path, None);
            },
            None => {},
        }
    } else if marker == 'u' {
        match unmerged(v, a, hi) {
            Some(p) => {
                let ghost before = changes_view(status.conflicts@);
                let path = string_of(v, p, hi);
                status.conflicts.push(FileChange { path, kind: ChangeKind::Conflicted, original_path: None });
                assert(changes_view(status.conflicts@) =~= before.push(
                    change(v@.subrange(p as int, hi as int), ChangeKind::Conflicted, None),
                ));
            },
            None => {},
        }
    } else if marker == '?' {
        let ghost before = changes_view(status.untracked@);
        let path = string_of(v, a, hi);
        status.untracked.push(FileChange { path, kind: ChangeKind::Untracked, original_path: None });
        assert(changes_view(status.untracked@) =~= before.push(
            change(v@.subrange(a as int, hi as int), ChangeKind::Untracked, None),
        ));
    }
}

/// Parses `git status --porcelain=v2 -z --branch` output.
///
/// Unrecognised records are skipped rather than failing the parse: a future Git
/// adding a record type should degrade the panel, not blank it.
pub fn parse(output: &str) -> (status: Status)
    ensures
        status@ == spec_parse(output@),
{
    let chars = chars_of(output);
    let parts = split_on(&chars, 0, chars.len(), '\0');
    assert(chars@.subrange(0, chars@.len() as int) =~= output@);
    let records = keep_non_empty(parts);
    let ghost recs = views(records@);
    let mut status = Status::default();
    let mut i: usize = 0;
    while i < records.len()
        invariant
            0 <= i <= records.len(),
            recs == views(records@),
            recs == non_empty(split_seq(output@, '\0')),
            spec_parse(output@) == spec_records_from(recs, i as int, status@),
        decreases records.len() - i,
    {
        let record = &records[i];
        assert(recs[i as int] == record@);
        if record.len() == 0 {
            i += 1;
            continue;
        }
        let ghost r = record@;
        let ghost rest = after_marker(r);
        assert(record@.subrange(0, record@.len() as int) =~= r);
        if record[0] == '2' {
            // A rename or copy spends a second NUL-terminated field on the
            // original path, so it must be consumed here or every later
            // record is misread.
            let original = if i + 1 < records.len() {
                assert(recs[i + 1] == records@[i + 1]@);
                Some(string_of_all(&records[i + 1]))
            } else {
                None
            };
            let a = marker_end(record, record.len());
            match change_record(record, a, record.len(), 7) {
                Some((x, y, p)) => {
                    let path = string_of(record, p, record.len());
                    push_change(&mut status, x, y, &path, original);
                },
                None => {},
            }
            if i + 1 < records.len() {
                i += 2;
            } else {
                i += 1;
            }
        } else {
            apply_record(&mut status, record, record.len());
            i += 1;
        }
    }
    status
}

} // verus!
