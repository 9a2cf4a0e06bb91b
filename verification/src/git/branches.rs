//! Parser for `git for-each-ref` over local and remote branches.
//!
//! `for-each-ref` with an explicit format is used rather than `git branch`
//! because the latter decorates its output for humans — a leading `*`, colour,
//! and truncation — none of which is stable to parse.
use vstd::prelude::*;

use crate::text::{
    chars_of, ends_with, equals, has_prefix, lines_of, lines_seq, owned, push_char,
    lemma_split_nonempty, seq_ends_with, seq_starts_with, split_on, split_seq, string_of, strs, trim, trim_bounds,
    views,
};

verus! {

/// Field separator. Ref names cannot contain an ASCII unit separator, so this
/// cannot collide with the data.
pub const FIELD: char = '\x1f';

#[derive(Debug, Clone, Copy, PartialEq, Eq, Structural)]
pub enum BranchScope {
    Local,
    Remote,
}

#[derive(Debug, Clone, PartialEq, Eq)]
pub struct Branch {
    /// Short name: `main`, or `origin/main` for a remote-tracking branch.
    pub name: String,
    pub scope: BranchScope,
    pub upstream: Option<String>,
    pub short_commit: String,
    pub subject: String,
    /// True for the branch `HEAD` currently points at.
    pub is_head: bool,
}

pub struct SpecBranch {
    pub name: Seq<char>,
    pub scope: BranchScope,
    pub upstream: Option<Seq<char>>,
    pub short_commit: Seq<char>,
    pub subject: Seq<char>,
    pub is_head: bool,
}

impl View for Branch {
    type V = SpecBranch;

    open spec fn view(&self) -> SpecBranch {
        SpecBranch {
            name: self.name@,
            scope: self.scope,
            upstream: self.upstream.deep_view(),
            short_commit: self.short_commit@,
            subject: self.subject@,
            is_head: self.is_head,
        }
    }
}

pub open spec fn branches_view(v: Seq<Branch>) -> Seq<SpecBranch> {
    v.map_values(|b: Branch| b@)
}

pub open spec fn format_arg() -> Seq<char> {
    "--format=%(refname:short)\u{1f}%(upstream:short)\u{1f}%(objectname:short)\u{1f}%(HEAD)\u{1f}%(contents:subject)"@
}

pub fn branch_args() -> (args: Vec<String>)
    ensures
        strs(args@) == seq!["for-each-ref"@, format_arg(), "refs/heads"@, "refs/remotes"@],
{
    let args = vec![
        owned("for-each-ref"),
        owned(
            "--format=%(refname:short)\u{1f}%(upstream:short)\u{1f}%(objectname:short)\u{1f}%(HEAD)\u{1f}%(contents:subject)",
        ),
        owned("refs/heads"),
        owned("refs/remotes"),
    ];
    assert(strs(args@) =~= seq!["for-each-ref"@, format_arg(), "refs/heads"@, "refs/remotes"@]);
    args
}

/// The `i`th field, trimmed, or nothing when the line has fewer fields.
pub open spec fn field(parts: Seq<Seq<char>>, i: int) -> Seq<char> {
    if 0 <= i < parts.len() {
        trim(parts[i])
    } else {
        Seq::empty()
    }
}

/// True when `name` is `<remote>/...` for one of `remotes`.
pub open spec fn is_remote_ref(name: Seq<char>, remotes: Seq<Seq<char>>) -> bool {
    exists|i: int| 0 <= i < remotes.len() && seq_starts_with(name, #[trigger] remotes[i] + "/"@)
}

/// One `for-each-ref` line.
pub open spec fn spec_parse_line(line: Seq<char>, remotes: Seq<Seq<char>>) -> Option<SpecBranch> {
    let parts = split_seq(line, FIELD);
    let name = field(parts, 0);
    if name.len() == 0 {
        None
    } else {
        let upstream = field(parts, 1);
        Some(
            SpecBranch {
                name,
                scope: if is_remote_ref(name, remotes) {
                    BranchScope::Remote
                } else {
                    BranchScope::Local
                },
                upstream: if upstream.len() != 0 { Some(upstream) } else { None },
                short_commit: field(parts, 2),
                subject: field(parts, 4),
                is_head: field(parts, 3) == "*"@,
            },
        )
    }
}

proof fn lemma_split_without_separator(x: Seq<char>)
    requires
        !x.contains(FIELD),
    ensures
        split_seq(x, FIELD) == seq![x],
    decreases x.len(),
{
    if x.len() == 0 {
        assert(x =~= Seq::<char>::empty());
    } else {
        assert(!x.drop_last().contains(FIELD)) by {
            if x.drop_last().contains(FIELD) {
                let i = choose|i: int| 0 <= i < x.drop_last().len() && x.drop_last()[i] == FIELD;
                assert(x[i] == FIELD);
            }
        }
        lemma_split_without_separator(x.drop_last());
        assert(x.last() != FIELD) by {
            assert(x[x.len() - 1] == x.last());
        }
        assert(x.drop_last().push(x.last()) =~= x);
        assert(seq![x.drop_last()].update(0, x.drop_last().push(x.last())) =~= seq![x]);
    }
}

proof fn lemma_split_after_separator(x: Seq<char>, y: Seq<char>)
    ensures
        split_seq(x.push(FIELD) + y, FIELD) == split_seq(x, FIELD) + split_seq(y, FIELD),
    decreases y.len(),
{
    let s = x.push(FIELD) + y;
    if y.len() == 0 {
        assert(s =~= x.push(FIELD));
        assert(s.drop_last() =~= x);
        assert(split_seq(x, FIELD).push(Seq::<char>::empty()) =~= split_seq(x, FIELD) + seq![Seq::<char>::empty()]);
    } else {
        assert(s.drop_last() =~= x.push(FIELD) + y.drop_last());
        assert(s.last() == y.last());
        lemma_split_after_separator(x, y.drop_last());
        lemma_split_nonempty(y.drop_last(), FIELD);
        let a = split_seq(x, FIELD);
        let b = split_seq(y.drop_last(), FIELD);
        if y.last() == FIELD {
            assert((a + b).push(Seq::<char>::empty()) =~= a + b.push(Seq::<char>::empty()));
        } else {
            assert((a + b).update((a + b).len() - 1, (a + b).last().push(y.last())) =~= a + b.update(
                b.len() - 1,
                b.last().push(y.last()),
            ));
        }
    }
}

/// A line written as `field`, the separator, then `rest`.
pub open spec fn then_field(field: Seq<char>, rest: Seq<char>) -> Seq<char> {
    field.push(FIELD) + rest
}

/// A `for-each-ref` line reads back field for field. For a line written as
/// ref name, upstream, abbreviated commit, HEAD marker and subject, separated
/// by [`FIELD`] and holding none themselves, with a ref name that is not
/// blank: the branch is named by the trimmed ref name, is remote exactly when
/// that name starts with a known remote and `/`, tracks the trimmed upstream
/// when there is one, and has the trimmed commit and subject; it is HEAD
/// exactly when the marker is `*`.
pub proof fn lemma_a_line_reads_back(
    name: Seq<char>,
    upstream: Seq<char>,
    commit: Seq<char>,
    head: Seq<char>,
    subject: Seq<char>,
    remotes: Seq<Seq<char>>,
)
    requires
        !name.contains(FIELD),
        !upstream.contains(FIELD),
        !commit.contains(FIELD),
        !head.contains(FIELD),
        !subject.contains(FIELD),
        trim(name).len() > 0,
    ensures
        spec_parse_line(then_field(name, then_field(upstream, then_field(commit, then_field(head, subject)))), remotes)
            == Some(SpecBranch {
            name: trim(name),
            scope: if exists|i: int| 0 <= i < remotes.len() && seq_starts_with(trim(name), #[trigger] remotes[i] + "/"@) {
                BranchScope::Remote
            } else {
                BranchScope::Local
            },
            upstream: if trim(upstream).len() != 0 { Some(trim(upstream)) } else { None },
            short_commit: trim(commit),
            subject: trim(subject),
            is_head: trim(head) == "*"@,
        }),
{
    let r4 = then_field(head, subject);
    let r3 = then_field(commit, r4);
    let r2 = then_field(upstream, r3);
    let r1 = then_field(name, r2);
    lemma_split_without_separator(name);
    lemma_split_without_separator(upstream);
    lemma_split_without_separator(commit);
    lemma_split_without_separator(head);
    lemma_split_without_separator(subject);
    lemma_split_after_separator(head, subject);
    lemma_split_after_separator(commit, r4);
    lemma_split_after_separator(upstream, r3);
    lemma_split_after_separator(name, r2);
    assert(split_seq(r1, FIELD) =~= seq![name, upstream, commit, head, subject]);
}

/// The branches of the given lines, `<remote>/HEAD` pointers dropped.
pub open spec fn spec_branches(lines: Seq<Seq<char>>, remotes: Seq<Seq<char>>) -> Seq<SpecBranch>
    decreases lines.len(),
{
    if lines.len() == 0 {
        Seq::empty()
    } else {
        let prev = spec_branches(lines.drop_last(), remotes);
        match spec_parse_line(lines.last(), remotes) {
            Some(b) => if !seq_ends_with(b.name, "/HEAD"@) {
                prev.push(b)
            } else {
                prev
            },
            None => prev,
        }
    }
}

/// The meaning of `for-each-ref` output produced by [`branch_args`].
pub open spec fn spec_parse(output: Seq<char>, remotes: Seq<Seq<char>>) -> Seq<SpecBranch> {
    spec_branches(lines_seq(output), remotes)
}

/// Trimmed field `i` of `parts` as a string.
fn field_string(parts: &Vec<Vec<char>>, i: usize) -> (s: String)
    ensures
        s@ == field(views(parts@), i as int),
{
    if i < parts.len() {
        let (a, b) = trim_bounds(&parts[i], 0, parts[i].len());
        assert(parts@[i as int]@.subrange(0, parts@[i as int]@.len() as int) =~= parts@[i as int]@);
        string_of(&parts[i], a, b)
    } else {
        String::new()
    }
}

fn remote_scope(name: &Vec<char>, remotes: &[String]) -> (scope: BranchScope)
    ensures
        scope == (if is_remote_ref(name@, strs(remotes@)) {
            BranchScope::Remote
        } else {
            BranchScope::Local
        }),
{
    let ghost rs = strs(remotes@);
    let mut i: usize = 0;
    while i < remotes.len()
        invariant
            0 <= i <= remotes@.len(),
            rs == strs(remotes@),
            forall|j: int| 0 <= j < i ==> !seq_starts_with(name@, #[trigger] rs[j] + "/"@),
        decreases remotes@.len() - i,
    {
        let mut prefix = chars_of(remotes[i].as_str());
        push_char_vec(&mut prefix, '/');
        assert(prefix@ == rs[i as int] + "/"@) by {
            reveal_strlit("/");
        }
        let hit = has_prefix(name, 0, name.len(), &prefix);
        assert(name@.subrange(0, name@.len() as int) =~= name@);
        if hit {
            return BranchScope::Remote;
        }
        i += 1;
    }
    BranchScope::Local
}

fn push_char_vec(v: &mut Vec<char>, c: char)
    ensures
        final(v)@ == old(v)@.push(c),
{
    v.push(c);
}

fn parse_line(line: &Vec<char>, remotes: &[String]) -> (b: Option<Branch>)
    ensures
        match b {
            Some(b) => spec_parse_line(line@, strs(remotes@)) == Some(b@),
            None => spec_parse_line(line@, strs(remotes@)) is None,
        },
{
    let parts = split_on(line, 0, line.len(), FIELD);
    assert(line@.subrange(0, line@.len() as int) =~= line@);
    proof {
        crate::text::lemma_split_nonempty(line@, FIELD);
    }
    let (a, z) = trim_bounds(&parts[0], 0, parts[0].len());
    assert(parts@[0]@.subrange(0, parts@[0]@.len() as int) =~= parts@[0]@);
    if a == z {
        return None;
    }
    let name_chars = crate::text::slice_chars(&parts[0], a, z);
    let name = string_of(&parts[0], a, z);
    let upstream = field_string(&parts, 1);
    let short_commit = field_string(&parts, 2);
    let head_marker = field_string(&parts, 3);
    let subject = field_string(&parts, 4);
    let scope = remote_scope(&name_chars, remotes);
    let star = chars_of("*");
    let head_chars = chars_of(head_marker.as_str());
    let is_head = equals(&head_chars, 0, head_chars.len(), &star);
    assert(head_chars@.subrange(0, head_chars@.len() as int) =~= head_chars@);
    let upstream = if !upstream.as_str().is_empty() {
        Some(upstream)
    } else {
        None
    };
    Some(Branch { name, scope, upstream, short_commit, subject, is_head })
}

/// Parses `for-each-ref` output produced by [`branch_args`].
///
/// `refs/remotes/<remote>/HEAD` is dropped: it is a symbolic pointer at another
/// branch, not a branch a user can switch to.
pub fn parse(output: &str, remotes: &[String]) -> (branches: Vec<Branch>)
    ensures
        branches_view(branches@) == spec_parse(output@, strs(remotes@)),
{
    let chars = chars_of(output);
    let lines = lines_of(&chars);
    let ghost ls = views(lines@);
    let head_suffix = chars_of("/HEAD");
    let mut out: Vec<Branch> = Vec::new();
    let mut i: usize = 0;
    while i < lines.len()
        invariant
            0 <= i <= lines.len(),
            ls == views(lines@),
            ls == lines_seq(output@),
            head_suffix@ == "/HEAD"@,
            branches_view(out@) == spec_branches(ls.take(i as int), strs(remotes@)),
        decreases lines.len() - i,
    {
        assert(ls.take(i + 1).drop_last() =~= ls.take(i as int));
        assert(ls.take(i + 1).last() == lines@[i as int]@);
        match parse_line(&lines[i], remotes) {
            Some(b) => {
                let name_chars = chars_of(b.name.as_str());
                let is_pointer = ends_with(&name_chars, 0, name_chars.len(), &head_suffix);
                assert(name_chars@.subrange(0, name_chars@.len() as int) =~= name_chars@);
                if !is_pointer {
                    let ghost before = branches_view(out@);
                    out.push(b);
                    assert(branches_view(out@) =~= before.push(b@));
                }
            },
            None => {},
        }
        i += 1;
    }
    assert(ls.take(lines.len() as int) =~= ls);
    out
}

/// The meaning of `git remote` output: its lines, trimmed, blank ones dropped.
pub open spec fn spec_remotes(lines: Seq<Seq<char>>) -> Seq<Seq<char>>
    decreases lines.len(),
{
    if lines.len() == 0 {
        Seq::empty()
    } else {
        let prev = spec_remotes(lines.drop_last());
        if trim(lines.last()).len() != 0 {
            prev.push(trim(lines.last()))
        } else {
            prev
        }
    }
}

/// Parses `git remote` output — one remote name per line.
pub fn parse_remotes(output: &str) -> (remotes: Vec<String>)
    ensures
        strs(remotes@) == spec_remotes(lines_seq(output@)),
{
    let chars = chars_of(output);
    let lines = lines_of(&chars);
    let ghost ls = views(lines@);
    let mut out: Vec<String> = Vec::new();
    let mut i: usize = 0;
    while i < lines.len()
        invariant
            0 <= i <= lines.len(),
            ls == views(lines@),
            strs(out@) == spec_remotes(ls.take(i as int)),
        decreases lines.len() - i,
    {
        assert(ls.take(i + 1).drop_last() =~= ls.take(i as int));
        assert(ls.take(i + 1).last() == lines@[i as int]@);
        let (a, b) = trim_bounds(&lines[i], 0, lines[i].len());
        assert(lines@[i as int]@.subrange(0, lines@[i as int]@.len() as int) =~= lines@[i as int]@);
        if a < b {
            let ghost before = strs(out@);
            out.push(string_of(&lines[i], a, b));
            assert(strs(out@) =~= before.push(trim(lines@[i as int]@)));
        }
        i += 1;
    }
    assert(ls.take(lines.len() as int) =~= ls);
    out
}

} // verus!
