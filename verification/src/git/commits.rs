//! Parser for `git log` with explicit record and field separators.
use vstd::prelude::*;

use crate::text::{
    chars_of, decimal, first_at, keep_non_empty, lemma_first_unique, split_once, non_empty, owned, push_decimal, push_str, split_on,
    split_seq, splitn_on, splitn_seq, string_of, string_of_all, strs, trim, trim_bounds, views,
};

verus! {

/// Field and record separators. Commit metadata is free text — a subject can
/// contain anything a user typed — so the separators are ASCII control
/// characters Git will not emit from `%s`, `%an` or `%ar`.
pub const FIELD: char = '\x1f';

pub const RECORD: char = '\x1e';

#[derive(Debug, Clone, PartialEq, Eq)]
pub struct Commit {
    pub hash: String,
    pub short_hash: String,
    pub author: String,
    /// Relative age as Git formats it, e.g. "2 hours ago".
    pub age: String,
    pub subject: String,
}

pub struct SpecCommit {
    pub hash: Seq<char>,
    pub short_hash: Seq<char>,
    pub author: Seq<char>,
    pub age: Seq<char>,
    pub subject: Seq<char>,
}

impl View for Commit {
    type V = SpecCommit;

    open spec fn view(&self) -> SpecCommit {
        SpecCommit {
            hash: self.hash@,
            short_hash: self.short_hash@,
            author: self.author@,
            age: self.age@,
            subject: self.subject@,
        }
    }
}

pub open spec fn commits_view(v: Seq<Commit>) -> Seq<SpecCommit> {
    v.map_values(|c: Commit| c@)
}

pub open spec fn log_format() -> Seq<char> {
    "--format=%H\u{1f}%h\u{1f}%an\u{1f}%ar\u{1f}%s\u{1e}"@
}

pub fn log_args(limit: u32) -> (args: Vec<String>)
    ensures
        strs(args@) == seq!["log"@, "--max-count="@ + decimal(limit as nat), log_format()],
{
    let mut count = owned("--max-count=");
    push_decimal(&mut count, limit as u64);
    let args = vec![owned("log"), count, owned("--format=%H\u{1f}%h\u{1f}%an\u{1f}%ar\u{1f}%s\u{1e}")];
    assert(strs(args@) =~= seq!["log"@, "--max-count="@ + decimal(limit as nat), log_format()]);
    args
}

/// Field `i`, or nothing when the record has fewer fields.
pub open spec fn nth_or_empty(parts: Seq<Seq<char>>, i: int) -> Seq<char> {
    if 0 <= i < parts.len() {
        parts[i]
    } else {
        Seq::empty()
    }
}

/// One record. The subject is the whole remainder after the fourth field,
/// because a commit subject is free text the user typed.
pub open spec fn spec_parse_record(record: Seq<char>) -> Option<SpecCommit> {
    let fields = splitn_seq(record, 5, FIELD);
    let hash = trim(fields[0]);
    if hash.len() == 0 {
        None
    } else {
        Some(
            SpecCommit {
                hash,
                short_hash: nth_or_empty(fields, 1),
                author: nth_or_empty(fields, 2),
                age: nth_or_empty(fields, 3),
                subject: trim(nth_or_empty(fields, 4)),
            },
        )
    }
}

/// `field`, the field separator, then `rest`: how `git log` writes one field
/// of a record before the next.
pub open spec fn then_field(field: Seq<char>, rest: Seq<char>) -> Seq<char> {
    field.push(FIELD) + rest
}

proof fn lemma_split_after_field(field: Seq<char>, rest: Seq<char>)
    requires
        !field.contains(FIELD),
    ensures
        split_once(then_field(field, rest), FIELD) == Some((field, rest)),
{
    let s = then_field(field, rest);
    let k = field.len() as int;
    assert(s[k] == FIELD);
    assert forall|j: int| 0 <= j < k implies s[j] != FIELD by {
        assert(s[j] == field[j]);
    }
    assert(first_at(s, FIELD, k));
    let c = choose|c: int| first_at(s, FIELD, c);
    lemma_first_unique(s, FIELD, c, k);
    assert(s.take(k) =~= field);
    assert(s.skip(k + 1) =~= rest);
}

/// A record reads back field for field. For a record written as hash,
/// abbreviated hash, author, age and subject, separated by [`FIELD`], where
/// none of the first four holds a separator: the commit has the hash
/// trimmed, the abbreviated hash, author and age exactly as written (an
/// author's name is kept whole, spaces and all), and the subject trimmed;
/// a record whose hash is blank is no commit.
pub proof fn lemma_a_record_reads_back(
    hash: Seq<char>,
    short_hash: Seq<char>,
    author: Seq<char>,
    age: Seq<char>,
    subject: Seq<char>,
)
    requires
        !hash.contains(FIELD),
        !short_hash.contains(FIELD),
        !author.contains(FIELD),
        !age.contains(FIELD),
    ensures
        spec_parse_record(then_field(hash, then_field(short_hash, then_field(author, then_field(age, subject)))))
            == if trim(hash).len() == 0 {
            None
        } else {
            Some(SpecCommit { hash: trim(hash), short_hash, author, age, subject: trim(subject) })
        },
{
    let r4 = then_field(age, subject);
    let r3 = then_field(author, r4);
    let r2 = then_field(short_hash, r3);
    let r1 = then_field(hash, r2);
    lemma_split_after_field(hash, r2);
    lemma_split_after_field(short_hash, r3);
    lemma_split_after_field(author, r4);
    lemma_split_after_field(age, subject);
    assert(splitn_seq(subject, 1, FIELD) == seq![subject]);
    assert(splitn_seq(r4, 2, FIELD) =~= seq![age, subject]);
    assert(splitn_seq(r3, 3, FIELD) =~= seq![author, age, subject]);
    assert(splitn_seq(r2, 4, FIELD) =~= seq![short_hash, author, age, subject]);
    assert(splitn_seq(r1, 5, FIELD) =~= seq![hash, short_hash, author, age, subject]);
}

/// The trimmed, non-empty records, in order.
pub open spec fn trimmed_records(parts: Seq<Seq<char>>) -> Seq<Seq<char>>
    decreases parts.len(),
{
    if parts.len() == 0 {
        Seq::empty()
    } else {
        let prev = trimmed_records(parts.drop_last());
        if trim(parts.last()).len() != 0 {
            prev.push(trim(parts.last()))
        } else {
            prev
        }
    }
}

pub open spec fn spec_commits(records: Seq<Seq<char>>) -> Seq<SpecCommit>
    decreases records.len(),
{
    if records.len() == 0 {
        Seq::empty()
    } else {
        let prev = spec_commits(records.drop_last());
        match spec_parse_record(records.last()) {
            Some(c) => prev.push(c),
            None => prev,
        }
    }
}

/// The meaning of `git log` output produced by [`log_args`].
pub open spec fn spec_parse(output: Seq<char>) -> Seq<SpecCommit> {
    spec_commits(trimmed_records(split_seq(output, RECORD)))
}

proof fn lemma_splitn_nonempty(s: Seq<char>, n: nat, c: char)
    ensures
        splitn_seq(s, n, c).len() >= 1,
    decreases n,
{
    if n > 1 {
        match crate::text::split_once(s, c) {
            Some((a, rest)) => {
                lemma_splitn_nonempty(rest, (n - 1) as nat, c);
            },
            None => {},
        }
    }
}

fn field_or_empty(parts: &Vec<Vec<char>>, i: usize) -> (s: String)
    ensures
        s@ == nth_or_empty(views(parts@), i as int),
{
    if i < parts.len() {
        string_of_all(&parts[i])
    } else {
        String::new()
    }
}

fn parse_record(record: &Vec<char>) -> (c: Option<Commit>)
    ensures
        match c {
            Some(c) => spec_parse_record(record@) == Some(c@),
            None => spec_parse_record(record@) is None,
        },
{
    let fields = splitn_on(record, 0, record.len(), 5, FIELD);
    assert(record@.subrange(0, record@.len() as int) =~= record@);
    proof {
        lemma_splitn_nonempty(record@, 5, FIELD);
    }
    let (a, b) = trim_bounds(&fields[0], 0, fields[0].len());
    assert(fields@[0]@.subrange(0, fields@[0]@.len() as int) =~= fields@[0]@);
    if a == b {
        return None;
    }
    let hash = string_of(&fields[0], a, b);
    let short_hash = field_or_empty(&fields, 1);
    let author = field_or_empty(&fields, 2);
    let age = field_or_empty(&fields, 3);
    let subject = if 4 < fields.len() {
        let (s0, s1) = trim_bounds(&fields[4], 0, fields[4].len());
        assert(fields@[4]@.subrange(0, fields@[4]@.len() as int) =~= fields@[4]@);
        string_of(&fields[4], s0, s1)
    } else {
        proof {
            assert(trim(Seq::<char>::empty()) =~= Seq::<char>::empty());
        }
        String::new()
    };
    Some(Commit { hash, short_hash, author, age, subject })
}

/// Parses `git log` output produced by [`log_args`].
pub fn parse(output: &str) -> (commits: Vec<Commit>)
    ensures
        commits_view(commits@) == spec_parse(output@),
{
    let chars = chars_of(output);
    let parts = split_on(&chars, 0, chars.len(), RECORD);
    assert(chars@.subrange(0, chars@.len() as int) =~= output@);
    let ghost ps = views(parts@);
    let mut out: Vec<Commit> = Vec::new();
    let ghost recs: Seq<Seq<char>> = Seq::empty();
    let mut i: usize = 0;
    while i < parts.len()
        invariant
            0 <= i <= parts.len(),
            ps == views(parts@),
            recs == trimmed_records(ps.take(i as int)),
            commits_view(out@) == spec_commits(recs),
        decreases parts.len() - i,
    {
        assert(ps.take(i + 1).drop_last() =~= ps.take(i as int));
        assert(ps.take(i + 1).last() == parts@[i as int]@);
        let (a, b) = trim_bounds(&parts[i], 0, parts[i].len());
        assert(parts@[i as int]@.subrange(0, parts@[i as int]@.len() as int) =~= parts@[i as int]@);
        if a < b {
            let record = crate::text::slice_chars(&parts[i], a, b);
            proof {
                recs = recs.push(record@);
            }
            assert(recs.drop_last() =~= trimmed_records(ps.take(i as int)));
            match parse_record(&record) {
                Some(c) => {
                    let ghost before = commits_view(out@);
                    out.push(c);
                    assert(commits_view(out@) =~= before.push(c@));
                },
                None => {},
            }
        }
        i += 1;
    }
    assert(ps.take(parts.len() as int) =~= ps);
    out
}


/// No commit is lost or invented: when every record reads as a commit, the
/// history has exactly one commit per record, in the records' order.
pub proof fn lemma_one_commit_per_record(records: Seq<Seq<char>>)
    requires
        forall|i: int| 0 <= i < records.len() ==> #[trigger] spec_parse_record(records[i]) is Some,
    ensures
        spec_commits(records).len() == records.len(),
        forall|i: int| 0 <= i < records.len() ==> Some(#[trigger] spec_commits(records)[i]) == spec_parse_record(records[i]),
    decreases records.len(),
{
    if records.len() > 0 {
        let init = records.drop_last();
        assert forall|i: int| 0 <= i < init.len() implies #[trigger] spec_parse_record(init[i]) is Some by {
            assert(init[i] == records[i]);
        }
        lemma_one_commit_per_record(init);
        assert(spec_parse_record(records[records.len() - 1]) is Some);
        assert forall|i: int| 0 <= i < records.len() implies Some(#[trigger] spec_commits(records)[i])
            == spec_parse_record(records[i]) by {
            if i < init.len() {
                assert(init[i] == records[i]);
                assert(spec_commits(records)[i] == spec_commits(init)[i]);
            }
        }
    }
}

} // verus!
