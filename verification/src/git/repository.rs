//! What the plugin makes of the Git commands it runs through Warp.
//!
//! Running a command is a round trip over the protocol and happens at the
//! edge; turning its outcome into repository state or an error is here.
use vstd::prelude::*;

use crate::git::branches::{self, Branch, branches_view};
use crate::git::commits::{self, Commit, commits_view};
use crate::git::state::{Operation, RepositoryState};
use crate::git::status::{self, Status};
use crate::protocol::methods::ExecutionRunResult;
use crate::sdk::{ClientError, ClientFault, client_fault_text};
use crate::text::{all_ws, chars_of, decimal, join, joined, lines_of, lines_seq, push_decimal, push_str, strs, string_of_all, trim, trimmed, parse_u32, trim_bounds, parse_u32_at, is_blank, views};

verus! {

/// How many commits the history section shows.
///
/// History is paginated rather than loaded whole: a large repository would
/// otherwise spend seconds building a list nobody scrolls to the end of.
pub const HISTORY_LIMIT: u32 = 25;

pub enum GitError {
    /// Git ran and refused. `stderr` is preserved verbatim for the log while
    /// callers show a shorter summary.
    Command { command: String, exit_code: Option<i32>, stderr: String },
    Client(ClientError),
}

/// A [`GitError`] as plain values.
pub enum GitFault {
    Command { command: Seq<char>, exit_code: Option<i32>, stderr: Seq<char> },
    Client(ClientFault),
}

impl View for GitError {
    type V = GitFault;

    open spec fn view(&self) -> GitFault {
        match self {
            GitError::Command { command, exit_code, stderr } => GitFault::Command {
                command: command@,
                exit_code: *exit_code,
                stderr: stderr@,
            },
            GitError::Client(e) => GitFault::Client(e@),
        }
    }
}

/// The first line of `lines` that is not blank.
pub open spec fn first_non_blank(lines: Seq<Seq<char>>) -> Option<Seq<char>>
    decreases lines.len(),
{
    if lines.len() == 0 {
        None
    } else if !all_ws(lines[0]) {
        Some(lines[0])
    } else {
        first_non_blank(lines.drop_first())
    }
}

/// The short summary of a failure: Git's own first non-blank line of stderr,
/// or what the client reported.
pub open spec fn fault_summary(f: GitFault) -> Seq<char> {
    match f {
        GitFault::Command { stderr, .. } => match first_non_blank(lines_seq(stderr)) {
            Some(line) => line,
            None => "Git command failed"@,
        },
        GitFault::Client(e) => client_fault_text(e),
    }
}

/// An exit code as `i32::to_string` prints it.
pub open spec fn signed_decimal(n: i32) -> Seq<char> {
    if n < 0 { "-"@ + decimal((-n) as nat) } else { decimal(n as nat) }
}

/// The full sentence, as logged.
pub open spec fn fault_text(f: GitFault) -> Seq<char> {
    match f {
        GitFault::Command { command, exit_code, stderr } => command + " failed ("@ + match exit_code {
            Some(code) => signed_decimal(code),
            None => "signal"@,
        } + "): "@ + stderr,
        GitFault::Client(e) => client_fault_text(e),
    }
}

/// The command line a failure names: `git` and its arguments, space-separated.
pub open spec fn command_line(args: Seq<Seq<char>>) -> Seq<char> {
    "git "@ + joined(args, " "@)
}

fn push_signed(s: &mut String, n: i32)
    ensures
        final(s)@ == old(s)@ + signed_decimal(n),
{
    if n < 0 {
        push_str(s, "-");
        let magnitude: u64 = if n == i32::MIN { 2147483648u64 } else { (-n) as u64 };
        push_decimal(s, magnitude);
    } else {
        push_decimal(s, n as u64);
    }
}

impl GitError {
    /// A short, user-facing summary. The full command and stderr stay in the
    /// extension log rather than in a dialog.
    pub fn summary(&self) -> (s: String)
        ensures
            s@ == fault_summary(self@),
    {
        match self {
            GitError::Command { stderr, .. } => {
                let v = chars_of(stderr.as_str());
                let lines = lines_of(&v);
                let ghost ls = views(lines@);
                let mut i: usize = 0;
                assert(ls.skip(0) =~= ls);
                while i < lines.len()
                    invariant
                        0 <= i <= lines@.len(),
                        ls == views(lines@),
                        ls == lines_seq(stderr@),
                        self@ is Command && self@->Command_stderr == stderr@,
                        first_non_blank(ls) == first_non_blank(ls.skip(i as int)),
                    decreases lines@.len() - i,
                {
                    proof { crate::text::lemma_trim_empty(lines@[i as int]@); }
                    assert(ls.skip(i as int)[0] == lines@[i as int]@);
                    assert(lines@[i as int]@.subrange(0, lines@[i as int]@.len() as int) =~= lines@[i as int]@);
                    if !is_blank(&lines[i], 0, lines[i].len()) {
                        assert(!all_ws(ls.skip(i as int)[0]));
                        assert(first_non_blank(ls.skip(i as int)) == Some(lines@[i as int]@));
                        return string_of_all(&lines[i]);
                    }
                    assert(lines@[i as int]@.subrange(0, lines@[i as int]@.len() as int) =~= lines@[i as int]@);
                    assert(ls.skip(i as int).drop_first() =~= ls.skip(i + 1));
                    i += 1;
                }
                String::from_str("Git command failed")
            },
            GitError::Client(error) => error.message(),
        }
    }

    /// The full sentence, as logged: the command, how it ended, and stderr.
    pub fn message(&self) -> (s: String)
        ensures
            s@ == fault_text(self@),
    {
        match self {
            GitError::Command { command, exit_code, stderr } => {
                let mut s = command.clone();
                push_str(&mut s, " failed (");
                match exit_code {
                    Some(code) => push_signed(&mut s, *code),
                    None => push_str(&mut s, "signal"),
                }
                push_str(&mut s, "): ");
                push_str(&mut s, stderr.as_str());
                s
            },
            GitError::Client(error) => error.message(),
        }
    }
}

/// Git's stdout when it exited with status 0; otherwise a failure naming the
/// command, carrying its exit code and its stderr trimmed.
pub fn require_success(args: &[String], result: ExecutionRunResult) -> (r: Result<String, GitError>)
    ensures
        match r {
            Ok(out) => result.exit_code == Some(0i32) && out@ == result.stdout@,
            Err(e) => result.exit_code != Some(0i32) && e@ == (GitFault::Command {
                command: command_line(strs(args@)),
                exit_code: result.exit_code,
                stderr: trim(result.stderr@),
            }),
        },
{
    if result.exit_code == Some(0i32) {
        return Ok(result.stdout);
    }
    let mut command = String::from_str("git ");
    let rest = join(args, " ");
    push_str(&mut command, rest.as_str());
    Err(GitError::Command { command, exit_code: result.exit_code, stderr: trimmed(result.stderr.as_str()) })
}

/// The number a command printed on its own, surrounding whitespace ignored,
/// as `rev-list --count` does.
pub fn parse_count(output: &str) -> (r: Option<u32>)
    ensures
        r == parse_u32(trim(output@)),
{
    let v = chars_of(output);
    let (a, b) = trim_bounds(&v, 0, v.len());
    assert(v@.subrange(0, v@.len() as int) =~= v@);
    parse_u32_at(&v, a, b)
}

/// The pseudo-refs Git sets while an operation is paused; each is probed with
/// `rev-parse --verify` so the check works unchanged over SSH.
pub fn operation_markers() -> (r: Vec<String>)
    ensures
        strs(r@) == seq!["REBASE_HEAD"@, "CHERRY_PICK_HEAD"@, "MERGE_HEAD"@],
{
    let r = vec![
        String::from_str("REBASE_HEAD"),
        String::from_str("CHERRY_PICK_HEAD"),
        String::from_str("MERGE_HEAD"),
    ];
    assert(strs(r@) =~= seq!["REBASE_HEAD"@, "CHERRY_PICK_HEAD"@, "MERGE_HEAD"@]);
    r
}

/// The arguments that probe whether one pseudo-ref exists.
pub fn ref_exists_args(name: &str) -> (r: Vec<String>)
    ensures
        strs(r@) == seq!["rev-parse"@, "--verify"@, "--quiet"@, name@],
{
    let r = vec![
        String::from_str("rev-parse"),
        String::from_str("--verify"),
        String::from_str("--quiet"),
        String::from_str(name),
    ];
    assert(strs(r@) =~= seq!["rev-parse"@, "--verify"@, "--quiet"@, name@]);
    r
}

/// Assembles what the panel needs from the outputs of the reads.
///
/// Status is required: without it there is nothing meaningful to show.
/// Remotes, branches and history are independent, and a read that failed
/// (`None`) leaves its part empty while the rest stays usable. A repository
/// with no commits yet has no history to read.
pub fn state_from_outputs(
    root: String,
    status_output: &str,
    remotes_output: Option<&str>,
    branches_output: Option<&str>,
    history_output: Option<&str>,
    operation: Operation,
) -> (s: RepositoryState)
    ensures
        s.root@ == root@,
        s.status@ == status::spec_parse(status_output@),
        strs(s.remotes@) == match remotes_output {
            Some(out) => branches::spec_remotes(lines_seq(out@)),
            None => Seq::empty(),
        },
        branches_view(s.branches@) == match branches_output {
            Some(out) => branches::spec_parse(out@, strs(s.remotes@)),
            None => Seq::empty(),
        },
        commits_view(s.history@) == match history_output {
            Some(out) => if status::spec_parse(status_output@).branch.is_initial {
                Seq::empty()
            } else {
                commits::spec_parse(out@)
            },
            None => Seq::empty(),
        },
        s.operation == operation,
        s.error is None,
{
    let status = status::parse(status_output);
    let remotes: Vec<String> = match remotes_output {
        Some(out) => branches::parse_remotes(out),
        None => Vec::new(),
    };
    let branches: Vec<Branch> = match branches_output {
        Some(out) => branches::parse(out, &remotes),
        None => Vec::new(),
    };
    let history: Vec<Commit> = if status.branch.is_initial {
        Vec::new()
    } else {
        match history_output {
            Some(out) => commits::parse(out),
            None => Vec::new(),
        }
    };
    proof {
        assert(strs(Seq::<String>::empty()) =~= Seq::<Seq<char>>::empty());
        assert(branches_view(Seq::<Branch>::empty()) =~= Seq::empty());
        assert(commits_view(Seq::<Commit>::empty()) =~= Seq::empty());
    }
    RepositoryState { root, operation, status, branches, remotes, history, error: None }
}

} // verus!
