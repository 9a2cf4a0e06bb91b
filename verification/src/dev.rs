//! The decisions of the development host, which stands in for Warp so a
//! plugin can be exercised from a terminal: how its command line and the
//! lines typed into it are read, and how a typed answer becomes a dialog's
//! reply. Running the plugin and printing what it sends happen at the edge.
use vstd::prelude::*;

use crate::protocol::methods::{ExecutionTarget, PanelStatus};
use crate::text::{chars_of, owned, parse_u32, parse_u32_at, push_str, same, split_once, split_once_at, string_of, trim, trimmed, splitn_seq, splitn_on, views};

verus! {

/// What the command line asked for.
pub struct DevArgs {
    pub extension_path: String,
    pub repository: Option<String>,
    /// The working directory reported to the plugin: `--cwd`, else `--repo`;
    /// `None` leaves it to the process's own.
    pub cwd: Option<String>,
    pub target: ExecutionTarget,
    pub trace: bool,
}

/// A parsed command line: run with these arguments, or print the usage.
pub enum DevCommandLine {
    Help,
    Run(DevArgs),
}

pub fn usage() -> (s: String)
    ensures
        s@ == usage_text(),
{
    owned("Usage: warp-extension-dev --extension-dev-path <dir> [options]\n\n  --extension-dev-path <dir>  Extension directory holding extension.toml\n  --repo <dir>                Repository root reported to the plugin\n  --cwd <dir>                 Working directory reported (default: --repo, else $PWD)\n  --target local|ssh:<id>     Execution target reported (default: local)\n  --trace                     Print every protocol frame\n\nOnce running, type:\n  r                      refresh (sends repository.changed)\n  c <command-id>         invoke a declared command\n  a <section> <item> <action>   activate a panel row action\n  p                      reprint the last panel\n  q                      quit")
}

pub open spec fn usage_text() -> Seq<char> {
    "Usage: warp-extension-dev --extension-dev-path <dir> [options]\n\n  --extension-dev-path <dir>  Extension directory holding extension.toml\n  --repo <dir>                Repository root reported to the plugin\n  --cwd <dir>                 Working directory reported (default: --repo, else $PWD)\n  --target local|ssh:<id>     Execution target reported (default: local)\n  --trace                     Print every protocol frame\n\nOnce running, type:\n  r                      refresh (sends repository.changed)\n  c <command-id>         invoke a declared command\n  a <section> <item> <action>   activate a panel row action\n  p                      reprint the last panel\n  q                      quit"@
}

/// Reads a `--target` value.
pub fn parse_target(value: &str) -> (r: Result<ExecutionTarget, String>)
    ensures
        match split_once(value@, ':') {
            Some((kind, id)) if kind == "ssh"@ => r matches Ok(ExecutionTarget::Ssh { session_id }) && session_id@ == id,
            _ => if value@ == "local"@ {
                r == Ok::<ExecutionTarget, String>(ExecutionTarget::Local)
            } else {
                r matches Err(e) && e@ == "unrecognised target `"@ + value@ + "`"@
            },
        },
{
    let v = chars_of(value);
    assert(v@.subrange(0, v@.len() as int) =~= v@);
    if let Some((a, b)) = split_once_at(&v, 0, v.len(), ':') {
        let kind = string_of(&v, 0, a);
        if same(kind.as_str(), "ssh") {
            return Ok(ExecutionTarget::Ssh { session_id: string_of(&v, b, v.len()) });
        }
    }
    if same(value, "local") {
        return Ok(ExecutionTarget::Local);
    }
    let mut e = owned("unrecognised target `");
    push_str(&mut e, value);
    push_str(&mut e, "`");
    Err(e)
}

/// The number a typed answer names, counting from one, as an index into
/// `count` options: `None` for anything that is not one of them.
pub open spec fn chosen_index(answer: Seq<char>, count: nat) -> Option<nat> {
    match parse_u32(answer) {
        Some(n) => if 1 <= n && n <= count { Some((n - 1) as nat) } else { None },
        None => None,
    }
}

/// Which option a typed answer picks; blank or out of range picks none.
pub fn chosen_option(answer: &str, count: usize) -> (r: Option<usize>)
    ensures
        match r {
            Some(i) => chosen_index(answer@, count as nat) == Some(i as nat),
            None => chosen_index(answer@, count as nat) is None,
        },
{
    let v = chars_of(answer);
    assert(v@.subrange(0, v@.len() as int) =~= v@);
    match parse_u32_at(&v, 0, v.len()) {
        Some(n) => if 1 <= n && (n as usize) <= count && (n as u64) <= (count as u64) {
            Some((n - 1) as usize)
        } else {
            None
        },
        None => None,
    }
}

/// A confirmation is given by answering `y`, in either case.
pub fn confirmed(answer: &str) -> (b: bool)
    ensures
        b == (answer@ == "y"@ || answer@ == "Y"@),
{
    same(answer, "y") || same(answer, "Y")
}

/// A typed input: nothing typed is a dismissed dialog.
pub fn input_value(answer: &str) -> (r: Option<String>)
    ensures
        answer@.len() == 0 ==> r is None,
        answer@.len() > 0 ==> (r matches Some(s) && s@ == answer@),
{
    if answer.is_empty() { None } else { Some(owned(answer)) }
}

pub open spec fn status_text(s: PanelStatus) -> Seq<char> {
    match s {
        PanelStatus::Loading => "loading"@,
        PanelStatus::Ready => "ready"@,
        PanelStatus::Empty { message } => "empty: "@ + message@,
        PanelStatus::Error { message } => "error: "@ + message@,
    }
}

/// How a panel's status is printed.
pub fn describe_status(status: &PanelStatus) -> (s: String)
    ensures
        s@ == status_text(*status),
{
    match status {
        PanelStatus::Loading => owned("loading"),
        PanelStatus::Ready => owned("ready"),
        PanelStatus::Empty { message } => {
            let mut s = owned("empty: ");
            push_str(&mut s, message.as_str());
            s
        },
        PanelStatus::Error { message } => {
            let mut s = owned("error: ");
            push_str(&mut s, message.as_str());
            s
        },
    }
}

/// Whether a published panel is printed: loading frames are noise, since the
/// plugin publishes one before every refresh and replaces it within
/// milliseconds.
pub fn prints_panel(status: &PanelStatus) -> (b: bool)
    ensures
        b == !(*status is Loading),
{
    !matches!(status, PanelStatus::Loading)
}

/// What a line typed into the development host asks for.
pub enum DevInput {
    /// A blank line.
    Nothing,
    Quit,
    /// Reprint the last panel.
    Print,
    /// Send `repository.changed`.
    Refresh,
    /// Invoke a declared command.
    Invoke { command_id: String },
    /// Activate a row action.
    Activate { section: String, item: String, action: String },
    /// `a` without its three arguments.
    ActivateUsage,
    Unrecognised { verb: String },
}

/// A [`DevInput`] as plain values.
pub enum DevInputView {
    Nothing,
    Quit,
    Print,
    Refresh,
    Invoke { command_id: Seq<char> },
    Activate { section: Seq<char>, item: Seq<char>, action: Seq<char> },
    ActivateUsage,
    Unrecognised { verb: Seq<char> },
}

impl View for DevInput {
    type V = DevInputView;

    open spec fn view(&self) -> DevInputView {
        match self {
            DevInput::Nothing => DevInputView::Nothing,
            DevInput::Quit => DevInputView::Quit,
            DevInput::Print => DevInputView::Print,
            DevInput::Refresh => DevInputView::Refresh,
            DevInput::Invoke { command_id } => DevInputView::Invoke { command_id: command_id@ },
            DevInput::Activate { section, item, action } => DevInputView::Activate {
                section: section@,
                item: item@,
                action: action@,
            },
            DevInput::ActivateUsage => DevInputView::ActivateUsage,
            DevInput::Unrecognised { verb } => DevInputView::Unrecognised { verb: verb@ },
        }
    }
}

/// The verb of a trimmed line and the rest after its first space.
pub open spec fn verb_and_rest(line: Seq<char>) -> (Seq<char>, Seq<char>) {
    match split_once(line, ' ') {
        Some((verb, rest)) => (verb, rest),
        None => (line, Seq::empty()),
    }
}

/// How a typed line is read: trimmed, then a verb and its arguments.
pub open spec fn dev_input(raw: Seq<char>) -> DevInputView {
    let line = trim(raw);
    let (verb, rest) = verb_and_rest(line);
    if line.len() == 0 {
        DevInputView::Nothing
    } else if verb == "q"@ || verb == "quit"@ {
        DevInputView::Quit
    } else if verb == "p"@ {
        DevInputView::Print
    } else if verb == "r"@ {
        DevInputView::Refresh
    } else if verb == "c"@ {
        DevInputView::Invoke { command_id: rest }
    } else if verb == "a"@ {
        let parts = splitn_seq(rest, 3, ' ');
        if parts.len() == 3 {
            DevInputView::Activate { section: parts[0], item: parts[1], action: parts[2] }
        } else {
            DevInputView::ActivateUsage
        }
    } else {
        DevInputView::Unrecognised { verb }
    }
}

/// Reads one typed line; see [`dev_input`].
pub fn read_input(raw: &str) -> (r: DevInput)
    ensures
        r@ == dev_input(raw@),
{
    let line_string = trimmed(raw);
    let line = chars_of(line_string.as_str());
    assert(line@.subrange(0, line@.len() as int) =~= line@);
    if line.len() == 0 {
        return DevInput::Nothing;
    }
    let (verb, rest_start) = match split_once_at(&line, 0, line.len(), ' ') {
        Some((k, after)) => (string_of(&line, 0, k), after),
        None => (string_of(&line, 0, line.len()), line.len()),
    };
    let rest = string_of(&line, rest_start, line.len());
    proof {
        assert(line@.subrange(line@.len() as int, line@.len() as int) =~= Seq::<char>::empty());
    }
    if same(verb.as_str(), "q") || same(verb.as_str(), "quit") {
        DevInput::Quit
    } else if same(verb.as_str(), "p") {
        DevInput::Print
    } else if same(verb.as_str(), "r") {
        DevInput::Refresh
    } else if same(verb.as_str(), "c") {
        DevInput::Invoke { command_id: rest }
    } else if same(verb.as_str(), "a") {
        let rest_chars = chars_of(rest.as_str());
        assert(rest_chars@.subrange(0, rest_chars@.len() as int) =~= rest_chars@);
        let parts = splitn_on(&rest_chars, 0, rest_chars.len(), 3, ' ');
        if parts.len() == 3 {
            let section = string_of(&parts[0], 0, parts[0].len());
            let item = string_of(&parts[1], 0, parts[1].len());
            let action = string_of(&parts[2], 0, parts[2].len());
            assert(parts@[0]@.subrange(0, parts@[0]@.len() as int) =~= parts@[0]@);
            assert(parts@[1]@.subrange(0, parts@[1]@.len() as int) =~= parts@[1]@);
            assert(parts@[2]@.subrange(0, parts@[2]@.len() as int) =~= parts@[2]@);
            assert(views(parts@)[0] == parts@[0]@);
            assert(views(parts@)[1] == parts@[1]@);
            assert(views(parts@)[2] == parts@[2]@);
            DevInput::Activate { section, item, action }
        } else {
            DevInput::ActivateUsage
        }
    } else {
        DevInput::Unrecognised { verb }
    }
}

/// A target as plain values.
pub enum TargetView {
    Local,
    Ssh(Seq<char>),
}

pub open spec fn target_view(t: ExecutionTarget) -> TargetView {
    match t {
        ExecutionTarget::Local => TargetView::Local,
        ExecutionTarget::Ssh { session_id } => TargetView::Ssh(session_id@),
    }
}

/// The target a `--target` value names, if it names one.
pub open spec fn named_target(value: Seq<char>) -> Option<TargetView> {
    match split_once(value, ':') {
        Some((kind, id)) if kind == "ssh"@ => Some(TargetView::Ssh(id)),
        _ => if value == "local"@ { Some(TargetView::Local) } else { None },
    }
}

/// The options read so far.
pub struct ArgState {
    pub path: Option<Seq<char>>,
    pub repo: Option<Seq<char>>,
    pub cwd: Option<Seq<char>>,
    pub target: TargetView,
    pub trace: bool,
}

/// What a command line amounts to.
pub enum ArgsView {
    Help,
    Run(ArgState),
    Fail(Seq<char>),
}

/// Reads the arguments from `args[i]` on. A flag that takes a value takes
/// the next argument whatever it is; `--help` anywhere before an error wins.
pub open spec fn scan(args: Seq<Seq<char>>, i: nat, st: ArgState) -> ArgsView
    decreases args.len() - i,
{
    if i >= args.len() {
        ArgsView::Run(st)
    } else {
        let a = args[i as int];
        let has_value = i + 1 < args.len();
        if a == "--extension-dev-path"@ {
            if has_value { scan(args, i + 2, ArgState { path: Some(args[i + 1 as int]), ..st }) }
            else { ArgsView::Fail("--extension-dev-path needs a directory"@) }
        } else if a == "--repo"@ {
            if has_value { scan(args, i + 2, ArgState { repo: Some(args[i + 1 as int]), ..st }) }
            else { ArgsView::Fail("--repo needs a directory"@) }
        } else if a == "--cwd"@ {
            if has_value { scan(args, i + 2, ArgState { cwd: Some(args[i + 1 as int]), ..st }) }
            else { ArgsView::Fail("--cwd needs a directory"@) }
        } else if a == "--target"@ {
            if has_value {
                match named_target(args[i + 1 as int]) {
                    Some(t) => scan(args, i + 2, ArgState { target: t, ..st }),
                    None => ArgsView::Fail("unrecognised target `"@ + args[i + 1 as int] + "`"@),
                }
            } else {
                ArgsView::Fail("--target needs a value"@)
            }
        } else if a == "--trace"@ {
            scan(args, i + 1, ArgState { trace: true, ..st })
        } else if a == "--help"@ || a == "-h"@ {
            ArgsView::Help
        } else {
            ArgsView::Fail("unrecognised argument `"@ + a + "`"@)
        }
    }
}

/// The command line as a whole: the extension directory is required, and
/// the working directory defaults to the repository.
pub open spec fn command_line(args: Seq<Seq<char>>) -> ArgsView {
    match scan(args, 0, ArgState { path: None, repo: None, cwd: None, target: TargetView::Local, trace: false }) {
        ArgsView::Run(st) => match st.path {
            None => ArgsView::Fail("--extension-dev-path is required"@),
            Some(_) => ArgsView::Run(ArgState { cwd: if st.cwd is Some { st.cwd } else { st.repo }, ..st }),
        },
        other => other,
    }
}

pub open spec fn args_view(r: Result<DevCommandLine, String>) -> ArgsView {
    match r {
        Ok(DevCommandLine::Help) => ArgsView::Help,
        Ok(DevCommandLine::Run(a)) => ArgsView::Run(ArgState {
            path: Some(a.extension_path@),
            repo: a.repository.deep_view(),
            cwd: a.cwd.deep_view(),
            target: target_view(a.target),
            trace: a.trace,
        }),
        Err(e) => ArgsView::Fail(e@),
    }
}

fn needs(what: &str) -> (s: String)
    ensures
        s@ == what@,
{
    owned(what)
}

/// Reads the development host's command line (without the program name).
pub fn parse_args(args: &[String]) -> (r: Result<DevCommandLine, String>)
    ensures
        args_view(r) == command_line(strs_of(args@)),
{
    let ghost all = strs_of(args@);
    let mut path: Option<String> = None;
    let mut repo: Option<String> = None;
    let mut cwd: Option<String> = None;
    let mut target = ExecutionTarget::Local;
    let mut trace = false;
    let mut i: usize = 0;
    while i < args.len()
        invariant
            i <= args@.len(),
            all == strs_of(args@),
            scan(all, 0, ArgState { path: None, repo: None, cwd: None, target: TargetView::Local, trace: false })
                == scan(all, i as nat, ArgState {
                    path: path.deep_view(),
                    repo: repo.deep_view(),
                    cwd: cwd.deep_view(),
                    target: target_view(target),
                    trace,
                }),
        decreases args@.len() - i,
    {
        let a = args[i].as_str();
        let has_value = i + 1 < args.len();
        assert(all[i as int] == a@);
        if same(a, "--extension-dev-path") {
            if !has_value {
                return Err(needs("--extension-dev-path needs a directory"));
            }
            path = Some(args[i + 1].clone());
            assert(all[i + 1] == args@[i + 1]@);
            i += 2;
        } else if same(a, "--repo") {
            if !has_value {
                return Err(needs("--repo needs a directory"));
            }
            repo = Some(args[i + 1].clone());
            assert(all[i + 1] == args@[i + 1]@);
            i += 2;
        } else if same(a, "--cwd") {
            if !has_value {
                return Err(needs("--cwd needs a directory"));
            }
            cwd = Some(args[i + 1].clone());
            assert(all[i + 1] == args@[i + 1]@);
            i += 2;
        } else if same(a, "--target") {
            if !has_value {
                return Err(needs("--target needs a value"));
            }
            assert(all[i + 1] == args@[i + 1]@);
            match parse_target(args[i + 1].as_str()) {
                Ok(t) => {
                    target = t;
                },
                Err(e) => {
                    return Err(e);
                },
            }
            i += 2;
        } else if same(a, "--trace") {
            trace = true;
            i += 1;
        } else if same(a, "--help") || same(a, "-h") {
            return Ok(DevCommandLine::Help);
        } else {
            let mut e = owned("unrecognised argument `");
            push_str(&mut e, a);
            push_str(&mut e, "`");
            return Err(e);
        }
    }
    let Some(extension_path) = path else {
        return Err(needs("--extension-dev-path is required"));
    };
    let cwd = match cwd {
        Some(c) => Some(c),
        None => repo.clone(),
    };
    Ok(DevCommandLine::Run(DevArgs { extension_path, repository: repo, cwd, target, trace }))
}

pub open spec fn strs_of(v: Seq<String>) -> Seq<Seq<char>> {
    v.map_values(|s: String| s@)
}

} // verus!
