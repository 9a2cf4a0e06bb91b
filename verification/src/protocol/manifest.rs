//! The declarative `extension.toml` Warp reads before starting a plugin.
//!
//! Reading the TOML text into an [`ExtensionManifest`] is a serde parse and
//! happens at the edge; everything decided about a parsed manifest is here.
use vstd::prelude::*;

use crate::protocol::permissions::{Permission, PermissionSet};
use crate::protocol::wire::API_VERSION;
use crate::text::{all_ws, blank, chars_of, decimal, has_char, parse_u32, parse_u32_at, push_decimal, push_str, same, strs, trim, trim_bounds};

verus! {

/// Manifest file name expected inside every extension directory.
pub const MANIFEST_FILE_NAME: &'static str = "extension.toml";

/// A parsed, not-yet-validated `extension.toml`.
///
/// Parsing and validation are separate so a malformed manifest can still be
/// listed in the UI with a reason instead of vanishing from discovery.
#[derive(Debug, Clone, PartialEq, Eq)]
pub struct ExtensionManifest {
    pub id: String,
    pub name: String,
    pub version: String,
    pub api_version: u32,
    /// Path to the executable, relative to the extension directory.
    pub command: String,
    pub activation: Option<Activation>,
    pub permissions: ManifestPermissions,
    pub execution: ExecutionPolicy,
    pub commands: Vec<CommandContribution>,
    pub panels: Vec<PanelContribution>,
}

/// When an extension becomes eligible to run.
#[derive(Debug, Clone, PartialEq, Eq)]
pub struct Activation {
    /// Entry names looked for in the working directory and its ancestors.
    pub workspace_contains: Vec<String>,
}

impl Default for Activation {
    fn default() -> (a: Activation)
        ensures
            a.workspace_contains@.len() == 0,
    {
        Activation { workspace_contains: Vec::new() }
    }
}

/// The `[permissions]` table, written as flags so the file reads as prose.
#[derive(Debug, Clone, Copy, PartialEq, Eq, Structural)]
pub struct ManifestPermissions {
    pub workspace_read: bool,
    pub workspace_write: bool,
    pub process_execute: bool,
    pub network_access: bool,
    pub ui_panel: bool,
    pub ui_commands: bool,
    pub ui_notifications: bool,
    pub ui_dialogs: bool,
    pub git_read: bool,
    pub git_mutate: bool,
    pub session_read: bool,
    pub session_execute: bool,
}

impl Default for ManifestPermissions {
    fn default() -> (p: ManifestPermissions)
        ensures
            requested(p) == Set::<Permission>::empty(),
    {
        let p = ManifestPermissions {
            workspace_read: false,
            workspace_write: false,
            process_execute: false,
            network_access: false,
            ui_panel: false,
            ui_commands: false,
            ui_notifications: false,
            ui_dialogs: false,
            git_read: false,
            git_mutate: false,
            session_read: false,
            session_execute: false,
        };
        assert(requested(p) =~= Set::<Permission>::empty());
        p
    }
}

/// Whether the table's flag for `permission` is set.
pub open spec fn flag(p: ManifestPermissions, permission: Permission) -> bool {
    match permission {
        Permission::WorkspaceRead => p.workspace_read,
        Permission::WorkspaceWrite => p.workspace_write,
        Permission::ProcessExecute => p.process_execute,
        Permission::NetworkAccess => p.network_access,
        Permission::UiPanel => p.ui_panel,
        Permission::UiCommands => p.ui_commands,
        Permission::UiNotifications => p.ui_notifications,
        Permission::UiDialogs => p.ui_dialogs,
        Permission::GitRead => p.git_read,
        Permission::GitMutate => p.git_mutate,
        Permission::SessionRead => p.session_read,
        Permission::SessionExecute => p.session_execute,
    }
}

/// The permissions whose flags are set.
pub open spec fn requested(p: ManifestPermissions) -> Set<Permission> {
    Set::new(|permission: Permission| flag(p, permission))
}

impl ManifestPermissions {
    /// The permissions the table asks for, as a set.
    pub fn to_set(self) -> (s: PermissionSet)
        ensures
            s@ == requested(self),
    {
        let mut s = PermissionSet::new();
        if self.workspace_read { s.insert(Permission::WorkspaceRead); }
        if self.workspace_write { s.insert(Permission::WorkspaceWrite); }
        if self.process_execute { s.insert(Permission::ProcessExecute); }
        if self.network_access { s.insert(Permission::NetworkAccess); }
        if self.ui_panel { s.insert(Permission::UiPanel); }
        if self.ui_commands { s.insert(Permission::UiCommands); }
        if self.ui_notifications { s.insert(Permission::UiNotifications); }
        if self.ui_dialogs { s.insert(Permission::UiDialogs); }
        if self.git_read { s.insert(Permission::GitRead); }
        if self.git_mutate { s.insert(Permission::GitMutate); }
        if self.session_read { s.insert(Permission::SessionRead); }
        if self.session_execute { s.insert(Permission::SessionExecute); }
        assert(s@ =~= requested(self));
        s
    }
}

/// The `[execution]` table narrowing what `process.execute` actually permits.
#[derive(Debug, Clone, PartialEq, Eq)]
pub struct ExecutionPolicy {
    /// Bare executable names, never paths, so an allowlist cannot be bypassed
    /// by spelling the same program a different way.
    pub allowed_executables: Vec<String>,
}

impl Default for ExecutionPolicy {
    fn default() -> (e: ExecutionPolicy)
        ensures
            e.allowed_executables@.len() == 0,
    {
        ExecutionPolicy { allowed_executables: Vec::new() }
    }
}

#[derive(Debug, Clone, PartialEq, Eq)]
pub struct CommandContribution {
    pub id: String,
    pub title: String,
}

#[derive(Debug, Copy, Clone, PartialEq, Eq, Structural)]
pub enum PanelLocation {
    Left,
    Right,
}

#[derive(Debug, Clone, PartialEq, Eq)]
pub struct PanelContribution {
    pub id: String,
    pub title: String,
    pub location: PanelLocation,
}

/// Why a manifest cannot be used.
#[derive(Debug, Clone, PartialEq, Eq)]
pub enum ManifestError {
    Malformed(String),
    MissingField(&'static str),
    InvalidId(String),
    UnsupportedApiVersion { requested: u32, supported: u32 },
    InvalidCommandPath(String),
    DuplicateCommandId(String),
    EmptyCommandId,
    DuplicatePanelId(String),
    EmptyPanelId,
    MissingExecutableAllowlist,
    InvalidAllowedExecutable(String),
}

/// A [`ManifestError`] as plain values.
pub enum ManifestFault {
    Malformed(Seq<char>),
    MissingField(Seq<char>),
    InvalidId(Seq<char>),
    UnsupportedApiVersion { requested: u32, supported: u32 },
    InvalidCommandPath(Seq<char>),
    DuplicateCommandId(Seq<char>),
    EmptyCommandId,
    DuplicatePanelId(Seq<char>),
    EmptyPanelId,
    MissingExecutableAllowlist,
    InvalidAllowedExecutable(Seq<char>),
}

impl View for ManifestError {
    type V = ManifestFault;

    open spec fn view(&self) -> ManifestFault {
        match self {
            ManifestError::Malformed(s) => ManifestFault::Malformed(s@),
            ManifestError::MissingField(f) => ManifestFault::MissingField(f@),
            ManifestError::InvalidId(s) => ManifestFault::InvalidId(s@),
            ManifestError::UnsupportedApiVersion { requested, supported } => ManifestFault::UnsupportedApiVersion {
                requested: *requested,
                supported: *supported,
            },
            ManifestError::InvalidCommandPath(s) => ManifestFault::InvalidCommandPath(s@),
            ManifestError::DuplicateCommandId(s) => ManifestFault::DuplicateCommandId(s@),
            ManifestError::EmptyCommandId => ManifestFault::EmptyCommandId,
            ManifestError::DuplicatePanelId(s) => ManifestFault::DuplicatePanelId(s@),
            ManifestError::EmptyPanelId => ManifestFault::EmptyPanelId,
            ManifestError::MissingExecutableAllowlist => ManifestFault::MissingExecutableAllowlist,
            ManifestError::InvalidAllowedExecutable(s) => ManifestFault::InvalidAllowedExecutable(s@),
        }
    }
}

/// The sentence each fault is shown to the user as.
pub open spec fn fault_text(f: ManifestFault) -> Seq<char> {
    match f {
        ManifestFault::Malformed(s) => "manifest is malformed: "@ + s,
        ManifestFault::MissingField(s) => "manifest field `"@ + s + "` is required"@,
        ManifestFault::InvalidId(s) => "extension id `"@ + s
            + "` must be lowercase alphanumeric segments separated by `.`, `-` or `_`"@,
        ManifestFault::UnsupportedApiVersion { requested, supported } => "api_version "@
            + decimal(requested as nat) + " is not supported by this Warp build (supported: "@
            + decimal(supported as nat) + ")"@,
        ManifestFault::InvalidCommandPath(s) => "command `"@ + s
            + "` must be a relative path inside the extension directory"@,
        ManifestFault::DuplicateCommandId(s) => "duplicate command id `"@ + s + "`"@,
        ManifestFault::EmptyCommandId => "command entries must declare a non-empty id"@,
        ManifestFault::DuplicatePanelId(s) => "duplicate panel id `"@ + s + "`"@,
        ManifestFault::EmptyPanelId => "panel entries must declare a non-empty id"@,
        ManifestFault::MissingExecutableAllowlist =>
            "process_execute requires a non-empty execution.allowed_executables list"@,
        ManifestFault::InvalidAllowedExecutable(s) => "allowed executable `"@ + s
            + "` must be a bare program name without path separators"@,
    }
}

fn quoted(s: &mut String, before: &str, middle: &str, after: &str)
    ensures
        final(s)@ == old(s)@ + before@ + middle@ + after@,
{
    push_str(s, before);
    push_str(s, middle);
    push_str(s, after);
}

impl ManifestError {
    /// The sentence this error is shown to the user as.
    pub fn message(&self) -> (s: String)
        ensures
            s@ == fault_text(self@),
    {
        let mut s = String::new();
        match self {
            ManifestError::Malformed(detail) => {
                push_str(&mut s, "manifest is malformed: ");
                push_str(&mut s, detail.as_str());
            },
            ManifestError::MissingField(field) => quoted(&mut s, "manifest field `", field, "` is required"),
            ManifestError::InvalidId(id) => quoted(
                &mut s,
                "extension id `",
                id.as_str(),
                "` must be lowercase alphanumeric segments separated by `.`, `-` or `_`",
            ),
            ManifestError::UnsupportedApiVersion { requested, supported } => {
                push_str(&mut s, "api_version ");
                push_decimal(&mut s, *requested as u64);
                push_str(&mut s, " is not supported by this Warp build (supported: ");
                push_decimal(&mut s, *supported as u64);
                push_str(&mut s, ")");
            },
            ManifestError::InvalidCommandPath(command) => quoted(
                &mut s,
                "command `",
                command.as_str(),
                "` must be a relative path inside the extension directory",
            ),
            ManifestError::DuplicateCommandId(id) => quoted(&mut s, "duplicate command id `", id.as_str(), "`"),
            ManifestError::EmptyCommandId => push_str(&mut s, "command entries must declare a non-empty id"),
            ManifestError::DuplicatePanelId(id) => quoted(&mut s, "duplicate panel id `", id.as_str(), "`"),
            ManifestError::EmptyPanelId => push_str(&mut s, "panel entries must declare a non-empty id"),
            ManifestError::MissingExecutableAllowlist => push_str(
                &mut s,
                "process_execute requires a non-empty execution.allowed_executables list",
            ),
            ManifestError::InvalidAllowedExecutable(executable) => quoted(
                &mut s,
                "allowed executable `",
                executable.as_str(),
                "` must be a bare program name without path separators",
            ),
        }
        assert(s@ =~= fault_text(self@));
        s
    }
}

/// The characters that separate the segments of an extension id.
pub open spec fn id_separator(c: char) -> bool {
    c == '.' || c == '-' || c == '_'
}

/// The characters an id segment may hold.
pub open spec fn id_segment_char(c: char) -> bool {
    ('a' <= c && c <= 'z') || ('0' <= c && c <= '9')
}

/// An id made of non-empty lowercase alphanumeric segments joined by single
/// separators: no separator at either end and none next to another.
pub open spec fn id_well_formed(id: Seq<char>) -> bool {
    &&& id.len() > 0
    &&& forall|i: int| 0 <= i < id.len() ==> id_segment_char(#[trigger] id[i]) || id_separator(id[i])
    &&& !id_separator(id[0])
    &&& !id_separator(id.last())
    &&& forall|i: int| 0 <= i < id.len() - 1 ==> !(id_separator(#[trigger] id[i]) && id_separator(id[i + 1]))
}

/// True when `c` separates path components: `/` everywhere, and `\\` too
/// where paths follow Windows rules.
pub open spec fn path_separator(c: char, windows: bool) -> bool {
    c == '/' || (windows && c == '\\')
}

/// True when a `..` segment starts at `i`: two dots bounded on each side by
/// a separator or an end of the path.
pub open spec fn parent_segment_at(s: Seq<char>, i: int, windows: bool) -> bool {
    &&& 0 <= i && i + 2 <= s.len()
    &&& s[i] == '.' && s[i + 1] == '.'
    &&& (i == 0 || path_separator(s[i - 1], windows))
    &&& (i + 2 == s.len() || path_separator(s[i + 2], windows))
}

/// True when `s` begins with a drive, a letter and a colon, which Windows
/// reads as a prefix naming another volume.
pub open spec fn drive_prefix(s: Seq<char>) -> bool {
    &&& s.len() >= 2
    &&& s[1] == ':'
    &&& (('a' <= s[0] && s[0] <= 'z') || ('A' <= s[0] && s[0] <= 'Z'))
}

/// A command path that names a file inside the extension directory, as
/// `Path` reads it on the platform: not rooted, without a drive prefix where
/// paths follow Windows rules, and with no `..` segment. Only `.` and
/// ordinary names are left.
pub open spec fn command_confined(s: Seq<char>, windows: bool) -> bool {
    &&& !(s.len() > 0 && path_separator(s[0], windows))
    &&& !(windows && drive_prefix(s))
    &&& !exists|i: int| #[trigger] parent_segment_at(s, i, windows)
}

/// A bare program name: something after trimming, no path separator of
/// either kind, and not `.` or `..`.
pub open spec fn bare_program_name(s: Seq<char>) -> bool {
    &&& trim(s).len() > 0
    &&& !s.contains('/')
    &&& !s.contains('\\')
    &&& s != "."@
    &&& s != ".."@
}

/// The first problem in a list of contribution ids.
pub enum IdFault {
    Empty,
    Duplicate(Seq<char>),
}

/// The first blank or repeated id among the first `n` of `ids`.
pub open spec fn id_fault(ids: Seq<Seq<char>>, n: nat) -> Option<IdFault>
    decreases n,
{
    if n == 0 {
        None
    } else {
        match id_fault(ids, (n - 1) as nat) {
            Some(f) => Some(f),
            None => if trim(ids[n - 1]).len() == 0 {
                Some(IdFault::Empty)
            } else if ids.take(n - 1).contains(ids[n - 1]) {
                Some(IdFault::Duplicate(ids[n - 1]))
            } else {
                None
            },
        }
    }
}

/// The first executable among the first `n` that is not a bare name.
pub open spec fn first_non_bare(names: Seq<Seq<char>>, n: nat) -> Option<Seq<char>>
    decreases n,
{
    if n == 0 {
        None
    } else {
        match first_non_bare(names, (n - 1) as nat) {
            Some(f) => Some(f),
            None => if !bare_program_name(names[n - 1]) {
                Some(names[n - 1])
            } else {
                None
            },
        }
    }
}

pub open spec fn command_ids(m: ExtensionManifest) -> Seq<Seq<char>> {
    m.commands@.map_values(|c: CommandContribution| c.id@)
}

pub open spec fn panel_ids(m: ExtensionManifest) -> Seq<Seq<char>> {
    m.panels@.map_values(|p: PanelContribution| p.id@)
}

pub open spec fn allowed(m: ExtensionManifest) -> Seq<Seq<char>> {
    strs(m.execution.allowed_executables@)
}

/// The contribution, allowlist and executable checks, after the scalar
/// fields have passed.
pub open spec fn contributions_check(m: ExtensionManifest) -> Result<(), ManifestFault> {
    let commands = command_ids(m);
    let panels = panel_ids(m);
    match id_fault(commands, commands.len()) {
        Some(IdFault::Empty) => Err(ManifestFault::EmptyCommandId),
        Some(IdFault::Duplicate(id)) => Err(ManifestFault::DuplicateCommandId(id)),
        None => match id_fault(panels, panels.len()) {
            Some(IdFault::Empty) => Err(ManifestFault::EmptyPanelId),
            Some(IdFault::Duplicate(id)) => Err(ManifestFault::DuplicatePanelId(id)),
            None => if m.permissions.process_execute {
                if allowed(m).len() == 0 {
                    Err(ManifestFault::MissingExecutableAllowlist)
                } else {
                    match first_non_bare(allowed(m), allowed(m).len()) {
                        Some(name) => Err(ManifestFault::InvalidAllowedExecutable(name)),
                        None => Ok(()),
                    }
                }
            } else {
                Ok(())
            },
        },
    }
}

/// Everything that must hold before Warp will run an extension, checked in
/// order, with the first failure reported.
pub open spec fn manifest_check(m: ExtensionManifest, windows: bool) -> Result<(), ManifestFault> {
    if m.id@.len() == 0 {
        Err(ManifestFault::MissingField("id"@))
    } else if !id_well_formed(m.id@) {
        Err(ManifestFault::InvalidId(m.id@))
    } else if trim(m.name@).len() == 0 {
        Err(ManifestFault::MissingField("name"@))
    } else if trim(m.version@).len() == 0 {
        Err(ManifestFault::MissingField("version"@))
    } else if m.api_version != API_VERSION {
        Err(ManifestFault::UnsupportedApiVersion { requested: m.api_version, supported: API_VERSION })
    } else if trim(m.command@).len() == 0 {
        Err(ManifestFault::MissingField("command"@))
    } else if !command_confined(m.command@, windows) {
        Err(ManifestFault::InvalidCommandPath(m.command@))
    } else {
        contributions_check(m)
    }
}

/// The permissions enforced at dispatch: what the table asks for, plus the UI
/// permission of each kind of contribution declared.
pub open spec fn effective(m: ExtensionManifest) -> Set<Permission> {
    let base = requested(m.permissions);
    let with_commands = if m.commands@.len() > 0 { base.insert(Permission::UiCommands) } else { base };
    if m.panels@.len() > 0 { with_commands.insert(Permission::UiPanel) } else { with_commands }
}

fn id_well_formed_exec(id: &str) -> (b: bool)
    requires
        id@.len() > 0,
    ensures
        b == id_well_formed(id@),
{
    let v = chars_of(id);
    let n = v.len();
    let mut i: usize = 0;
    while i < n
        invariant
            0 <= i <= n,
            n == v@.len(),
            v@ == id@,
            forall|k: int| 0 <= k < i ==> id_segment_char(#[trigger] v@[k]) || id_separator(v@[k]),
            forall|k: int| 0 <= k < i && k < n - 1 ==> !(id_separator(#[trigger] v@[k]) && id_separator(v@[k + 1])),
        decreases n - i,
    {
        let c = v[i];
        let sep = c == '.' || c == '-' || c == '_';
        let ok = ('a' <= c && c <= 'z') || ('0' <= c && c <= '9');
        if !ok && !sep {
            return false;
        }
        if sep && i + 1 < n {
            let d = v[i + 1];
            if d == '.' || d == '-' || d == '_' {
                return false;
            }
        }
        i += 1;
    }
    let first = v[0];
    let last = v[n - 1];
    !(first == '.' || first == '-' || first == '_') && !(last == '.' || last == '-' || last == '_')
}

fn validate_id(id: &String) -> (r: Result<(), ManifestError>)
    ensures
        match r {
            Ok(()) => id@.len() > 0 && id_well_formed(id@),
            Err(e) => if id@.len() == 0 {
                e@ == ManifestFault::MissingField("id"@)
            } else {
                !id_well_formed(id@) && e@ == ManifestFault::InvalidId(id@)
            },
        },
{
    if id.as_str().is_empty() {
        return Err(ManifestError::MissingField("id"));
    }
    if id_well_formed_exec(id.as_str()) {
        Ok(())
    } else {
        Err(ManifestError::InvalidId(id.clone()))
    }
}

fn command_confined_exec(command: &str, windows: bool) -> (b: bool)
    ensures
        b == command_confined(command@, windows),
{
    let v = chars_of(command);
    let n = v.len();
    if n > 0 && (v[0] == '/' || (windows && v[0] == '\\')) {
        return false;
    }
    if windows && n >= 2 && v[1] == ':' && (('a' <= v[0] && v[0] <= 'z') || ('A' <= v[0] && v[0] <= 'Z')) {
        return false;
    }
    let mut i: usize = 0;
    while n >= 2 && i <= n - 2
        invariant
            i <= n,
            n == v@.len(),
            v@ == command@,
            forall|k: int| 0 <= k < i ==> !#[trigger] parent_segment_at(v@, k, windows),
        decreases n - i,
    {
        let before = i == 0 || v[i - 1] == '/' || (windows && v[i - 1] == '\\');
        let after = i + 2 == n || v[i + 2] == '/' || (windows && v[i + 2] == '\\');
        if v[i] == '.' && v[i + 1] == '.' && before && after {
            assert(parent_segment_at(v@, i as int, windows));
            return false;
        }
        i += 1;
    }
    assert forall|k: int| !#[trigger] parent_segment_at(v@, k, windows) by {
        if k >= i {
            assert(!(0 <= k && k + 2 <= v@.len()));
        }
    }
    true
}

/// Rejects any `command` that could name a file outside the extension
/// directory. This is validation only: resolving the path is the host's job,
/// and doing both here would let a symlink decide the answer.
fn validate_command(command: &String, windows: bool) -> (r: Result<(), ManifestError>)
    ensures
        match r {
            Ok(()) => trim(command@).len() > 0 && command_confined(command@, windows),
            Err(e) => if trim(command@).len() == 0 {
                e@ == ManifestFault::MissingField("command"@)
            } else {
                !command_confined(command@, windows) && e@ == ManifestFault::InvalidCommandPath(command@)
            },
        },
{
    if blank(command.as_str()) {
        return Err(ManifestError::MissingField("command"));
    }
    if command_confined_exec(command.as_str(), windows) {
        Ok(())
    } else {
        Err(ManifestError::InvalidCommandPath(command.clone()))
    }
}

fn is_bare(executable: &str) -> (b: bool)
    ensures
        b == bare_program_name(executable@),
{
    !blank(executable) && !has_char(executable, '/') && !has_char(executable, '\\') && !same(executable, ".")
        && !same(executable, "..")
}

/// Finds the first blank or repeated id.
fn find_id_fault(ids: &Vec<&String>) -> (r: Option<(bool, usize)>)
    ensures
        match r {
            None => id_fault(ids@.map_values(|s: &String| s@), ids@.len() as nat) is None,
            Some((empty, k)) => k < ids@.len() && if empty {
                id_fault(ids@.map_values(|s: &String| s@), ids@.len() as nat) == Some(IdFault::Empty)
            } else {
                id_fault(ids@.map_values(|s: &String| s@), ids@.len() as nat) == Some(IdFault::Duplicate(ids@[k as int]@))
            },
        },
{
    let ghost all = ids@.map_values(|s: &String| s@);
    let mut i: usize = 0;
    while i < ids.len()
        invariant
            0 <= i <= ids@.len(),
            all == ids@.map_values(|s: &String| s@),
            id_fault(all, i as nat) is None,
        decreases ids@.len() - i,
    {
        assert(all[i as int] == ids@[i as int]@);
        if blank(ids[i].as_str()) {
            assert(id_fault(all, (i + 1) as nat) == Some(IdFault::Empty));
            proof { lemma_id_fault_stable(all, (i + 1) as nat, ids@.len() as nat); }
            return Some((true, i));
        }
        let mut j: usize = 0;
        while j < i
            invariant
                0 <= j <= i < ids@.len(),
                all == ids@.map_values(|s: &String| s@),
                id_fault(all, i as nat) is None,
                trim(all[i as int]).len() > 0,
                forall|k: int| 0 <= k < j ==> all[k] != all[i as int],
            decreases i - j,
        {
            if same(ids[j].as_str(), ids[i].as_str()) {
                proof {
                    assert(all.take(i as int)[j as int] == all[i as int]);
                    assert(id_fault(all, (i + 1) as nat) == Some(IdFault::Duplicate(all[i as int])));
                    lemma_id_fault_stable(all, (i + 1) as nat, ids@.len() as nat);
                }
                return Some((false, i));
            }
            j += 1;
        }
        assert(!all.take(i as int).contains(all[i as int])) by {
            if all.take(i as int).contains(all[i as int]) {
                let k = choose|k: int| 0 <= k < i && all.take(i as int)[k] == all[i as int];
                assert(all[k] == all[i as int]);
            }
        }
        assert(all[i as int] == ids@[i as int]@);
        assert(id_fault(all, (i + 1) as nat) is None);
        i += 1;
    }
    None
}

/// Once a fault is found, later entries do not change which one is reported.
proof fn lemma_id_fault_stable(ids: Seq<Seq<char>>, n: nat, m: nat)
    requires
        n <= m,
        id_fault(ids, n) is Some,
    ensures
        id_fault(ids, m) == id_fault(ids, n),
    decreases m - n,
{
    if n < m {
        lemma_id_fault_stable(ids, n, (m - 1) as nat);
    }
}

proof fn lemma_first_non_bare_stable(names: Seq<Seq<char>>, n: nat, m: nat)
    requires
        n <= m,
        first_non_bare(names, n) is Some,
    ensures
        first_non_bare(names, m) == first_non_bare(names, n),
    decreases m - n,
{
    if n < m {
        lemma_first_non_bare_stable(names, n, (m - 1) as nat);
    }
}

/// `std::path::is_separator('\\')`: true where `\\` separates path
/// components, which is where paths follow Windows rules. It is a fact of the
/// platform the library is built for, and nothing is stated of it.
#[verifier::external_body]
fn windows_paths() -> (b: bool) {
    std::path::is_separator('\\')
}

impl ExtensionManifest {
    /// Checks everything that must hold before Warp will run this extension,
    /// reading the command path by the platform's rules.
    pub fn validate(&self) -> (r: Result<(), ManifestError>)
        ensures
            exists|windows: bool| match r {
                Ok(()) => #[trigger] manifest_check(*self, windows) is Ok,
                Err(e) => manifest_check(*self, windows) == Err::<(), ManifestFault>(e@),
            },
    {
        let windows = windows_paths();
        let r = self.validate_on(windows);
        assert(match r {
            Ok(()) => manifest_check(*self, windows) is Ok,
            Err(e) => manifest_check(*self, windows) == Err::<(), ManifestFault>(e@),
        });
        r
    }

    /// Checks everything that must hold before Warp will run this extension,
    /// reading the command path by Windows rules when `windows` holds and by
    /// Unix rules otherwise.
    pub fn validate_on(&self, windows: bool) -> (r: Result<(), ManifestError>)
        ensures
            match r {
                Ok(()) => manifest_check(*self, windows) is Ok,
                Err(e) => manifest_check(*self, windows) == Err::<(), ManifestFault>(e@),
            },
    {
        match validate_id(&self.id) {
            Err(e) => return Err(e),
            Ok(()) => {},
        }
        if blank(self.name.as_str()) {
            return Err(ManifestError::MissingField("name"));
        }
        if blank(self.version.as_str()) {
            return Err(ManifestError::MissingField("version"));
        }
        if self.api_version != API_VERSION {
            return Err(ManifestError::UnsupportedApiVersion { requested: self.api_version, supported: API_VERSION });
        }
        match validate_command(&self.command, windows) {
            Err(e) => return Err(e),
            Ok(()) => {},
        }

        let mut command_refs: Vec<&String> = Vec::new();
        let mut i: usize = 0;
        while i < self.commands.len()
            invariant
                0 <= i <= self.commands@.len(),
                command_refs@.map_values(|s: &String| s@) == command_ids(*self).take(i as int),
            decreases self.commands@.len() - i,
        {
            let ghost before = command_refs@.map_values(|s: &String| s@);
            command_refs.push(&self.commands[i].id);
            assert(command_refs@.map_values(|s: &String| s@) =~= before.push(self.commands@[i as int].id@));
            assert(command_ids(*self).take(i + 1) =~= command_ids(*self).take(i as int).push(self.commands@[i as int].id@));
            i += 1;
        }
        assert(command_ids(*self).take(self.commands@.len() as int) =~= command_ids(*self));
        match find_id_fault(&command_refs) {
            Some((true, _)) => return Err(ManifestError::EmptyCommandId),
            Some((false, k)) => return Err(ManifestError::DuplicateCommandId(command_refs[k].clone())),
            None => {},
        }

        let mut panel_refs: Vec<&String> = Vec::new();
        let mut i: usize = 0;
        while i < self.panels.len()
            invariant
                0 <= i <= self.panels@.len(),
                panel_refs@.map_values(|s: &String| s@) == panel_ids(*self).take(i as int),
            decreases self.panels@.len() - i,
        {
            let ghost before = panel_refs@.map_values(|s: &String| s@);
            panel_refs.push(&self.panels[i].id);
            assert(panel_refs@.map_values(|s: &String| s@) =~= before.push(self.panels@[i as int].id@));
            assert(panel_ids(*self).take(i + 1) =~= panel_ids(*self).take(i as int).push(self.panels@[i as int].id@));
            i += 1;
        }
        assert(panel_ids(*self).take(self.panels@.len() as int) =~= panel_ids(*self));
        match find_id_fault(&panel_refs) {
            Some((true, _)) => return Err(ManifestError::EmptyPanelId),
            Some((false, k)) => return Err(ManifestError::DuplicatePanelId(panel_refs[k].clone())),
            None => {},
        }

        assert(manifest_check(*self, windows) == contributions_check(*self));
        assert(id_fault(command_ids(*self), command_ids(*self).len()) is None);
        assert(id_fault(panel_ids(*self), panel_ids(*self).len()) is None);
        if self.permissions.process_execute {
            let allowed_list = &self.execution.allowed_executables;
            if allowed_list.len() == 0 {
                return Err(ManifestError::MissingExecutableAllowlist);
            }
            let ghost names = allowed(*self);
            let mut i: usize = 0;
            while i < allowed_list.len()
                invariant
                    0 <= i <= allowed_list@.len(),
                    allowed_list == &self.execution.allowed_executables,
                    names == allowed(*self),
                    self.permissions.process_execute,
                    allowed_list@.len() > 0,
                    manifest_check(*self, windows) == contributions_check(*self),
                    id_fault(command_ids(*self), command_ids(*self).len()) is None,
                    id_fault(panel_ids(*self), panel_ids(*self).len()) is None,
                    first_non_bare(names, i as nat) is None,
                decreases allowed_list@.len() - i,
            {
                if !is_bare(allowed_list[i].as_str()) {
                    proof { lemma_first_non_bare_stable(names, (i + 1) as nat, names.len()); }
                    let bad = allowed_list[i].clone();
                    return Err(ManifestError::InvalidAllowedExecutable(bad));
                }
                i += 1;
            }
            assert(names.len() == allowed_list@.len());
        }
        Ok(())
    }

    /// Permissions to enforce at dispatch time.
    ///
    /// Declaring a contribution is itself the request for the matching UI
    /// permission, so a manifest does not have to say the same thing twice, and
    /// a plugin still cannot drive a surface it never declared.
    pub fn effective_permissions(&self) -> (s: PermissionSet)
        ensures
            s@ == effective(*self),
    {
        let mut granted = self.permissions.to_set();
        if self.commands.len() > 0 {
            granted.insert(Permission::UiCommands);
        }
        if self.panels.len() > 0 {
            granted.insert(Permission::UiPanel);
        }
        granted
    }

    /// True when the extension declared this panel and may therefore drive it.
    pub fn declares_panel(&self, panel_id: &str) -> (b: bool)
        ensures
            b == panel_ids(*self).contains(panel_id@),
    {
        let mut i: usize = 0;
        while i < self.panels.len()
            invariant
                0 <= i <= self.panels@.len(),
                forall|k: int| 0 <= k < i ==> panel_ids(*self)[k] != panel_id@,
            decreases self.panels@.len() - i,
        {
            if same(self.panels[i].id.as_str(), panel_id) {
                assert(panel_ids(*self)[i as int] == panel_id@);
                return true;
            }
            i += 1;
        }
        false
    }

    pub fn declares_command(&self, command_id: &str) -> (b: bool)
        ensures
            b == command_ids(*self).contains(command_id@),
    {
        let mut i: usize = 0;
        while i < self.commands.len()
            invariant
                0 <= i <= self.commands@.len(),
                forall|k: int| 0 <= k < i ==> command_ids(*self)[k] != command_id@,
            decreases self.commands@.len() - i,
        {
            if same(self.commands[i].id.as_str(), command_id) {
                assert(command_ids(*self)[i as int] == command_id@);
                return true;
            }
            i += 1;
        }
        false
    }

    /// True when `executable` may be passed to `execution.run`.
    pub fn allows_executable(&self, executable: &str) -> (b: bool)
        ensures
            b == allowed(*self).contains(executable@),
    {
        let list = &self.execution.allowed_executables;
        let mut i: usize = 0;
        while i < list.len()
            invariant
                0 <= i <= list@.len(),
                list == &self.execution.allowed_executables,
                forall|k: int| 0 <= k < i ==> allowed(*self)[k] != executable@,
            decreases list@.len() - i,
        {
            if same(list[i].as_str(), executable) {
                assert(allowed(*self)[i as int] == executable@);
                return true;
            }
            i += 1;
        }
        false
    }
}

/// Reads a textual `api_version`, which a manifest may write as `"1"` as
/// well as `1`: surrounding whitespace is ignored and the rest must be a
/// `u32` as `str::parse` reads one.
pub fn api_version_from_text(text: &str) -> (r: Option<u32>)
    ensures
        r == parse_u32(trim(text@)),
{
    let v = chars_of(text);
    let (a, b) = trim_bounds(&v, 0, v.len());
    assert(v@.subrange(0, v@.len() as int) =~= v@);
    parse_u32_at(&v, a, b)
}

/// Declaring a contribution is itself the request for the matching UI
/// permission, and nothing else is granted: the enforced set is what the
/// table asks for, plus `ui.commands` exactly when a command is declared and
/// `ui.panel` exactly when a panel is.
pub proof fn lemma_effective_permissions(m: ExtensionManifest, p: Permission)
    ensures
        requested(m.permissions).contains(p) ==> effective(m).contains(p),
        effective(m).contains(p) <==> (flag(m.permissions, p)
            || (p == Permission::UiCommands && m.commands@.len() > 0)
            || (p == Permission::UiPanel && m.panels@.len() > 0)),
{
}

/// What a manifest that validates guarantees: a well-formed id, a command
/// confined to the extension directory, unique non-blank contribution ids,
/// and, when it may run programs, a non-empty allowlist of bare names.
pub proof fn lemma_valid_manifest(m: ExtensionManifest, windows: bool)
    requires
        manifest_check(m, windows) is Ok,
    ensures
        id_well_formed(m.id@),
        m.api_version == API_VERSION,
        command_confined(m.command@, windows),
        id_fault(command_ids(m), command_ids(m).len()) is None,
        id_fault(panel_ids(m), panel_ids(m).len()) is None,
        m.permissions.process_execute ==> allowed(m).len() > 0,
        m.permissions.process_execute ==> forall|k: int| 0 <= k < allowed(m).len() ==> bare_program_name(#[trigger] allowed(m)[k]),
{
    if m.permissions.process_execute {
        assert forall|k: int| 0 <= k < allowed(m).len() implies bare_program_name(#[trigger] allowed(m)[k]) by {
            lemma_first_non_bare_prefix(allowed(m), allowed(m).len(), k);
        }
    }
}

proof fn lemma_first_non_bare_prefix(names: Seq<Seq<char>>, n: nat, k: int)
    requires
        0 <= k < n <= names.len(),
        first_non_bare(names, n) is None,
    ensures
        bare_program_name(names[k]),
    decreases n,
{
    if k < n - 1 {
        lemma_first_non_bare_prefix(names, (n - 1) as nat, k);
    }
}

/// A manifest that validates has no two contributions of one kind with the
/// same id.
pub proof fn lemma_unique_ids(ids: Seq<Seq<char>>, n: nat, a: int, b: int)
    requires
        n <= ids.len(),
        id_fault(ids, n) is None,
        0 <= a < b < n,
    ensures
        ids[a] != ids[b],
    decreases n,
{
    if b < n - 1 {
        lemma_unique_ids(ids, (n - 1) as nat, a, b);
    } else {
        assert(ids.take(n - 1)[a] == ids[a]);
        if ids[a] == ids[b] {
            assert(ids.take(n - 1).contains(ids[b]));
        }
    }
}

} // verus!
