//! Permissions a manifest requests and Warp enforces on every dispatch.
use vstd::prelude::*;

verus! {

/// One category of access a user can grant an extension.
///
/// Categories are coarse on purpose: a prompt the user cannot read is not
/// consent. Finer control lives below this layer — an executable allowlist for
/// [`Permission::ProcessExecute`], and per-action confirmation dialogs for
/// operations that are hard to undo.
#[derive(Debug, Copy, Clone, PartialEq, Eq, PartialOrd, Ord, Hash, Structural)]
pub enum Permission {
    WorkspaceRead,
    WorkspaceWrite,
    ProcessExecute,
    NetworkAccess,
    UiPanel,
    UiCommands,
    UiNotifications,
    UiDialogs,
    GitRead,
    GitMutate,
    SessionRead,
    SessionExecute,
}

/// How many permissions there are.
pub const PERMISSION_COUNT: usize = 12;

/// A permission's position in declaration order, which is also the order a
/// set lists its members in.
pub open spec fn rank(p: Permission) -> nat {
    match p {
        Permission::WorkspaceRead => 0,
        Permission::WorkspaceWrite => 1,
        Permission::ProcessExecute => 2,
        Permission::NetworkAccess => 3,
        Permission::UiPanel => 4,
        Permission::UiCommands => 5,
        Permission::UiNotifications => 6,
        Permission::UiDialogs => 7,
        Permission::GitRead => 8,
        Permission::GitMutate => 9,
        Permission::SessionRead => 10,
        Permission::SessionExecute => 11,
    }
}

/// The permission at a rank; the inverse of [`rank`].
pub open spec fn ranked(i: nat) -> Permission {
    if i == 0 { Permission::WorkspaceRead }
    else if i == 1 { Permission::WorkspaceWrite }
    else if i == 2 { Permission::ProcessExecute }
    else if i == 3 { Permission::NetworkAccess }
    else if i == 4 { Permission::UiPanel }
    else if i == 5 { Permission::UiCommands }
    else if i == 6 { Permission::UiNotifications }
    else if i == 7 { Permission::UiDialogs }
    else if i == 8 { Permission::GitRead }
    else if i == 9 { Permission::GitMutate }
    else if i == 10 { Permission::SessionRead }
    else { Permission::SessionExecute }
}

pub proof fn lemma_rank_inverse(p: Permission)
    ensures
        rank(p) < PERMISSION_COUNT,
        ranked(rank(p)) == p,
{
}

pub proof fn lemma_ranked_inverse(i: nat)
    requires
        i < PERMISSION_COUNT,
    ensures
        rank(ranked(i)) == i,
{
}

/// The wire name of each permission.
pub open spec fn permission_name(p: Permission) -> Seq<char> {
    match p {
        Permission::WorkspaceRead => "workspace.read"@,
        Permission::WorkspaceWrite => "workspace.write"@,
        Permission::ProcessExecute => "process.execute"@,
        Permission::NetworkAccess => "network.access"@,
        Permission::UiPanel => "ui.panel"@,
        Permission::UiCommands => "ui.commands"@,
        Permission::UiNotifications => "ui.notifications"@,
        Permission::UiDialogs => "ui.dialogs"@,
        Permission::GitRead => "git.read"@,
        Permission::GitMutate => "git.mutate"@,
        Permission::SessionRead => "session.read"@,
        Permission::SessionExecute => "session.execute"@,
    }
}

/// The permission a wire name names, if any.
pub open spec fn permission_named(name: Seq<char>) -> Option<Permission> {
    if name == "workspace.read"@ {
        Some(Permission::WorkspaceRead)
    } else if name == "workspace.write"@ {
        Some(Permission::WorkspaceWrite)
    } else if name == "process.execute"@ {
        Some(Permission::ProcessExecute)
    } else if name == "network.access"@ {
        Some(Permission::NetworkAccess)
    } else if name == "ui.panel"@ {
        Some(Permission::UiPanel)
    } else if name == "ui.commands"@ {
        Some(Permission::UiCommands)
    } else if name == "ui.notifications"@ {
        Some(Permission::UiNotifications)
    } else if name == "ui.dialogs"@ {
        Some(Permission::UiDialogs)
    } else if name == "git.read"@ {
        Some(Permission::GitRead)
    } else if name == "git.mutate"@ {
        Some(Permission::GitMutate)
    } else if name == "session.read"@ {
        Some(Permission::SessionRead)
    } else if name == "session.execute"@ {
        Some(Permission::SessionExecute)
    } else {
        None
    }
}

/// A permission's wire name reads back as that permission, so no two
/// permissions share a name.
pub proof fn lemma_permission_names_round_trip(permission: Permission)
    ensures
        permission_named(permission_name(permission)) == Some(permission),
{
    reveal_strlit("workspace.read");
    reveal_strlit("workspace.write");
    reveal_strlit("process.execute");
    reveal_strlit("network.access");
    reveal_strlit("ui.panel");
    reveal_strlit("ui.commands");
    reveal_strlit("ui.notifications");
    reveal_strlit("ui.dialogs");
    reveal_strlit("git.read");
    reveal_strlit("git.mutate");
    reveal_strlit("session.read");
    reveal_strlit("session.execute");
    // Names of one length differ at one position.
    let name = permission_name(permission);
    assert(name.len() == 14 ==> name[0] != "workspace.read"@[0] || name[0] != "network.access"@[0]);
    assert(name.len() == 15 ==> name[0] != "workspace.write"@[0] || name[0] != "process.execute"@[0] || name[0] != "session.execute"@[0]);
    assert(name.len() == 8 ==> name[0] != "ui.panel"@[0] || name[0] != "git.read"@[0]);
    assert(name.len() == 10 ==> name[0] != "ui.dialogs"@[0] || name[0] != "git.mutate"@[0]);
}

/// The prompt copy of each permission.
pub open spec fn permission_description(p: Permission) -> Seq<char> {
    match p {
        Permission::WorkspaceRead => "Read files and repository state in the active workspace"@,
        Permission::WorkspaceWrite => "Modify files in the active workspace"@,
        Permission::ProcessExecute => "Run allowed programs in the active workspace"@,
        Permission::NetworkAccess => "Make network requests"@,
        Permission::UiPanel => "Add a panel to Warp"@,
        Permission::UiCommands => "Add entries to the command palette"@,
        Permission::UiNotifications => "Show notifications"@,
        Permission::UiDialogs => "Show confirmation and input dialogs"@,
        Permission::GitRead => "Read Git repository state"@,
        Permission::GitMutate => "Change Git repository state"@,
        Permission::SessionRead => "Read the active session and its connection"@,
        Permission::SessionExecute => "Run programs inside the active session"@,
    }
}

impl Permission {
    /// Every permission, in declaration order.
    pub const ALL: [Permission; 12] = [
        Permission::WorkspaceRead,
        Permission::WorkspaceWrite,
        Permission::ProcessExecute,
        Permission::NetworkAccess,
        Permission::UiPanel,
        Permission::UiCommands,
        Permission::UiNotifications,
        Permission::UiDialogs,
        Permission::GitRead,
        Permission::GitMutate,
        Permission::SessionRead,
        Permission::SessionExecute,
    ];

    pub fn as_str(self) -> (s: &'static str)
        ensures
            s@ == permission_name(self),
    {
        match self {
            Permission::WorkspaceRead => "workspace.read",
            Permission::WorkspaceWrite => "workspace.write",
            Permission::ProcessExecute => "process.execute",
            Permission::NetworkAccess => "network.access",
            Permission::UiPanel => "ui.panel",
            Permission::UiCommands => "ui.commands",
            Permission::UiNotifications => "ui.notifications",
            Permission::UiDialogs => "ui.dialogs",
            Permission::GitRead => "git.read",
            Permission::GitMutate => "git.mutate",
            Permission::SessionRead => "session.read",
            Permission::SessionExecute => "session.execute",
        }
    }

    /// One-line description shown in the permission prompt.
    pub fn description(self) -> (s: &'static str)
        ensures
            s@ == permission_description(self),
    {
        match self {
            Permission::WorkspaceRead => "Read files and repository state in the active workspace",
            Permission::WorkspaceWrite => "Modify files in the active workspace",
            Permission::ProcessExecute => "Run allowed programs in the active workspace",
            Permission::NetworkAccess => "Make network requests",
            Permission::UiPanel => "Add a panel to Warp",
            Permission::UiCommands => "Add entries to the command palette",
            Permission::UiNotifications => "Show notifications",
            Permission::UiDialogs => "Show confirmation and input dialogs",
            Permission::GitRead => "Read Git repository state",
            Permission::GitMutate => "Change Git repository state",
            Permission::SessionRead => "Read the active session and its connection",
            Permission::SessionExecute => "Run programs inside the active session",
        }
    }

    /// The permission's position in declaration order.
    pub fn rank(self) -> (i: usize)
        ensures
            i == rank(self),
            i < PERMISSION_COUNT,
    {
        match self {
            Permission::WorkspaceRead => 0,
            Permission::WorkspaceWrite => 1,
            Permission::ProcessExecute => 2,
            Permission::NetworkAccess => 3,
            Permission::UiPanel => 4,
            Permission::UiCommands => 5,
            Permission::UiNotifications => 6,
            Permission::UiDialogs => 7,
            Permission::GitRead => 8,
            Permission::GitMutate => 9,
            Permission::SessionRead => 10,
            Permission::SessionExecute => 11,
        }
    }

    /// The permission at position `i` of declaration order.
    pub fn at_rank(i: usize) -> (p: Permission)
        requires
            i < PERMISSION_COUNT,
        ensures
            p == ranked(i as nat),
            rank(p) == i,
    {
        if i == 0 { Permission::WorkspaceRead }
        else if i == 1 { Permission::WorkspaceWrite }
        else if i == 2 { Permission::ProcessExecute }
        else if i == 3 { Permission::NetworkAccess }
        else if i == 4 { Permission::UiPanel }
        else if i == 5 { Permission::UiCommands }
        else if i == 6 { Permission::UiNotifications }
        else if i == 7 { Permission::UiDialogs }
        else if i == 8 { Permission::GitRead }
        else if i == 9 { Permission::GitMutate }
        else if i == 10 { Permission::SessionRead }
        else { Permission::SessionExecute }
    }
}

/// The set of permissions actually granted to a running extension.
///
/// Held as one flag per permission, indexed by [`rank`], so membership is a
/// lookup and the members come out in declaration order.
#[derive(Debug, PartialEq, Eq)]
pub struct PermissionSet {
    granted: Vec<bool>,
}

/// The members of a sequence of flags indexed by rank.
pub open spec fn flags_set(flags: Seq<bool>) -> Set<Permission> {
    Set::new(|p: Permission| flags[rank(p) as int])
}

/// The permissions of ranks `0..n` whose flag is set, in rank order.
pub open spec fn listed(flags: Seq<bool>, n: nat) -> Seq<Permission>
    decreases n,
{
    if n == 0 {
        Seq::empty()
    } else {
        let prev = listed(flags, (n - 1) as nat);
        if flags[n - 1] { prev.push(ranked((n - 1) as nat)) } else { prev }
    }
}

proof fn lemma_listed(flags: Seq<bool>, n: nat)
    requires
        n <= PERMISSION_COUNT,
    ensures
        listed(flags, n).no_duplicates(),
        forall|k: int| 0 <= k < listed(flags, n).len() ==> rank(#[trigger] listed(flags, n)[k]) < n,
        forall|p: Permission| #![trigger listed(flags, n).contains(p)]
            listed(flags, n).contains(p) <==> (rank(p) < n && flags[rank(p) as int]),
        forall|i: int, j: int| 0 <= i < j < listed(flags, n).len()
            ==> rank(#[trigger] listed(flags, n)[i]) < rank(#[trigger] listed(flags, n)[j]),
    decreases n,
{
    if n > 0 {
        lemma_listed(flags, (n - 1) as nat);
        let prev = listed(flags, (n - 1) as nat);
        let q = ranked((n - 1) as nat);
        lemma_ranked_inverse((n - 1) as nat);
        let cur = listed(flags, n);
        if flags[n - 1] {
            assert(cur == prev.push(q));
            assert forall|p: Permission| #![trigger cur.contains(p)]
                cur.contains(p) <==> (rank(p) < n && flags[rank(p) as int]) by {
                lemma_rank_inverse(p);
                if p == q {
                    assert(cur[prev.len() as int] == q);
                } else if cur.contains(p) {
                    let k = choose|k: int| 0 <= k < cur.len() && cur[k] == p;
                    assert(prev[k] == p);
                    assert(prev.contains(p));
                } else if rank(p) < n - 1 && flags[rank(p) as int] {
                    assert(prev.contains(p));
                    let k = choose|k: int| 0 <= k < prev.len() && prev[k] == p;
                    assert(cur[k] == p);
                }
            }
        } else {
            assert(cur == prev);
            assert forall|p: Permission| #![trigger cur.contains(p)]
                cur.contains(p) <==> (rank(p) < n && flags[rank(p) as int]) by {
                lemma_rank_inverse(p);
                if rank(p) == n - 1 {
                    assert(p == q);
                }
                if cur.contains(p) {
                    assert(prev.contains(p));
                } else if rank(p) < n - 1 && flags[rank(p) as int] {
                    assert(prev.contains(p));
                }
            }
        }
    }
}

impl View for PermissionSet {
    type V = Set<Permission>;

    closed spec fn view(&self) -> Set<Permission> {
        flags_set(self.granted@)
    }
}

impl PermissionSet {
    #[verifier::type_invariant]
    spec fn well_formed(self) -> bool {
        self.granted@.len() == PERMISSION_COUNT
    }

    /// An empty set.
    pub fn new() -> (s: PermissionSet)
        ensures
            s@ == Set::<Permission>::empty(),
    {
        let mut granted: Vec<bool> = Vec::new();
        let mut i: usize = 0;
        while i < PERMISSION_COUNT
            invariant
                i <= PERMISSION_COUNT,
                granted@.len() == i,
                forall|k: int| 0 <= k < i ==> !granted@[k],
            decreases PERMISSION_COUNT - i,
        {
            granted.push(false);
            i += 1;
        }
        let s = PermissionSet { granted };
        assert(s@ =~= Set::<Permission>::empty()) by {
            assert forall|p: Permission| !s@.contains(p) by {
                lemma_rank_inverse(p);
            }
        }
        s
    }

    /// The set holding exactly the given permissions.
    pub fn from_permissions(permissions: &[Permission]) -> (s: PermissionSet)
        ensures
            s@ == permissions@.to_set(),
    {
        let mut s = PermissionSet::new();
        let mut i: usize = 0;
        while i < permissions.len()
            invariant
                0 <= i <= permissions@.len(),
                s@ == permissions@.take(i as int).to_set(),
            decreases permissions@.len() - i,
        {
            s.insert(permissions[i]);
            assert(permissions@.take(i + 1) =~= permissions@.take(i as int).push(permissions@[i as int]));
            assert(permissions@.take(i + 1).to_set() =~= permissions@.take(i as int).to_set().insert(permissions@[i as int])) by {
                broadcast use vstd::seq_lib::group_seq_properties;
            }
            i += 1;
        }
        assert(permissions@.take(permissions@.len() as int) =~= permissions@);
        s
    }

    pub fn contains(&self, permission: Permission) -> (b: bool)
        ensures
            b == self@.contains(permission),
    {
        proof { use_type_invariant(self); }
        self.granted[permission.rank()]
    }

    /// Grants `permission`, reporting whether it was newly added.
    pub fn insert(&mut self, permission: Permission) -> (added: bool)
        ensures
            final(self)@ == old(self)@.insert(permission),
            added == !old(self)@.contains(permission),
    {
        proof { use_type_invariant(&*self); }
        let i = permission.rank();
        let was = self.granted[i];
        let mut granted = self.granted.clone();
        granted.set(i, true);
        let ghost before = self@;
        self.granted = granted;
        assert(self@ =~= before.insert(permission)) by {
            assert forall|p: Permission| self@.contains(p) == before.insert(permission).contains(p) by {
                lemma_rank_inverse(p);
                lemma_rank_inverse(permission);
                if rank(p) == rank(permission) {
                    assert(p == permission);
                }
            }
        }
        !was
    }

    pub fn is_empty(&self) -> (b: bool)
        ensures
            b == (self@ == Set::<Permission>::empty()),
    {
        let members = self.iter();
        if members.len() == 0 {
            assert(self@ =~= Set::<Permission>::empty());
            true
        } else {
            assert(self@.contains(members@[0]));
            false
        }
    }

    pub fn len(&self) -> (n: usize)
        ensures
            n == self@.len(),
            self@.finite(),
    {
        let members = self.iter();
        proof {
            members@.unique_seq_to_set();
            assert(members@.to_set() =~= self@);
        }
        members.len()
    }

    /// The granted permissions, in declaration order.
    pub fn iter(&self) -> (members: Vec<Permission>)
        ensures
            members@.no_duplicates(),
            members@.to_set() == self@,
            forall|p: Permission| #[trigger] members@.contains(p) <==> self@.contains(p),
            forall|i: int, j: int| 0 <= i < j < members@.len()
                ==> rank(#[trigger] members@[i]) < rank(#[trigger] members@[j]),
    {
        proof { use_type_invariant(self); }
        let ghost flags = self.granted@;
        let mut members: Vec<Permission> = Vec::new();
        let mut i: usize = 0;
        while i < PERMISSION_COUNT
            invariant
                i <= PERMISSION_COUNT,
                flags == self.granted@,
                flags.len() == PERMISSION_COUNT,
                members@ == listed(flags, i as nat),
            decreases PERMISSION_COUNT - i,
        {
            if self.granted[i] {
                members.push(Permission::at_rank(i));
            }
            i += 1;
        }
        proof {
            lemma_listed(flags, PERMISSION_COUNT as nat);
            assert forall|p: Permission| #[trigger] members@.contains(p) <==> self@.contains(p) by {
                lemma_rank_inverse(p);
                assert(listed(flags, PERMISSION_COUNT as nat).contains(p) <==> (rank(p) < PERMISSION_COUNT && flags[rank(p) as int]));
            }
            assert(members@.to_set() =~= self@);
        }
        members
    }

    /// True when every permission in `other` is also granted here, which is the
    /// test for whether a re-prompt is needed after a manifest changes.
    pub fn covers(&self, other: &PermissionSet) -> (b: bool)
        ensures
            b == other@.subset_of(self@),
    {
        proof {
            use_type_invariant(self);
            use_type_invariant(other);
        }
        let mut i: usize = 0;
        while i < PERMISSION_COUNT
            invariant
                i <= PERMISSION_COUNT,
                self.granted@.len() == PERMISSION_COUNT,
                other.granted@.len() == PERMISSION_COUNT,
                forall|k: int| 0 <= k < i ==> (other.granted@[k] ==> self.granted@[k]),
            decreases PERMISSION_COUNT - i,
        {
            if other.granted[i] && !self.granted[i] {
                proof {
                    let p = ranked(i as nat);
                    lemma_ranked_inverse(i as nat);
                    assert(other@.contains(p) && !self@.contains(p));
                }
                return false;
            }
            i += 1;
        }
        assert forall|p: Permission| other@.contains(p) implies self@.contains(p) by {
            lemma_rank_inverse(p);
        }
        true
    }
}

impl Clone for PermissionSet {
    fn clone(&self) -> (s: PermissionSet)
        ensures
            s@ == self@,
    {
        proof { use_type_invariant(self); }
        let granted = self.granted.clone();
        assert(granted@ =~= self.granted@);
        PermissionSet { granted }
    }
}

impl Default for PermissionSet {
    fn default() -> (s: PermissionSet)
        ensures
            s@ == Set::<Permission>::empty(),
    {
        PermissionSet::new()
    }
}

} // verus!
