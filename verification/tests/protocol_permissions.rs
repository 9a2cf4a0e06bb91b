use std::collections::BTreeSet;

use warp_extension::protocol::capabilities::Capability;
use warp_extension::protocol::events::EventKind;
use warp_extension::protocol::methods::Method;
use warp_extension::protocol::permissions::{Permission, PermissionSet};

#[test]
fn every_permission_has_prompt_copy() {
    for permission in Permission::ALL {
        assert!(
            !permission.description().is_empty(),
            "{} has no prompt description",
            permission.as_str()
        );
    }
}

#[test]
fn a_set_reports_exactly_what_was_granted() {
    let granted = PermissionSet::from_permissions(&[Permission::WorkspaceRead, Permission::ProcessExecute]);
    assert!(granted.contains(Permission::WorkspaceRead));
    assert!(!granted.contains(Permission::WorkspaceWrite));
    assert_eq!(granted.len(), 2);
}

#[test]
fn covers_detects_a_manifest_asking_for_more_than_was_granted() {
    let granted = PermissionSet::from_permissions(&[Permission::WorkspaceRead]);
    let unchanged = PermissionSet::from_permissions(&[Permission::WorkspaceRead]);
    let widened = PermissionSet::from_permissions(&[Permission::WorkspaceRead, Permission::GitMutate]);

    assert!(granted.covers(&unchanged));
    assert!(!granted.covers(&widened));
}

#[test]
fn a_method_outside_the_granted_set_is_denied() {
    let granted = PermissionSet::from_permissions(&[Permission::WorkspaceRead]);

    let allowed = Method::WorkspaceGetContext
        .permission()
        .is_none_or(|permission| granted.contains(permission));
    assert!(allowed);

    let denied = Method::ExecutionRun
        .permission()
        .is_none_or(|permission| granted.contains(permission));
    assert!(!denied);
}

#[test]
fn the_handshake_needs_no_grant() {
    let granted = PermissionSet::new();
    assert!(granted.is_empty());
    assert!(Method::ExtensionInitialize.permission().is_none());
}

#[test]
fn all_lists_every_variant_exactly_once() {
    let unique: std::collections::BTreeSet<_> = Capability::ALL.iter().collect();
    assert_eq!(unique.len(), Capability::ALL.len());
}

#[test]
fn every_method_except_the_handshake_is_gated() {
    for method in Method::ALL {
        match method {
            Method::ExtensionInitialize => {
                assert!(method.permission().is_none());
                assert!(method.capability().is_none());
            }
            other => {
                assert!(other.permission().is_some(), "{} has no gating permission", other.as_str());
                assert!(other.capability().is_some(), "{} has no gating capability", other.as_str());
            }
        }
    }
}

#[test]
fn a_set_lists_its_members_in_declaration_order_without_repeats() {
    let mut set = PermissionSet::new();
    assert!(set.insert(Permission::GitMutate));
    assert!(set.insert(Permission::WorkspaceRead));
    assert!(!set.insert(Permission::GitMutate), "a second insert adds nothing");
    assert_eq!(set.iter(), vec![Permission::WorkspaceRead, Permission::GitMutate]);
    assert_eq!(set.len(), 2);
    assert!(set.covers(&PermissionSet::new()));
    assert!(!PermissionSet::new().covers(&set));
}

#[test]
fn wire_names_are_the_documented_strings() {
    assert_eq!(Permission::ProcessExecute.as_str(), "process.execute");
    assert_eq!(Permission::UiPanel.description(), "Add a panel to Warp");
    assert_eq!(Capability::PanelTreeV1.as_str(), "panel.tree.v1");
    assert_eq!(Method::WorkspaceGetContext.as_str(), "workspace.getContext");
    assert_eq!(Method::DialogSelect.permission(), Some(Permission::UiDialogs));
    assert_eq!(Method::DiffOpenFile.capability(), Some(Capability::DiffOpenV1));
}

#[test]
fn no_two_values_share_a_wire_name() {
    let capabilities: BTreeSet<&str> = Capability::ALL.iter().map(|c| c.as_str()).collect();
    assert_eq!(capabilities.len(), Capability::ALL.len());
    let permissions: BTreeSet<&str> = Permission::ALL.iter().map(|p| p.as_str()).collect();
    assert_eq!(permissions.len(), Permission::ALL.len());
    let methods: BTreeSet<&str> = Method::ALL.iter().map(|m| m.as_str()).collect();
    assert_eq!(methods.len(), Method::ALL.len());
    let events: BTreeSet<&str> = EventKind::ALL.iter().map(|e| e.as_str()).collect();
    assert_eq!(events.len(), EventKind::ALL.len());
}
