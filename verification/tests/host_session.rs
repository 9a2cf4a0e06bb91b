use warp_extension::host::session::{RequestBody, Session, Verdict, decode_failure};
use warp_extension::protocol::capabilities::Capability;
use warp_extension::protocol::manifest::{
    CommandContribution, ExecutionPolicy, ExtensionManifest, ManifestPermissions, PanelContribution, PanelLocation,
};
use warp_extension::protocol::methods::{InitializeParams, Method};
use warp_extension::protocol::permissions::Permission;
use warp_extension::protocol::wire::{ErrorCode, ExtensionError};

/// `workspace_read` and `process_execute`, `git` allow-listed, one command
/// and one panel.
fn manifest() -> ExtensionManifest {
    let mut permissions = ManifestPermissions::default();
    permissions.workspace_read = true;
    permissions.process_execute = true;
    let manifest = ExtensionManifest {
        id: "dev.warp.git".to_owned(),
        name: "Warp Git".to_owned(),
        version: "0.1.0".to_owned(),
        api_version: 1,
        command: "./warp-git".to_owned(),
        activation: None,
        permissions,
        execution: ExecutionPolicy { allowed_executables: vec!["git".to_owned()] },
        commands: vec![CommandContribution { id: "git.fetch".to_owned(), title: "Git: Fetch".to_owned() }],
        panels: vec![PanelContribution { id: "git".to_owned(), title: "Git".to_owned(), location: PanelLocation::Left }],
    };
    manifest.validate().expect("manifest is valid");
    manifest
}

fn handshake(id: &str, api_version: u32) -> RequestBody {
    RequestBody::Initialize(Ok(InitializeParams { extension_id: id.to_owned(), api_version }))
}

fn refused(verdict: Verdict) -> ExtensionError {
    match verdict {
        Verdict::Refuse(error) => error,
        Verdict::Initialized(_) => panic!("expected a refusal, got a handshake result"),
        Verdict::Dispatch => panic!("expected a refusal, got a dispatch"),
    }
}

fn initialized() -> Session {
    let mut session = Session::new(manifest());
    let verdict = session.decide(1, Method::ExtensionInitialize, handshake("dev.warp.git", 1), &Capability::ALL);
    assert!(matches!(verdict, Verdict::Initialized(_)));
    session
}

#[test]
fn the_handshake_reports_the_protocol_api_and_capabilities() {
    let mut session = Session::new(manifest());
    assert!(!session.is_initialized());
    let Verdict::Initialized(result) = session.decide(1, Method::ExtensionInitialize, handshake("dev.warp.git", 1), &Capability::ALL)
    else {
        panic!("the handshake must succeed");
    };
    assert_eq!(result.protocol, 1);
    assert_eq!(result.api_version, 1);
    assert_eq!(result.capabilities, Capability::ALL.to_vec());
    assert!(session.is_initialized());
}

#[test]
fn the_handshake_reports_only_what_warp_advertises() {
    let mut session = Session::new(manifest());
    let advertised = [Capability::ExecutionV1, Capability::PanelTreeV1];
    let Verdict::Initialized(result) = session.decide(1, Method::ExtensionInitialize, handshake("dev.warp.git", 1), &advertised)
    else {
        panic!("the handshake must succeed");
    };
    assert_eq!(result.capabilities, advertised.to_vec());
}

#[test]
fn calls_before_the_handshake_are_refused() {
    let mut session = Session::new(manifest());
    let error = refused(session.decide(1, Method::WorkspaceGetContext, RequestBody::Other, &Capability::ALL));
    assert_eq!(error.code, ErrorCode::InvalidRequest);
    assert_eq!(error.message, "workspace.getContext was called before extension.initialize");
}

#[test]
fn a_wrong_protocol_version_is_rejected_before_anything_else() {
    let mut session = Session::new(manifest());
    let error = refused(session.decide(99, Method::ExtensionInitialize, handshake("dev.warp.git", 1), &Capability::ALL));
    assert_eq!(error.code, ErrorCode::ProtocolMismatch);
    assert_eq!(error.message, "request declares protocol version 99, expected 1");
    assert!(!session.is_initialized());
}

#[test]
fn a_handshake_claiming_another_extension_is_rejected() {
    let mut session = Session::new(manifest());
    let error = refused(session.decide(1, Method::ExtensionInitialize, handshake("dev.warp.other", 1), &Capability::ALL));
    assert_eq!(error.code, ErrorCode::InvalidRequest);
    assert_eq!(error.message, "handshake identifies a different extension");
    assert_eq!(
        error.details.as_deref(),
        Some("manifest declares `dev.warp.git`, handshake claims `dev.warp.other`")
    );
    assert!(!session.is_initialized());
}

#[test]
fn a_handshake_for_another_api_generation_is_a_protocol_mismatch() {
    let mut session = Session::new(manifest());
    let error = refused(session.decide(1, Method::ExtensionInitialize, handshake("dev.warp.git", 99), &Capability::ALL));
    assert_eq!(error.code, ErrorCode::ProtocolMismatch);
    assert_eq!(error.message, "extension requests api_version 99, this build supports 1");
}

#[test]
fn a_malformed_handshake_names_the_method() {
    let mut session = Session::new(manifest());
    let error = refused(session.decide(
        1,
        Method::ExtensionInitialize,
        RequestBody::Initialize(Err("missing field `extension_id`".to_owned())),
        &Capability::ALL,
    ));
    assert_eq!(error.code, ErrorCode::InvalidRequest);
    assert_eq!(error.message, "failed to decode extension.initialize parameters");
    assert_eq!(error.details.as_deref(), Some("missing field `extension_id`"));
}

#[test]
fn a_granted_method_reaches_the_host() {
    let mut session = initialized();
    assert!(matches!(session.decide(1, Method::WorkspaceGetContext, RequestBody::Other, &Capability::ALL), Verdict::Dispatch));
}

#[test]
fn an_undeclared_permission_is_denied_without_reaching_the_host() {
    let mut session = initialized();
    let error = refused(session.decide(1, Method::NotificationShow, RequestBody::Other, &Capability::ALL));
    assert_eq!(error.code, ErrorCode::PermissionDenied);
    assert_eq!(
        error.message,
        "notification.show requires the ui.notifications permission, which this extension did not declare"
    );
}

#[test]
fn an_unadvertised_capability_is_reported_as_unsupported_not_denied() {
    let mut session = initialized();
    let error = refused(session.decide(
        1,
        Method::ExecutionRun,
        RequestBody::ExecutionRun(Ok("git".to_owned())),
        &[Capability::WorkspaceContextV1],
    ));
    assert_eq!(error.code, ErrorCode::UnsupportedCapability);
    assert_eq!(
        error.message,
        "execution.run requires capability execution.v1, which this Warp build does not advertise"
    );
}

#[test]
fn an_allowlisted_executable_runs() {
    let mut session = initialized();
    let allowed = session.decide(1, Method::ExecutionRun, RequestBody::ExecutionRun(Ok("git".to_owned())), &Capability::ALL);
    assert!(matches!(allowed, Verdict::Dispatch));
}

#[test]
fn an_executable_outside_the_allowlist_is_denied() {
    let mut session = initialized();
    for executable in ["sh", "bash", "/usr/bin/git", "./git", "git "] {
        let error = refused(session.decide(
            1,
            Method::ExecutionRun,
            RequestBody::ExecutionRun(Ok(executable.to_owned())),
            &Capability::ALL,
        ));
        assert_eq!(error.code, ErrorCode::PermissionDenied, "`{executable}` must be denied");
        assert_eq!(error.message, format!("`{executable}` is not an allowed executable"));
        assert_eq!(error.details.as_deref(), Some("allowed: git"));
    }
}

#[test]
fn a_malformed_execution_request_is_rejected_before_dispatch() {
    let mut session = initialized();
    let error = refused(session.decide(
        1,
        Method::ExecutionRun,
        RequestBody::ExecutionRun(Err("unknown field `command`".to_owned())),
        &Capability::ALL,
    ));
    assert_eq!(error.code, ErrorCode::InvalidRequest);
    assert_eq!(error.message, "failed to decode execution.run parameters");
}

#[test]
fn a_plugin_may_only_drive_a_panel_it_declared() {
    let mut session = initialized();
    let declared = session.decide(1, Method::PanelSetState, RequestBody::PanelSetState(Ok("git".to_owned())), &Capability::ALL);
    assert!(matches!(declared, Verdict::Dispatch));

    let error = refused(session.decide(1, Method::PanelSetState, RequestBody::PanelSetState(Ok("someone-elses-panel".to_owned())), &Capability::ALL));
    assert_eq!(error.code, ErrorCode::PermissionDenied);
    assert_eq!(error.message, "panel `someone-elses-panel` was not declared by this extension");
}

#[test]
fn declaring_contributions_grants_the_matching_ui_permissions() {
    let session = Session::new(manifest());
    assert!(session.permissions().contains(Permission::UiPanel));
    assert!(session.permissions().contains(Permission::UiCommands));
    assert!(!session.permissions().contains(Permission::UiDialogs));
}

#[test]
fn the_session_keeps_its_manifest_and_names_decode_failures() {
    let session = Session::new(manifest());
    assert_eq!(session.manifest().id, "dev.warp.git");
    let error = decode_failure(Method::DialogInput, "bad".to_owned());
    assert_eq!(error.code, ErrorCode::InvalidRequest);
    assert_eq!(error.message, "failed to decode dialog.input parameters");
    assert_eq!(error.details.as_deref(), Some("bad"));
}
