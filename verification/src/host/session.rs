//! Handshake and gating for one connected extension.
//!
//! Every request a plugin sends passes the same gates, in the same order,
//! before Warp acts on it: the protocol version, the handshake, the
//! capability, the permission, and the per-method request policy. Decoding
//! the JSON body and carrying out an admitted request happen at the edge;
//! the decision is made here.
use vstd::prelude::*;

use crate::protocol::capabilities::{Capability, capability_name};
use crate::protocol::manifest::{ExtensionManifest, allowed, effective, panel_ids};
use crate::protocol::methods::{InitializeParams, InitializeResult, Method, method_name, required_capability, required_permission};
use crate::protocol::permissions::{PermissionSet, permission_name};
use crate::protocol::wire::{API_VERSION, ErrorCode, ErrorView, ExtensionError, PROTOCOL_VERSION, detailed_error, plain_error};
use crate::text::{decimal, join, joined, push_decimal, push_str, strs};

verus! {

/// What the gates read from a request's parameters, decoded at the edge:
/// the parameters, or the decoder's complaint about them.
pub enum RequestBody {
    Initialize(Result<InitializeParams, String>),
    /// The executable an `execution.run` names.
    ExecutionRun(Result<String, String>),
    /// The panel a `panel.setState` targets.
    PanelSetState(Result<String, String>),
    /// The parameters of any other method, which no gate reads.
    Other,
}

/// A [`RequestBody`] as plain values.
pub enum BodyView {
    Initialize(Result<(Seq<char>, u32), Seq<char>>),
    ExecutionRun(Result<Seq<char>, Seq<char>>),
    PanelSetState(Result<Seq<char>, Seq<char>>),
    Other,
}

pub open spec fn result_view(r: Result<String, String>) -> Result<Seq<char>, Seq<char>> {
    match r {
        Ok(s) => Ok(s@),
        Err(e) => Err(e@),
    }
}

impl View for RequestBody {
    type V = BodyView;

    open spec fn view(&self) -> BodyView {
        match self {
            RequestBody::Initialize(Ok(p)) => BodyView::Initialize(Ok((p.extension_id@, p.api_version))),
            RequestBody::Initialize(Err(e)) => BodyView::Initialize(Err(e@)),
            RequestBody::ExecutionRun(r) => BodyView::ExecutionRun(result_view(*r)),
            RequestBody::PanelSetState(r) => BodyView::PanelSetState(result_view(*r)),
            RequestBody::Other => BodyView::Other,
        }
    }
}

/// The body carries what the gates read for its method.
pub open spec fn body_fits(method: Method, body: BodyView) -> bool {
    match method {
        Method::ExtensionInitialize => body is Initialize,
        Method::ExecutionRun => body is ExecutionRun,
        Method::PanelSetState => body is PanelSetState,
        _ => body is Other,
    }
}

/// What happens to one request.
pub enum Verdict {
    /// Answer with this error; the request goes no further.
    Refuse(ExtensionError),
    /// The handshake succeeded; answer with this.
    Initialized(InitializeResult),
    /// Every gate passed: hand the request to Warp.
    Dispatch,
}

/// A [`Verdict`] as plain values.
pub enum VerdictView {
    Refuse(ErrorView),
    Initialized { protocol: u32, api_version: u32, capabilities: Seq<Capability> },
    Dispatch,
}

impl View for Verdict {
    type V = VerdictView;

    open spec fn view(&self) -> VerdictView {
        match self {
            Verdict::Refuse(e) => VerdictView::Refuse(e@),
            Verdict::Initialized(r) => VerdictView::Initialized {
                protocol: r.protocol,
                api_version: r.api_version,
                capabilities: r.capabilities@,
            },
            Verdict::Dispatch => VerdictView::Dispatch,
        }
    }
}

/// The error a body that did not decode is answered with.
pub open spec fn decode_failure_view(method: Method, detail: Seq<char>) -> ErrorView {
    detailed_error(ErrorCode::InvalidRequest, "failed to decode "@ + method_name(method) + " parameters"@, detail)
}

/// The error a request that does not meet its method's policy is answered
/// with, if it does not.
pub open spec fn policy_refusal(m: ExtensionManifest, method: Method, body: BodyView) -> Option<ErrorView> {
    match body {
        BodyView::ExecutionRun(Err(detail)) => Some(decode_failure_view(method, detail)),
        BodyView::ExecutionRun(Ok(executable)) => if allowed(m).contains(executable) {
            None
        } else {
            Some(detailed_error(
                ErrorCode::PermissionDenied,
                "`"@ + executable + "` is not an allowed executable"@,
                "allowed: "@ + joined(allowed(m), ", "@),
            ))
        },
        BodyView::PanelSetState(Err(detail)) => Some(decode_failure_view(method, detail)),
        BodyView::PanelSetState(Ok(panel_id)) => if panel_ids(m).contains(panel_id) {
            None
        } else {
            Some(plain_error(
                ErrorCode::PermissionDenied,
                "panel `"@ + panel_id + "` was not declared by this extension"@,
            ))
        },
        _ => None,
    }
}

/// The verdict on a request, and whether the session is initialized after
/// it. The gates apply in order and the first that fails answers.
pub open spec fn verdict(
    m: ExtensionManifest,
    granted: Set<crate::protocol::permissions::Permission>,
    initialized: bool,
    protocol: u32,
    method: Method,
    body: BodyView,
    advertised: Seq<Capability>,
) -> (VerdictView, bool) {
    if protocol != PROTOCOL_VERSION {
        (VerdictView::Refuse(plain_error(
            ErrorCode::ProtocolMismatch,
            "request declares protocol version "@ + decimal(protocol as nat) + ", expected 1"@,
        )), initialized)
    } else if method == Method::ExtensionInitialize {
        match body {
            BodyView::Initialize(Err(detail)) => (VerdictView::Refuse(decode_failure_view(method, detail)), initialized),
            BodyView::Initialize(Ok((claimed, api))) => if claimed != m.id@ {
                (VerdictView::Refuse(detailed_error(
                    ErrorCode::InvalidRequest,
                    "handshake identifies a different extension"@,
                    "manifest declares `"@ + m.id@ + "`, handshake claims `"@ + claimed + "`"@,
                )), initialized)
            } else if api != API_VERSION {
                (VerdictView::Refuse(plain_error(
                    ErrorCode::ProtocolMismatch,
                    "extension requests api_version "@ + decimal(api as nat) + ", this build supports 1"@,
                )), initialized)
            } else {
                (VerdictView::Initialized { protocol: PROTOCOL_VERSION, api_version: API_VERSION, capabilities: advertised }, true)
            },
            _ => (VerdictView::Dispatch, initialized),
        }
    } else if !initialized {
        (VerdictView::Refuse(plain_error(
            ErrorCode::InvalidRequest,
            method_name(method) + " was called before extension.initialize"@,
        )), initialized)
    } else if required_capability(method) is Some && !advertised.contains(required_capability(method)->0) {
        (VerdictView::Refuse(plain_error(
            ErrorCode::UnsupportedCapability,
            method_name(method) + " requires capability "@ + capability_name(required_capability(method)->0)
                + ", which this Warp build does not advertise"@,
        )), initialized)
    } else if required_permission(method) is Some && !granted.contains(required_permission(method)->0) {
        (VerdictView::Refuse(plain_error(
            ErrorCode::PermissionDenied,
            method_name(method) + " requires the "@ + permission_name(required_permission(method)->0)
                + " permission, which this extension did not declare"@,
        )), initialized)
    } else {
        match policy_refusal(m, method, body) {
            Some(e) => (VerdictView::Refuse(e), initialized),
            None => (VerdictView::Dispatch, initialized),
        }
    }
}

/// The error a body that did not decode is answered with: the method is
/// named, and the decoder's complaint is kept as details.
pub fn decode_failure(method: Method, detail: String) -> (e: ExtensionError)
    ensures
        e@ == decode_failure_view(method, detail@),
{
    let mut message = String::from_str("failed to decode ");
    push_str(&mut message, method.as_str());
    push_str(&mut message, " parameters");
    ExtensionError::with_details(ErrorCode::InvalidRequest, message, detail)
}

/// One extension's connection state and the gates its requests pass through.
pub struct Session {
    manifest: ExtensionManifest,
    permissions: PermissionSet,
    initialized: bool,
}

/// A [`Session`] as plain values.
pub struct SessionView {
    pub manifest: ExtensionManifest,
    pub permissions: Set<crate::protocol::permissions::Permission>,
    pub initialized: bool,
}

impl View for Session {
    type V = SessionView;

    closed spec fn view(&self) -> SessionView {
        SessionView { manifest: self.manifest, permissions: self.permissions@, initialized: self.initialized }
    }
}

impl Session {
    /// A session for a validated manifest, granting its effective
    /// permissions and awaiting the handshake.
    pub fn new(manifest: ExtensionManifest) -> (s: Session)
        ensures
            s@.manifest == manifest,
            s@.permissions == effective(manifest),
            !s@.initialized,
    {
        let permissions = manifest.effective_permissions();
        Session { manifest, permissions, initialized: false }
    }

    pub fn manifest(&self) -> (m: &ExtensionManifest)
        ensures
            *m == self@.manifest,
    {
        &self.manifest
    }

    pub fn permissions(&self) -> (p: &PermissionSet)
        ensures
            p@ == self@.permissions,
    {
        &self.permissions
    }

    pub fn is_initialized(&self) -> (b: bool)
        ensures
            b == self@.initialized,
    {
        self.initialized
    }

    /// Decides one request.
    ///
    /// `advertised` is what this Warp build implements, and `body` what the
    /// gates read from the request's parameters.
    pub fn decide(&mut self, protocol: u32, method: Method, body: RequestBody, advertised: &[Capability]) -> (v: Verdict)
        requires
            body_fits(method, body@),
        ensures
            (v@, final(self)@.initialized) == verdict(
                old(self)@.manifest,
                old(self)@.permissions,
                old(self)@.initialized,
                protocol,
                method,
                body@,
                advertised@,
            ),
            final(self)@.manifest == old(self)@.manifest,
            final(self)@.permissions == old(self)@.permissions,
    {
        if protocol != PROTOCOL_VERSION {
            let mut message = String::from_str("request declares protocol version ");
            push_decimal(&mut message, protocol as u64);
            push_str(&mut message, ", expected 1");
            return Verdict::Refuse(ExtensionError::new(ErrorCode::ProtocolMismatch, message));
        }
        if method == Method::ExtensionInitialize {
            return self.initialize(body, advertised);
        }
        if !self.initialized {
            let mut message = String::from_str(method.as_str());
            push_str(&mut message, " was called before extension.initialize");
            return Verdict::Refuse(ExtensionError::new(ErrorCode::InvalidRequest, message));
        }
        if let Some(required) = method.capability() {
            if !contains_capability(advertised, required) {
                let mut message = String::from_str(method.as_str());
                push_str(&mut message, " requires capability ");
                push_str(&mut message, required.as_str());
                push_str(&mut message, ", which this Warp build does not advertise");
                return Verdict::Refuse(ExtensionError::new(ErrorCode::UnsupportedCapability, message));
            }
        }
        if let Some(required) = method.permission() {
            if !self.permissions.contains(required) {
                let mut message = String::from_str(method.as_str());
                push_str(&mut message, " requires the ");
                push_str(&mut message, required.as_str());
                push_str(&mut message, " permission, which this extension did not declare");
                return Verdict::Refuse(ExtensionError::new(ErrorCode::PermissionDenied, message));
            }
        }
        match self.request_policy(method, body) {
            Some(e) => Verdict::Refuse(e),
            None => Verdict::Dispatch,
        }
    }

    fn initialize(&mut self, body: RequestBody, advertised: &[Capability]) -> (v: Verdict)
        requires
            body@ is Initialize,
        ensures
            (v@, final(self)@.initialized) == verdict(
                old(self)@.manifest,
                old(self)@.permissions,
                old(self)@.initialized,
                PROTOCOL_VERSION,
                Method::ExtensionInitialize,
                body@,
                advertised@,
            ),
            final(self)@.manifest == old(self)@.manifest,
            final(self)@.permissions == old(self)@.permissions,
    {
        let params = match body {
            RequestBody::Initialize(Ok(params)) => params,
            RequestBody::Initialize(Err(detail)) => {
                return Verdict::Refuse(decode_failure(Method::ExtensionInitialize, detail));
            },
            _ => {
                return Verdict::Dispatch;
            },
        };
        if !crate::text::same(params.extension_id.as_str(), self.manifest.id.as_str()) {
            let mut details = String::from_str("manifest declares `");
            push_str(&mut details, self.manifest.id.as_str());
            push_str(&mut details, "`, handshake claims `");
            push_str(&mut details, params.extension_id.as_str());
            push_str(&mut details, "`");
            return Verdict::Refuse(ExtensionError::with_details(
                ErrorCode::InvalidRequest,
                String::from_str("handshake identifies a different extension"),
                details,
            ));
        }
        if params.api_version != API_VERSION {
            let mut message = String::from_str("extension requests api_version ");
            push_decimal(&mut message, params.api_version as u64);
            push_str(&mut message, ", this build supports 1");
            return Verdict::Refuse(ExtensionError::new(ErrorCode::ProtocolMismatch, message));
        }
        self.initialized = true;
        let mut capabilities: Vec<Capability> = Vec::new();
        let mut i: usize = 0;
        while i < advertised.len()
            invariant
                0 <= i <= advertised@.len(),
                capabilities@ == advertised@.take(i as int),
            decreases advertised@.len() - i,
        {
            capabilities.push(advertised[i]);
            assert(advertised@.take(i + 1) =~= advertised@.take(i as int).push(advertised@[i as int]));
            i += 1;
        }
        assert(advertised@.take(advertised@.len() as int) =~= advertised@);
        Verdict::Initialized(InitializeResult { protocol: PROTOCOL_VERSION, api_version: API_VERSION, capabilities })
    }

    /// Per-method policy that depends on the request body rather than only
    /// the method: the executable allowlist, and the rule that a plugin may
    /// only drive a panel it declared.
    fn request_policy(&self, method: Method, body: RequestBody) -> (r: Option<ExtensionError>)
        ensures
            match r {
                Some(e) => policy_refusal(self@.manifest, method, body@) == Some(e@),
                None => policy_refusal(self@.manifest, method, body@) is None,
            },
    {
        match body {
            RequestBody::ExecutionRun(Err(detail)) => Some(decode_failure(method, detail)),
            RequestBody::ExecutionRun(Ok(executable)) => {
                if self.manifest.allows_executable(executable.as_str()) {
                    return None;
                }
                let mut message = String::from_str("`");
                push_str(&mut message, executable.as_str());
                push_str(&mut message, "` is not an allowed executable");
                let mut details = String::from_str("allowed: ");
                let list = join(self.manifest.execution.allowed_executables.as_slice(), ", ");
                push_str(&mut details, list.as_str());
                Some(ExtensionError::with_details(ErrorCode::PermissionDenied, message, details))
            },
            RequestBody::PanelSetState(Err(detail)) => Some(decode_failure(method, detail)),
            RequestBody::PanelSetState(Ok(panel_id)) => {
                if self.manifest.declares_panel(panel_id.as_str()) {
                    return None;
                }
                let mut message = String::from_str("panel `");
                push_str(&mut message, panel_id.as_str());
                push_str(&mut message, "` was not declared by this extension");
                Some(ExtensionError::new(ErrorCode::PermissionDenied, message))
            },
            _ => None,
        }
    }
}

fn contains_capability(advertised: &[Capability], c: Capability) -> (b: bool)
    ensures
        b == advertised@.contains(c),
{
    let mut i: usize = 0;
    while i < advertised.len()
        invariant
            0 <= i <= advertised@.len(),
            forall|j: int| 0 <= j < i ==> advertised@[j] != c,
        decreases advertised@.len() - i,
    {
        if advertised[i] == c {
            assert(advertised@[i as int] == c);
            return true;
        }
        i += 1;
    }
    false
}

/// Nothing reaches Warp without passing every gate: a request is dispatched
/// only when it declares this protocol version, the handshake has completed,
/// it is not itself the handshake, Warp advertises the capability its method
/// needs, the extension was granted the permission its method needs, and its
/// body meets its method's policy — the executable is allow-listed, the panel
/// declared.
pub proof fn lemma_dispatch_passed_every_gate(
    m: ExtensionManifest,
    granted: Set<crate::protocol::permissions::Permission>,
    initialized: bool,
    protocol: u32,
    method: Method,
    body: BodyView,
    advertised: Seq<Capability>,
)
    requires
        body_fits(method, body),
        verdict(m, granted, initialized, protocol, method, body, advertised).0 is Dispatch,
    ensures
        protocol == PROTOCOL_VERSION,
        initialized,
        method != Method::ExtensionInitialize,
        required_capability(method) matches Some(c) ==> advertised.contains(c),
        required_permission(method) matches Some(p) ==> granted.contains(p),
        body matches BodyView::ExecutionRun(r) ==> (r matches Ok(executable) && allowed(m).contains(executable)),
        body matches BodyView::PanelSetState(r) ==> (r matches Ok(panel_id) && panel_ids(m).contains(panel_id)),
{
}

/// Only a successful handshake changes a session: every other verdict leaves
/// it as it was, and the handshake itself needs no permission or capability.
pub proof fn lemma_only_the_handshake_initializes(
    m: ExtensionManifest,
    granted: Set<crate::protocol::permissions::Permission>,
    initialized: bool,
    protocol: u32,
    method: Method,
    body: BodyView,
    advertised: Seq<Capability>,
)
    requires
        body_fits(method, body),
    ensures
        verdict(m, granted, initialized, protocol, method, body, advertised).1 != initialized ==> {
            &&& verdict(m, granted, initialized, protocol, method, body, advertised).0 is Initialized
            &&& method == Method::ExtensionInitialize
            &&& body matches BodyView::Initialize(Ok((claimed, api))) && claimed == m.id@ && api == API_VERSION
        },
        verdict(m, granted, initialized, protocol, method, body, advertised).0 is Initialized ==>
            verdict(m, granted, initialized, protocol, method, body, advertised).1,
        (protocol == PROTOCOL_VERSION && method == Method::ExtensionInitialize
            && (body matches BodyView::Initialize(Ok((claimed, api))) && claimed == m.id@ && api == API_VERSION))
            ==> verdict(m, granted, initialized, protocol, method, body, advertised).0 is Initialized,
{
}


/// Every program on the allowlist may run, wherever it stands in the list,
/// and no other: once a request has passed the protocol, handshake,
/// capability and permission gates, `execution.run` of a program is
/// dispatched exactly when some entry of the manifest's allowlist names it,
/// and otherwise refused as a permission denied.
pub proof fn lemma_exactly_the_allowlisted_programs_run(
    m: ExtensionManifest,
    granted: Set<crate::protocol::permissions::Permission>,
    advertised: Seq<Capability>,
    executable: Seq<char>,
)
    requires
        advertised.contains(Capability::ExecutionV1),
        granted.contains(crate::protocol::permissions::Permission::ProcessExecute),
    ensures
        verdict(m, granted, true, PROTOCOL_VERSION, Method::ExecutionRun, BodyView::ExecutionRun(Ok(executable)), advertised).0
            is Dispatch <==> exists|k: int|
            0 <= k < m.execution.allowed_executables@.len() && #[trigger] m.execution.allowed_executables@[k]@ == executable,
        !(exists|k: int|
            0 <= k < m.execution.allowed_executables@.len() && #[trigger] m.execution.allowed_executables@[k]@ == executable)
            ==> (verdict(m, granted, true, PROTOCOL_VERSION, Method::ExecutionRun, BodyView::ExecutionRun(Ok(executable)), advertised).0
                matches VerdictView::Refuse(e) && e.code == ErrorCode::PermissionDenied),
{
    let list = m.execution.allowed_executables@;
    if exists|k: int| 0 <= k < list.len() && #[trigger] list[k]@ == executable {
        let k = choose|k: int| 0 <= k < list.len() && #[trigger] list[k]@ == executable;
        assert(allowed(m)[k] == executable);
    }
    if allowed(m).contains(executable) {
        let k = choose|k: int| 0 <= k < allowed(m).len() && allowed(m)[k] == executable;
        assert(list[k]@ == executable);
    }
}


/// A plugin drives only the panels it declared: once a request has passed
/// the protocol, handshake, capability and permission gates,
/// `panel.setState` for a panel is dispatched exactly when some panel the
/// manifest declares has that id, and otherwise refused as a permission
/// denied.
pub proof fn lemma_exactly_the_declared_panels_are_driven(
    m: ExtensionManifest,
    granted: Set<crate::protocol::permissions::Permission>,
    advertised: Seq<Capability>,
    panel_id: Seq<char>,
)
    requires
        advertised.contains(Capability::PanelTreeV1),
        granted.contains(crate::protocol::permissions::Permission::UiPanel),
    ensures
        verdict(m, granted, true, PROTOCOL_VERSION, Method::PanelSetState, BodyView::PanelSetState(Ok(panel_id)), advertised).0
            is Dispatch <==> exists|k: int| 0 <= k < m.panels@.len() && #[trigger] m.panels@[k].id@ == panel_id,
        !(exists|k: int| 0 <= k < m.panels@.len() && #[trigger] m.panels@[k].id@ == panel_id)
            ==> (verdict(m, granted, true, PROTOCOL_VERSION, Method::PanelSetState, BodyView::PanelSetState(Ok(panel_id)), advertised).0
                matches VerdictView::Refuse(e) && e.code == ErrorCode::PermissionDenied),
{
    let list = m.panels@;
    if exists|k: int| 0 <= k < list.len() && #[trigger] list[k].id@ == panel_id {
        let k = choose|k: int| 0 <= k < list.len() && #[trigger] list[k].id@ == panel_id;
        assert(panel_ids(m)[k] == panel_id);
    }
    if panel_ids(m).contains(panel_id) {
        let k = choose|k: int| 0 <= k < panel_ids(m).len() && panel_ids(m)[k] == panel_id;
        assert(list[k].id@ == panel_id);
    }
}

} // verus!
