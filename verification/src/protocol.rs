//! The two-phase provisioning protocol: request shapes and the per-invocation
//! state machine that sequences the creation and install calls.

use vstd::prelude::*;
use crate::error::{error_text, CallError};
use crate::identity::{copy_bytes, text_of, InstanceId};

verus! {

/// Cycles attached to every creation call: the fixed resource payment the
/// caller pre-funds for the orchestrator to perform the creation.
pub const CREATION_PAYMENT: u128 = 7_692_307_692;

/// The single placeholder byte handed to the installed code as its
/// initialization argument (an ASCII space).
pub const INIT_ARG_BYTE: u8 = 32;

/// The identities permitted to administer an instance. No resource quotas
/// accompany them: allocations and the freezing threshold stay unset.
pub struct OwnershipSettings {
    pub controllers: Vec<InstanceId>,
}

/// The identifiers of the controllers, as a mathematical sequence.
pub open spec fn controller_views(s: OwnershipSettings) -> Seq<Seq<u8>> {
    s.controllers@.map_values(|c: InstanceId| c@)
}

impl OwnershipSettings {
    /// Ownership for a newly created instance: exactly the invoking caller
    /// and the provisioning instance itself, in that order, so the
    /// provisioner retains administrative rights over what it creates.
    pub fn for_creation(caller: InstanceId, self_id: InstanceId) -> (r: OwnershipSettings)
        ensures
            controller_views(r) == seq![caller@, self_id@],
    {
        let ghost caller_view = caller@;
        let ghost self_view = self_id@;
        let r = OwnershipSettings { controllers: vec![caller, self_id] };
        proof {
            assert(controller_views(r) =~= seq![caller_view, self_view]);
        }
        r
    }
}

/// Input to the creation phase.
pub struct CreationRequest {
    pub settings: OwnershipSettings,
}

/// How a code payload is loaded into an instance. The current flow uses
/// `Install` for fresh deployment; the other two modes belong to the
/// orchestrator's contract but go unused here.
pub enum InstallMode {
    Install,
    Reinstall,
    Upgrade,
}

/// Input to the install phase.
pub struct InstallRequest {
    pub mode: InstallMode,
    pub target: InstanceId,
    pub wasm_module: Vec<u8>,
    pub arg: Vec<u8>,
}

/// Startup configuration: a name for this instance and a code payload to
/// deploy, each with a clearly unset state. While the payload is unset,
/// provisioning falls back to a build-time payload.
pub struct Config {
    pub name: Option<String>,
    pub payload: Option<Vec<u8>>,
}

impl Config {
    /// The configuration with nothing populated.
    pub fn unset() -> (r: Config)
        ensures
            r.name is None,
            r.payload is None,
    {
        Config { name: None, payload: None }
    }
}

/// Where one invocation stands: creation strictly precedes installation,
/// and either phase may end the run with a reported error.
pub enum FlowState {
    /// No invocation handled yet.
    Idle,
    /// The creation call has been issued; its reply is awaited.
    Creating,
    /// Creation succeeded; the install call for `new_id` has been issued.
    Installing { new_id: InstanceId },
    /// Terminal: the outcome reported to the caller.
    Done { outcome: String },
}

/// What the surrounding runtime tells the flow.
pub enum Event {
    /// The caller invoked the entry point.
    Invoke { caller: InstanceId },
    /// The orchestrator answered the creation call.
    CreationReply { reply: Result<InstanceId, CallError> },
    /// The orchestrator answered the install call.
    InstallReply { reply: Result<(), CallError> },
}

/// What the surrounding runtime must do next.
pub enum Action {
    /// Issue the creation call, attaching `payment` cycles.
    IssueCreation { request: CreationRequest, payment: u128 },
    /// Issue the install call.
    IssueInstall { request: InstallRequest },
    /// Report the final outcome to the caller; the run is over.
    Report { outcome: String },
}

/// One invocation of the provisioning entry point: the identity of the
/// provisioning instance, the code payload bound for the new instance, and
/// the invocation's current state. Invocations share nothing with each
/// other.
pub struct Flow {
    pub self_id: InstanceId,
    pub payload: Vec<u8>,
    pub state: FlowState,
}

/// Identifiers carried by an event stay within the orchestrator's bound.
pub open spec fn event_wf(event: Event) -> bool {
    match event {
        Event::Invoke { caller } => caller.wf(),
        Event::CreationReply { reply } => match reply {
            Ok(new_id) => new_id.wf(),
            Err(_) => true,
        },
        Event::InstallReply { reply: _ } => true,
    }
}

/// The full transition relation of one invocation. Each state accepts
/// exactly one kind of event; everything else is not a transition.
///
/// The install call targets the instance returned by the creation call —
/// a deliberate choice: installing into the provisioning instance itself
/// would leave the new instance empty and serve no purpose here.
pub open spec fn step_spec(pre: Flow, event: Event, post: Flow, action: Action) -> bool {
    &&& post.self_id == pre.self_id
    &&& post.payload == pre.payload
    &&& match (pre.state, event) {
        (FlowState::Idle, Event::Invoke { caller }) => {
            &&& post.state is Creating
            &&& action matches Action::IssueCreation { request, payment }
            &&& controller_views(request.settings) == seq![caller@, pre.self_id@]
            &&& payment == CREATION_PAYMENT
        },
        (FlowState::Creating, Event::CreationReply { reply: Ok(new_id) }) => {
            &&& (post.state matches FlowState::Installing { new_id: stored } && stored@ == new_id@)
            &&& action matches Action::IssueInstall { request }
            &&& request.mode is Install
            &&& request.target@ == new_id@
            &&& request.wasm_module@ == pre.payload@
            &&& request.arg@ == seq![INIT_ARG_BYTE]
        },
        (FlowState::Creating, Event::CreationReply { reply: Err(e) }) => {
            &&& (post.state matches FlowState::Done { outcome } && outcome@ == error_text(
                e.code,
                e.message@,
            ))
            &&& (action matches Action::Report { outcome } && outcome@ == error_text(
                e.code,
                e.message@,
            ))
        },
        (FlowState::Installing { new_id }, Event::InstallReply { reply: Ok(_) }) => {
            &&& (post.state matches FlowState::Done { outcome } && outcome@ == text_of(new_id@))
            &&& (action matches Action::Report { outcome } && outcome@ == text_of(new_id@))
        },
        (FlowState::Installing { new_id: _ }, Event::InstallReply { reply: Err(e) }) => {
            &&& (post.state matches FlowState::Done { outcome } && outcome@ == error_text(
                e.code,
                e.message@,
            ))
            &&& (action matches Action::Report { outcome } && outcome@ == error_text(
                e.code,
                e.message@,
            ))
        },
        _ => false,
    }
}

impl Flow {
    /// Flows, and the identifiers they carry, stay within the
    /// orchestrator's bound.
    pub open spec fn wf(&self) -> bool {
        &&& self.self_id.wf()
        &&& match self.state {
            FlowState::Installing { new_id } => new_id.wf(),
            _ => true,
        }
    }

    /// Which events this flow can consume next.
    pub open spec fn accepts(&self, event: Event) -> bool {
        match (self.state, event) {
            (FlowState::Idle, Event::Invoke { .. }) => true,
            (FlowState::Creating, Event::CreationReply { .. }) => true,
            (FlowState::Installing { .. }, Event::InstallReply { .. }) => true,
            _ => false,
        }
    }

    /// A fresh flow for one invocation. The code payload comes from the
    /// configuration when one was stored there, else from the build-time
    /// `default_payload`.
    pub fn new(self_id: InstanceId, config: Config, default_payload: Vec<u8>) -> (r: Flow)
        requires
            self_id.wf(),
        ensures
            r.state is Idle,
            r.self_id == self_id,
            r.wf(),
            (match config.payload {
                Some(p) => r.payload == p,
                None => r.payload == default_payload,
            }),
    {
        let payload = match config.payload {
            Some(p) => p,
            None => default_payload,
        };
        Flow { self_id, payload, state: FlowState::Idle }
    }

    /// Consumes one event and decides the next action. The surrounding
    /// runtime performs the action and feeds the reply back as the next
    /// event; the flow itself never touches the network.
    pub fn step(self, event: Event) -> (r: (Flow, Action))
        requires
            self.wf(),
            self.accepts(event),
            event_wf(event),
        ensures
            step_spec(self, event, r.0, r.1),
            r.0.wf(),
    {
        let Flow { self_id, payload, state } = self;
        match (state, event) {
            (FlowState::Idle, Event::Invoke { caller }) => {
                let settings = OwnershipSettings::for_creation(caller, self_id.duplicate());
                let request = CreationRequest { settings };
                let flow = Flow { self_id, payload, state: FlowState::Creating };
                (flow, Action::IssueCreation { request, payment: CREATION_PAYMENT })
            },
            (FlowState::Creating, Event::CreationReply { reply }) => match reply {
                Ok(new_id) => {
                    let target = new_id.duplicate();
                    let wasm_module = copy_bytes(&payload);
                    let arg = init_arg();
                    let request = InstallRequest {
                        mode: InstallMode::Install,
                        target,
                        wasm_module,
                        arg,
                    };
                    let flow = Flow { self_id, payload, state: FlowState::Installing { new_id } };
                    (flow, Action::IssueInstall { request })
                },
                Err(e) => {
                    let outcome = e.render();
                    let reported = outcome.clone();
                    let flow = Flow { self_id, payload, state: FlowState::Done { outcome } };
                    (flow, Action::Report { outcome: reported })
                },
            },
            (FlowState::Installing { new_id }, Event::InstallReply { reply }) => match reply {
                Ok(_) => {
                    let outcome = new_id.to_text();
                    let reported = outcome.clone();
                    let flow = Flow { self_id, payload, state: FlowState::Done { outcome } };
                    (flow, Action::Report { outcome: reported })
                },
                Err(e) => {
                    let outcome = e.render();
                    let reported = outcome.clone();
                    let flow = Flow { self_id, payload, state: FlowState::Done { outcome } };
                    (flow, Action::Report { outcome: reported })
                },
            },
            _ => unreached(),
        }
    }
}

/// The fixed initialization argument: one placeholder byte.
fn init_arg() -> (r: Vec<u8>)
    ensures
        r@ == seq![INIT_ARG_BYTE],
{
    let mut r: Vec<u8> = Vec::new();
    r.push(INIT_ARG_BYTE);
    proof {
        assert(r@ =~= seq![INIT_ARG_BYTE]);
    }
    r
}

/// Sequencing law: the only transition that issues an install call is the
/// one that consumes a successful creation reply, so within one invocation
/// the install call is never issued before creation has succeeded — and it
/// targets exactly the instance that creation returned.
pub proof fn lemma_install_only_after_creation(pre: Flow, event: Event, post: Flow, action: Action)
    requires
        step_spec(pre, event, post, action),
        action is IssueInstall,
    ensures
        pre.state is Creating,
        (event matches Event::CreationReply { reply } && reply is Ok),
        (action matches Action::IssueInstall { request } && (event
            matches Event::CreationReply { reply: Ok(new_id) } && request.target@ == new_id@)),
{
}

/// Ownership law: whatever the caller, the settings handed to the creation
/// call hold exactly the invoking caller's identity and the provisioning
/// instance's own identity, in that order, with the fixed payment attached.
pub proof fn lemma_ownership(pre: Flow, event: Event, post: Flow, action: Action)
    requires
        step_spec(pre, event, post, action),
        pre.state is Idle,
    ensures
        (event matches Event::Invoke { caller } && (action
            matches Action::IssueCreation { request, payment } && controller_views(request.settings)
            == seq![caller@, pre.self_id@] && payment == CREATION_PAYMENT)),
{
}

/// Error short-circuit law, phase one: a failed creation ends the run at
/// once with the formatted error as the final outcome, and no install call
/// is issued.
pub proof fn lemma_creation_error_short_circuit(pre: Flow, e: CallError, post: Flow, action: Action)
    requires
        step_spec(pre, (Event::CreationReply { reply: Err(e) }), post, action),
    ensures
        (post.state matches FlowState::Done { outcome } && outcome@ == error_text(
            e.code,
            e.message@,
        )),
        (action matches Action::Report { outcome } && outcome@ == error_text(e.code, e.message@)),
        !(action is IssueInstall),
{
}

/// Error short-circuit law, phase two: when creation has succeeded but the
/// install call fails, the final outcome is the formatted install error —
/// the run does not report the new instance's identifier.
pub proof fn lemma_install_error_short_circuit(pre: Flow, e: CallError, post: Flow, action: Action)
    requires
        step_spec(pre, (Event::InstallReply { reply: Err(e) }), post, action),
    ensures
        (post.state matches FlowState::Done { outcome } && outcome@ == error_text(
            e.code,
            e.message@,
        )),
        (action matches Action::Report { outcome } && outcome@ == error_text(e.code, e.message@)),
{
}

/// Success law: when both calls have succeeded, the final outcome is
/// exactly the textual form of the identifier that the creation call
/// returned.
pub proof fn lemma_success_reports_identifier(pre: Flow, post: Flow, action: Action)
    requires
        step_spec(pre, (Event::InstallReply { reply: Ok(()) }), post, action),
    ensures
        (pre.state matches FlowState::Installing { new_id } && (post.state
            matches FlowState::Done { outcome } && outcome@ == text_of(new_id@))),
        (pre.state matches FlowState::Installing { new_id } && (action
            matches Action::Report { outcome } && outcome@ == text_of(new_id@))),
{
}

/// The textual identifier of the currently running instance.
pub fn my_canister_id(self_id: &InstanceId) -> (r: String)
    requires
        self_id.wf(),
    ensures
        r@ == text_of(self_id@),
{
    self_id.to_text()
}

} // verus!
