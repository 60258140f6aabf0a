use dynamic_canisters_backend::error::CallError;
use dynamic_canisters_backend::identity::InstanceId;
use dynamic_canisters_backend::protocol::{
    my_canister_id, Action, Config, Event, Flow, InstallMode, CREATION_PAYMENT,
};

fn id(bytes: &[u8]) -> InstanceId {
    InstanceId::from_bytes(bytes.to_vec()).expect("identifier within bound")
}

fn call_error(code: u32, message: &str) -> CallError {
    CallError {
        code,
        message: message.to_string(),
    }
}

/// Runs one full invocation: `created` is the creation call's reply,
/// `install` the install call's reply (ignored when creation failed).
/// Returns the final outcome string.
fn run_invocation(
    caller: &[u8],
    self_bytes: &[u8],
    created: Result<&[u8], (u32, &str)>,
    install: Result<(), (u32, &str)>,
) -> String {
    let flow = Flow::new(id(self_bytes), Config::unset(), vec![0, 97, 115, 109]);
    let (flow, action) = flow.step(Event::Invoke { caller: id(caller) });
    assert!(matches!(action, Action::IssueCreation { .. }));
    let reply = match created {
        Ok(bytes) => Ok(id(bytes)),
        Err((code, message)) => Err(call_error(code, message)),
    };
    let (flow, action) = flow.step(Event::CreationReply { reply });
    match action {
        Action::Report { outcome } => return outcome,
        Action::IssueInstall { .. } => {}
        Action::IssueCreation { .. } => panic!("creation issued twice"),
    }
    let reply = match install {
        Ok(()) => Ok(()),
        Err((code, message)) => Err(call_error(code, message)),
    };
    let (_, action) = flow.step(Event::InstallReply { reply });
    match action {
        Action::Report { outcome } => outcome,
        _ => panic!("run did not finish"),
    }
}

#[test]
fn success_reports_created_identifier() {
    // Caller C, self S; creation returns the anonymous identifier; install
    // succeeds: the outcome is the textual form of the created identifier.
    let outcome = run_invocation(&[9], &[1, 2], Ok(&[4]), Ok(()));
    assert_eq!(outcome, "2vxsx-fae");
}

#[test]
fn creation_failure_reports_error_and_skips_install() {
    let flow = Flow::new(id(&[1, 2]), Config::unset(), vec![1]);
    let (flow, _) = flow.step(Event::Invoke { caller: id(&[9]) });
    let (_, action) = flow.step(Event::CreationReply {
        reply: Err(call_error(5, "insufficient cycles")),
    });
    // The very next action already reports; no install call is issued.
    match action {
        Action::Report { outcome } => {
            assert_eq!(outcome, "An error happened during the call: 5: insufficient cycles");
        }
        _ => panic!("expected an immediate report"),
    }
}

#[test]
fn install_failure_reports_error_not_identifier() {
    let outcome = run_invocation(
        &[9],
        &[1, 2],
        Ok(&[4]),
        Err((3, "no update method 'install_code'")),
    );
    assert_eq!(
        outcome,
        "An error happened during the call: 3: no update method 'install_code'"
    );
    assert_ne!(outcome, "2vxsx-fae");
}

#[test]
fn ownership_holds_caller_then_self() {
    let caller_bytes = vec![7, 7, 7];
    let self_bytes = vec![1, 2];
    let flow = Flow::new(id(&self_bytes), Config::unset(), vec![1]);
    let (_, action) = flow.step(Event::Invoke {
        caller: id(&caller_bytes),
    });
    match action {
        Action::IssueCreation { request, payment } => {
            assert_eq!(payment, CREATION_PAYMENT);
            assert_eq!(payment, 7_692_307_692);
            let controllers = &request.settings.controllers;
            assert_eq!(controllers.len(), 2);
            assert_eq!(controllers[0].as_bytes(), &caller_bytes);
            assert_eq!(controllers[1].as_bytes(), &self_bytes);
        }
        _ => panic!("expected the creation call"),
    }
}

#[test]
fn install_request_shape() {
    let payload = vec![0, 97, 115, 109, 1, 0, 0, 0];
    let flow = Flow::new(id(&[1, 2]), Config::unset(), payload.clone());
    let (flow, _) = flow.step(Event::Invoke { caller: id(&[9]) });
    let created = vec![10, 20, 30];
    let (_, action) = flow.step(Event::CreationReply {
        reply: Ok(id(&created)),
    });
    match action {
        Action::IssueInstall { request } => {
            assert!(matches!(request.mode, InstallMode::Install));
            assert_eq!(request.target.as_bytes(), &created);
            assert_eq!(request.wasm_module, payload);
            assert_eq!(request.arg, b" ".to_vec());
        }
        _ => panic!("expected the install call"),
    }
}

#[test]
fn configured_payload_overrides_default() {
    let stored = vec![9, 9, 9];
    let config = Config {
        name: None,
        payload: Some(stored.clone()),
    };
    let flow = Flow::new(id(&[1]), config, vec![1, 2, 3]);
    let (flow, _) = flow.step(Event::Invoke { caller: id(&[9]) });
    let (_, action) = flow.step(Event::CreationReply { reply: Ok(id(&[4])) });
    match action {
        Action::IssueInstall { request } => {
            assert_eq!(request.wasm_module, stored);
        }
        _ => panic!("expected the install call"),
    }
}

#[test]
fn repeated_invocations_report_distinct_identifiers() {
    // Not idempotent: each successful invocation reports the instance the
    // orchestrator allocated for it, and distinct instances render
    // distinctly.
    let first = run_invocation(&[9], &[1, 2], Ok(&[1]), Ok(()));
    let second = run_invocation(&[9], &[1, 2], Ok(&[2]), Ok(()));
    assert_ne!(first, second);
}

#[test]
fn identifier_text_matches_candid() {
    let bytes = vec![0, 0, 0, 0, 0, 48, 0, 212, 1, 1];
    let ours = id(&bytes).to_text();
    let reference = candid::Principal::from_slice(&bytes).to_text();
    assert_eq!(ours, reference);
}

#[test]
fn identifier_text_of_empty_bytes() {
    assert_eq!(id(&[]).to_text(), "aaaaa-aa");
}

#[test]
fn my_canister_id_renders_self() {
    assert_eq!(my_canister_id(&id(&[4])), "2vxsx-fae");
}

#[test]
fn over_long_identifier_rejected() {
    assert!(InstanceId::from_bytes(vec![1; 30]).is_none());
    assert!(InstanceId::from_bytes(vec![1; 29]).is_some());
}

#[test]
fn error_text_edge_codes() {
    assert_eq!(
        call_error(0, "").render(),
        "An error happened during the call: 0: "
    );
    assert_eq!(
        call_error(4294967295, "x").render(),
        "An error happened during the call: 4294967295: x"
    );
    assert_eq!(
        call_error(100, "trailing zero").render(),
        "An error happened during the call: 100: trailing zero"
    );
}
