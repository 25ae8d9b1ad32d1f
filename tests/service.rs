use polybot::commands::HandlerKind;
use polybot::handlers::{
    affirm_reply, agent_reply, ask_without_question, chat_prompt, chat_reply, dice,
    endchat_reply, ip_reply, standard_commands, temp_city, temp_reply, AgentOutcome,
};
use polybot::plant::{plant_message, MoistureWindow, PlantAction};
use polybot::supervisor::{
    monitor_step, orchestrator_step, webhook_event, MonitorAction, MonitorEvent, MonitorState,
    OrchestratorAction, OrchestratorEvent, Phase, SHUTDOWN_GRACE_SECS,
};
use polybot::types::{Response, Scope, Webhook};
use polybot::webhook::{
    api_url, command_set, decode_payload, get_webhook_ips, status_for, webhook_state,
    webhook_url, HttpStatus, WebhookError,
};

#[test]
fn malformed_payload_is_bad_request() {
    let r = decode_payload(vec![0x7b, 0xff, 0xfe, 0x7d]);
    assert_eq!(r.unwrap_err(), HttpStatus::BadRequest);
    assert_eq!(HttpStatus::BadRequest.code(), 400);
    // a lone surrogate encoding is not UTF-8 either
    assert!(decode_payload(vec![0xed, 0xa0, 0x80]).is_err());
}

#[test]
fn valid_payload_is_decoded() {
    let r = decode_payload("{\"update_id\": 1, \"text\": \"grüß\"}".as_bytes().to_vec());
    assert_eq!(r.unwrap(), "{\"update_id\": 1, \"text\": \"grüß\"}");
    assert_eq!(status_for(true).code(), 200);
    assert_eq!(status_for(false), HttpStatus::InternalServerError);
    assert_eq!(status_for(false).code(), 500);
}

fn webhook(ip: Option<&str>, custom: bool) -> Webhook {
    Webhook {
        url: "https://1.2.3.4".to_string(),
        has_custom_certificate: custom,
        pending_update_count: 0,
        max_connections: 40,
        ip_address: ip.map(|s| s.to_string()),
    }
}

#[test]
fn webhook_state_compares_ip_and_certificate() {
    let ok = |w| Response { ok: true, result: w };
    assert_eq!(webhook_state(&ok(webhook(Some("1.2.3.4"), true)), "1.2.3.4"), Ok(true));
    assert_eq!(webhook_state(&ok(webhook(Some("1.2.3.4"), false)), "1.2.3.4"), Ok(false));
    assert_eq!(webhook_state(&ok(webhook(Some("1.2.3.5"), true)), "1.2.3.4"), Ok(false));
    assert_eq!(
        webhook_state(&ok(webhook(None, true)), "1.2.3.4"),
        Err(WebhookError::Unreadable)
    );
    let bad = Response { ok: false, result: webhook(Some("1.2.3.4"), true) };
    assert_eq!(webhook_state(&bad, "1.2.3.4"), Err(WebhookError::Unreadable));
}

#[test]
fn urls() {
    assert_eq!(api_url("SECRET-REDACTED", "sendMessage"), "https://api.telegram.org/botSECRET-REDACTED/sendMessage");
    assert_eq!(webhook_url("1.2.3.4"), "https://1.2.3.4");
    assert_eq!(get_webhook_ips()[4], "149.154.16?.*");
    assert_eq!(get_webhook_ips().len(), 6);
}

#[test]
fn published_command_list() {
    let set = command_set(&standard_commands());
    assert_eq!(set.commands.len(), 8);
    assert_eq!(set.commands[0].command, "/ip");
    assert_eq!(set.commands[7].description, "/dice");
    assert_eq!(set.metadata.scope.scope_type, Scope::BotCommandScopeDefault);
    assert!(set.metadata.language_code.is_empty());
}

#[test]
fn monitor_full_round_signals_dirty() {
    let (s, a) = monitor_step(MonitorState::Idle, MonitorEvent::Tick);
    assert_eq!(a, MonitorAction::LookupIp);
    let (s, a) = monitor_step(s, MonitorEvent::IpFound("5.6.7.8".to_string()));
    assert_eq!(a, MonitorAction::QueryWebhook("5.6.7.8".to_string()));
    let (s, a) = monitor_step(s, webhook_event::<()>(Ok(false)));
    assert_eq!(a, MonitorAction::IssueCertificate("5.6.7.8".to_string()));
    let (s, a) = monitor_step(s, MonitorEvent::CertificateIssued);
    assert_eq!(a, MonitorAction::RegisterWebhook("5.6.7.8".to_string()));
    let (s, a) = monitor_step(s, MonitorEvent::Registered);
    assert_eq!(a, MonitorAction::SignalDirty);
    assert_eq!(s, MonitorState::Idle);
}

#[test]
fn monitor_failures_wait_for_next_round() {
    let (s, a) = monitor_step(MonitorState::LookingUp, MonitorEvent::IpLookupFailed);
    assert_eq!((s, a), (MonitorState::Idle, MonitorAction::Sleep));
    let checking = MonitorState::Checking("1.1.1.1".to_string());
    let (s, a) = monitor_step(checking.clone(), webhook_event::<()>(Ok(true)));
    assert_eq!((s, a), (MonitorState::Idle, MonitorAction::Sleep));
    let (_, a) = monitor_step(checking, webhook_event(Err("timeout")));
    assert_eq!(a, MonitorAction::IssueCertificate("1.1.1.1".to_string()));
    let (s, a) = monitor_step(MonitorState::Issuing("1.1.1.1".to_string()), MonitorEvent::CertificateFailed);
    assert_eq!((s, a), (MonitorState::Idle, MonitorAction::Sleep));
    let (s, a) = monitor_step(MonitorState::Registering("1.1.1.1".to_string()), MonitorEvent::RegistrationFailed);
    assert_eq!((s, a), (MonitorState::Idle, MonitorAction::Sleep));
}

#[test]
fn orchestrator_swaps_listener_on_dirty_signal() {
    let (p, a) = orchestrator_step(Phase::Serving, OrchestratorEvent::Dirty);
    assert_eq!(a, OrchestratorAction::StopListener(SHUTDOWN_GRACE_SECS));
    assert_eq!(SHUTDOWN_GRACE_SECS, 3);
    let (p, a) = orchestrator_step(p, OrchestratorEvent::Dirty);
    assert_eq!(a, OrchestratorAction::Wait);
    let (p, a) = orchestrator_step(p, OrchestratorEvent::ListenerExited);
    assert_eq!(a, OrchestratorAction::BindListener);
    assert_eq!(p, Phase::Binding { failures: 0 });
    let (p, a) = orchestrator_step(p, OrchestratorEvent::ListenerBound);
    assert_eq!(a, OrchestratorAction::StartListener);
    assert_eq!(p, Phase::Serving);
}

#[test]
fn orchestrator_fatal_and_auxiliary_events() {
    let (p, a) = orchestrator_step(Phase::Serving, OrchestratorEvent::AuxiliaryExited);
    assert_eq!((p, a), (Phase::Serving, OrchestratorAction::RestartAuxiliary));
    let (p, a) = orchestrator_step(Phase::Serving, OrchestratorEvent::ListenerExited);
    assert_eq!((p, a), (Phase::Stopped, OrchestratorAction::Shutdown));
    let (p, a) = orchestrator_step(p, OrchestratorEvent::Dirty);
    assert_eq!((p, a), (Phase::Stopped, OrchestratorAction::Wait));
}

#[test]
fn orchestrator_gives_up_after_three_bind_failures() {
    let mut p = Phase::Binding { failures: 0 };
    let (q, a) = orchestrator_step(p, OrchestratorEvent::BindFailed);
    assert_eq!((q, a), (Phase::Binding { failures: 1 }, OrchestratorAction::BindListener));
    p = q;
    let (q, a) = orchestrator_step(p, OrchestratorEvent::BindFailed);
    assert_eq!((q, a), (Phase::Binding { failures: 2 }, OrchestratorAction::BindListener));
    let (q, a) = orchestrator_step(q, OrchestratorEvent::BindFailed);
    assert_eq!((q, a), (Phase::Stopped, OrchestratorAction::Shutdown));
}

#[test]
fn handler_replies() {
    assert_eq!(ip_reply(Some("8.8.8.8".to_string())), "8.8.8.8");
    assert_eq!(ip_reply(None), "Error getting the Ip address");
    assert_eq!(temp_city("", "Lehnitz"), "Lehnitz");
    assert_eq!(temp_city("Bizerte", "Lehnitz"), "Bizerte");
    assert_eq!(temp_reply(None), "Error getting the temp");
    assert_eq!(temp_reply(Some("21.5".to_string())), "21.5");
    assert_eq!(affirm_reply(None), "Problem getting the affirmation :(");
    assert_eq!(affirm_reply(Some("You are awesome!".to_string())), "You are awesome!");
    assert_eq!(agent_reply(AgentOutcome::Answer("42".to_string())), "42");
    assert_eq!(agent_reply(AgentOutcome::RequestFailed), "Problem getting the agent response");
    assert_eq!(
        agent_reply(AgentOutcome::Unavailable),
        "Could not create the llm agent, check the API key"
    );
    assert_eq!(ask_without_question(""), Some("Ask something!".to_string()));
    assert_eq!(ask_without_question("why?"), None);
    assert!(chat_prompt("").starts_with("You are an intelligent cat named Nami"));
    assert_eq!(chat_prompt("be terse"), "be terse");
    assert_eq!(chat_reply(true), "Let's chat!");
    assert_eq!(chat_reply(false), "Error during initializing the chat!");
    assert_eq!(endchat_reply(), "See ya!");
}

#[test]
fn dice_rolls_one_to_six() {
    for _ in 0..200 {
        let d = dice();
        let n: u32 = d.parse().unwrap();
        assert!((1..=6).contains(&n), "rolled {d}");
    }
    assert_eq!(standard_commands().lookup("/dice").unwrap().handler, HandlerKind::Dice);
}

#[test]
fn moisture_window_decides_every_twelve_readings() {
    let mut w = MoistureWindow::new();
    for _ in 0..11 {
        assert_eq!(w.record(2000), PlantAction::Nothing);
    }
    assert_eq!(w.record(2012), PlantAction::Water(2001));
    for _ in 0..11 {
        assert_eq!(w.record(1000), PlantAction::Nothing);
    }
    assert_eq!(w.record(1000), PlantAction::TooWet(1000));
    for _ in 0..12 {
        w.record(1700);
    }
    for _ in 0..11 {
        w.record(u32::MAX);
    }
    assert_eq!(w.record(u32::MAX), PlantAction::Water(u32::MAX));
}

#[test]
fn moisture_thresholds_are_inclusive() {
    let mut w = MoistureWindow::new();
    let mut last = PlantAction::Nothing;
    for _ in 0..12 {
        last = w.record(1900);
    }
    assert_eq!(last, PlantAction::Water(1900));
    for _ in 0..12 {
        last = w.record(1500);
    }
    assert_eq!(last, PlantAction::TooWet(1500));
    for _ in 0..12 {
        last = w.record(1501);
    }
    assert_eq!(last, PlantAction::Nothing);
}

#[test]
fn plant_messages() {
    assert_eq!(
        plant_message(PlantAction::Water(1950)).unwrap(),
        "Moisture now is 1950. Watering the plant!"
    );
    assert_eq!(plant_message(PlantAction::TooWet(1200)).unwrap(), "Coleus is too wet!");
    assert_eq!(plant_message(PlantAction::Nothing), None);
}
