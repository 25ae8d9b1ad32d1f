use polybot::commands::{CommandTableBuilder, HandlerKind, Role, TableError, Transition};
use polybot::handlers::standard_commands;
use polybot::router::{apply_transition, route, route_at, Route};
use polybot::session::SessionRegistry;

fn invoke(r: Route) -> (HandlerKind, String, Transition) {
    match r {
        Route::Invoke { handler, argument, transition } => (handler, argument, transition),
        Route::Reply(t) => panic!("expected a handler, got reply {t}"),
    }
}

#[test]
fn first_message_creates_one_session_and_later_ones_reuse_it() {
    let table = standard_commands();
    let mut reg = SessionRegistry::new();
    let _ = route_at(&mut reg, &table, 7, "/dice", 100);
    assert_eq!(reg.len(), 1);
    let first = reg.get(7).unwrap();
    assert_eq!(first.last_activity, 100);
    assert!(!first.chat_mode);
    let _ = route_at(&mut reg, &table, 7, "/ip", 200);
    assert_eq!(reg.len(), 1);
    let later = reg.get(7).unwrap();
    assert_eq!(later.conversation, first.conversation);
    assert_eq!(later.last_activity, 200);
}

#[test]
fn conversation_handles_are_distinct() {
    let table = standard_commands();
    let mut reg = SessionRegistry::new();
    let _ = route_at(&mut reg, &table, 1, "hello", 0);
    let _ = route_at(&mut reg, &table, 2, "hello", 0);
    assert_eq!(reg.len(), 2);
    assert_ne!(reg.conversation_handle(1), reg.conversation_handle(2));
    assert_eq!(reg.conversation_handle(3), None);
}

#[test]
fn chat_enter_then_text_goes_to_conversation() {
    let table = standard_commands();
    let mut reg = SessionRegistry::new();
    let (h, arg, t) = invoke(route_at(&mut reg, &table, 5, "/chat be a pirate", 1));
    assert_eq!(h, HandlerKind::Chat);
    assert_eq!(arg, "be a pirate");
    assert_eq!(t, Transition::EnterChat);
    apply_transition(&mut reg, 5, t);
    assert!(reg.is_chat_mode(5));
    let (h, arg, t) = invoke(route_at(&mut reg, &table, 5, "  what   is /temp?", 2));
    assert_eq!(h, HandlerKind::Converse);
    assert_eq!(arg, "  what   is /temp?");
    assert_eq!(t, Transition::Keep);
    apply_transition(&mut reg, 5, t);
    assert!(reg.is_chat_mode(5));
}

#[test]
fn chat_exit_leaves_chat_mode() {
    let table = standard_commands();
    let mut reg = SessionRegistry::new();
    let (_, _, t) = invoke(route_at(&mut reg, &table, 5, "/chat", 1));
    apply_transition(&mut reg, 5, t);
    let (h, _, t) = invoke(route_at(&mut reg, &table, 5, "/endchat", 2));
    assert_eq!(h, HandlerKind::EndChat);
    assert_eq!(t, Transition::ExitChat);
    apply_transition(&mut reg, 5, t);
    assert!(!reg.is_chat_mode(5));
    // and again, when not in chat mode
    let (h, _, t) = invoke(route_at(&mut reg, &table, 5, "/endchat", 3));
    assert_eq!(h, HandlerKind::EndChat);
    apply_transition(&mut reg, 5, t);
    assert!(!reg.is_chat_mode(5));
}

#[test]
fn unknown_command_gets_fallback_reply() {
    let table = standard_commands();
    let mut reg = SessionRegistry::new();
    match route_at(&mut reg, &table, 9, "/frobnicate", 0) {
        Route::Reply(t) => assert_eq!(t, "Did not understand!"),
        other => panic!("unexpected {other:?}"),
    }
    match route_at(&mut reg, &table, 9, "   ", 0) {
        Route::Reply(t) => assert_eq!(t, "Did not understand!"),
        other => panic!("unexpected {other:?}"),
    }
    assert_eq!(reg.len(), 1);
}

#[test]
fn command_lookup_is_case_sensitive() {
    let table = standard_commands();
    let mut reg = SessionRegistry::new();
    match route_at(&mut reg, &table, 9, "/Temp Berlin", 0) {
        Route::Reply(t) => assert_eq!(t, "Did not understand!"),
        other => panic!("unexpected {other:?}"),
    }
    let (h, arg, _) = invoke(route_at(&mut reg, &table, 9, "/temp   Bad   Homburg ", 0));
    assert_eq!(h, HandlerKind::Temp);
    assert_eq!(arg, "Bad Homburg");
    assert!(table.lookup("/Temp").is_none());
    assert!(table.lookup("/temp").is_some());
}

#[test]
fn two_users_are_routed_independently() {
    let table = standard_commands();
    let mut reg = SessionRegistry::new();
    let (_, _, t) = invoke(route_at(&mut reg, &table, 1, "/chat", 0));
    apply_transition(&mut reg, 1, t);
    let (h1, _, _) = invoke(route_at(&mut reg, &table, 1, "/dice", 1));
    let (h2, _, _) = invoke(route_at(&mut reg, &table, 2, "/dice", 1));
    assert_eq!(h1, HandlerKind::Converse);
    assert_eq!(h2, HandlerKind::Dice);
    assert!(reg.is_chat_mode(1));
    assert!(!reg.is_chat_mode(2));
}

#[test]
fn route_stamps_current_time() {
    let table = standard_commands();
    let mut reg = SessionRegistry::new();
    let (h, _, _) = invoke(route(&mut reg, &table, 3, "/ip"));
    assert_eq!(h, HandlerKind::Ip);
    assert!(reg.get(3).unwrap().last_activity > 1_600_000_000);
}

#[test]
fn partial_chat_commands_fail_validation() {
    for role in [Role::ChatEnter, Role::ChatExit, Role::ConversationDefault] {
        let mut b = CommandTableBuilder::new();
        b.register("/ip", HandlerKind::Ip, Role::Plain);
        b.register("/x", HandlerKind::Chat, role);
        assert_eq!(b.build().unwrap_err(), TableError::PartialChatCommands);
    }
    let mut b = CommandTableBuilder::new();
    b.register("/chat", HandlerKind::Chat, Role::ChatEnter);
    b.register("/endchat", HandlerKind::EndChat, Role::ChatExit);
    assert_eq!(b.build().unwrap_err(), TableError::PartialChatCommands);
}

#[test]
fn table_without_chat_commands_is_valid() {
    let mut b = CommandTableBuilder::new();
    b.register("/ip", HandlerKind::Ip, Role::Plain);
    b.register("/dice", HandlerKind::Dice, Role::Plain);
    b.register("/ip", HandlerKind::Temp, Role::Plain);
    let t = b.build().unwrap();
    assert_eq!(t.tokens(), vec!["/ip".to_string(), "/dice".to_string()]);
    assert_eq!(t.lookup("/ip").unwrap().handler, HandlerKind::Temp);
    assert_eq!(t.chat_start_command(), None);
    assert_eq!(t.chat_exit_command(), None);
    assert_eq!(t.llm_request_command(), None);
}

#[test]
fn standard_table_designations() {
    let t = standard_commands();
    assert_eq!(t.chat_start_command(), Some("/chat"));
    assert_eq!(t.chat_exit_command(), Some("/endchat"));
    assert_eq!(t.llm_request_command(), Some("/chain"));
    assert_eq!(t.tokens().len(), 8);
    assert_eq!(t.lookup("/chat").unwrap().transition(), Transition::EnterChat);
    assert_eq!(t.lookup("/dice").unwrap().transition(), Transition::Keep);
}

#[test]
fn exit_prefix_in_chat_mode_uses_normal_parsing() {
    let table = standard_commands();
    let mut reg = SessionRegistry::new();
    let (_, _, t) = invoke(route_at(&mut reg, &table, 4, "/chat", 0));
    apply_transition(&mut reg, 4, t);
    match route_at(&mut reg, &table, 4, "/endchatnow", 1) {
        Route::Reply(t) => assert_eq!(t, "Did not understand!"),
        other => panic!("unexpected {other:?}"),
    }
    assert!(reg.is_chat_mode(4));
}
