use polybot::text::{
    decimal_string, get_cmd_struct_name, same_text, split_command, starts_with, to_camel_case,
};
use polybot::types::{
    BotMessage, BotMessages, Chat, ConfigError, Message, Scope, ServerConfig, User,
};

#[test]
fn split_command_words() {
    assert_eq!(split_command("/temp  Bad\tHomburg  "), (Some("/temp".to_string()), "Bad Homburg".to_string()));
    assert_eq!(split_command("   "), (None, String::new()));
    assert_eq!(split_command(""), (None, String::new()));
    assert_eq!(split_command("hello"), (Some("hello".to_string()), String::new()));
    assert_eq!(split_command("\u{3000}a\u{a0}b c"), (Some("a".to_string()), "b c".to_string()));
}

#[test]
fn prefix_and_equality() {
    assert!(starts_with("/endchat now", "/endchat"));
    assert!(!starts_with("/end", "/endchat"));
    assert!(starts_with("abc", ""));
    assert!(same_text("/ip", "/ip"));
    assert!(!same_text("/ip", "/IP"));
}

#[test]
fn camel_case_names() {
    assert_eq!(to_camel_case("get_ip"), "GetIp");
    assert_eq!(to_camel_case("end-chat now"), "EndChatNow");
    assert_eq!(to_camel_case("__x"), "X");
    assert_eq!(to_camel_case(""), "");
    assert_eq!(get_cmd_struct_name("/dice"), "DiceHandler");
    assert_eq!(get_cmd_struct_name("//get_ip"), "GetIpHandler");
}

#[test]
fn decimal_rendering() {
    assert_eq!(decimal_string(0), "0");
    assert_eq!(decimal_string(6), "6");
    assert_eq!(decimal_string(1900), "1900");
    assert_eq!(decimal_string(u64::MAX), "18446744073709551615");
}

#[test]
fn scope_names() {
    assert_eq!(Scope::default().wire_name(), "default");
    assert_eq!(Scope::BotCommandScopeAllChatAdministrators.wire_name(), "all_chat_administrators");
    assert_eq!(Scope::BotCommandScopeChatMember.wire_name(), "chat_member");
}

fn message() -> Message {
    Message {
        message_id: 1,
        from: User {
            id: 42,
            is_bot: false,
            first_name: "Ada".to_string(),
            last_name: None,
            username: None,
            language_code: None,
            is_premium: None,
            added_to_attachment_menu: None,
            can_join_groups: None,
            can_read_all_group_messages: None,
            supports_inline_queries: None,
        },
        chat: Chat {
            id: 99,
            first_name: "Ada".to_string(),
            last_name: String::new(),
            username: String::new(),
            chat_type: "private".to_string(),
        },
        date: 1_700_000_000,
        text: "/dice".to_string(),
    }
}

#[test]
fn bot_message_accessors() {
    let m = BotMessages::from(message());
    assert_eq!(m.get_message(), "/dice");
    assert_eq!(m.get_user(), (42, "Ada".to_string()));
    assert_eq!(m.get_chat_id(), 99);
}

#[test]
fn bind_address_checks_port() {
    let mut c = ServerConfig {
        ip: "0.0.0.0".to_string(),
        port: 4443,
        pubkey_path: "YOURPUBLIC.pem".to_string(),
        privkey_path: "YOURPRIVATE.key".to_string(),
    };
    assert_eq!(c.bind_address().unwrap(), "0.0.0.0:4443");
    c.port = 70000;
    assert_eq!(c.bind_address().unwrap_err(), ConfigError::PortOutOfRange);
}
