//! The bot's configuration and the messaging platform's data, as plain
//! values.

use vstd::prelude::*;

use crate::text::{decimal, decimal_string};
use vstd::string::StringExecFns;

verus! {

/// Everything the bot reads from its configuration file.
#[derive(Debug, Clone)]
pub struct Config {
    pub bot: BotConfig,
    pub server: ServerConfig,
}

#[derive(Debug, Clone)]
pub struct BotConfig {
    pub name: String,
    pub token: String,
}

/// Where the webhook listener binds and where its key material lives.
#[derive(Debug, Clone)]
pub struct ServerConfig {
    pub ip: String,
    pub port: u32,
    pub pubkey_path: String,
    pub privkey_path: String,
}

/// Why a configuration cannot be served.
#[derive(Debug, Clone, Copy, PartialEq, Eq, Structural)]
pub enum ConfigError {
    /// The port does not fit in 16 bits.
    PortOutOfRange,
}

impl ServerConfig {
    /// The `ip:port` the listener binds to.
    pub fn bind_address(&self) -> (r: Result<String, ConfigError>)
        ensures
            r is Ok <==> self.port <= 65535,
            r matches Ok(a) ==> a@ == self.ip@ + ":"@ + decimal(self.port as nat),
            r matches Err(e) ==> e == ConfigError::PortOutOfRange,
    {
        if self.port > 65535 {
            return Err(ConfigError::PortOutOfRange);
        }
        let mut a = self.ip.clone();
        a.append(":");
        let digits = decimal_string(self.port as u64);
        a.append(digits.as_str());
        Ok(a)
    }
}

#[derive(Debug, Clone)]
pub struct Chat {
    pub id: u64,
    pub first_name: String,
    pub last_name: String,
    pub username: String,
    pub chat_type: String,
}

#[derive(Debug, Clone)]
pub struct User {
    pub id: u64,
    pub is_bot: bool,
    pub first_name: String,
    pub last_name: Option<String>,
    pub username: Option<String>,
    pub language_code: Option<String>,
    pub is_premium: Option<bool>,
    pub added_to_attachment_menu: Option<bool>,
    pub can_join_groups: Option<bool>,
    pub can_read_all_group_messages: Option<bool>,
    pub supports_inline_queries: Option<bool>,
}

/// A text message; `date` is in seconds since the Unix epoch.
#[derive(Debug, Clone)]
pub struct Message {
    pub message_id: u64,
    pub from: User,
    pub chat: Chat,
    pub date: i64,
    pub text: String,
}

#[derive(Debug, Clone)]
pub struct ChatMemberUpdated {
    pub chat: Chat,
    pub from: User,
    pub date: i64,
}

/// One inbound update; at most one of its messages is usually present.
#[derive(Debug)]
pub struct Update {
    pub update_id: u64,
    pub message: Option<Message>,
    pub edited_message: Option<Message>,
    pub channel_post: Option<Message>,
    pub edited_channel_post: Option<Message>,
}

/// The envelope of every answer of the platform's API.
#[derive(Debug)]
pub struct Response<T> {
    pub ok: bool,
    pub result: T,
}

/// The platform's view of the registered webhook.
#[derive(Debug)]
pub struct Webhook {
    pub url: String,
    pub has_custom_certificate: bool,
    pub pending_update_count: u32,
    pub max_connections: u32,
    pub ip_address: Option<String>,
}

/// Which users a published command list applies to.
#[derive(Debug, Clone, Copy, PartialEq, Eq, Structural)]
pub enum Scope {
    BotCommandScopeDefault,
    BotCommandScopeAllPrivateChats,
    BotCommandScopeAllGroupChats,
    BotCommandScopeAllChatAdministrators,
    BotCommandScopeChat,
    BotCommandScopeChatAdministrators,
    BotCommandScopeChatMember,
}

/// The name under which the platform knows a scope.
pub open spec fn scope_name(s: Scope) -> Seq<char> {
    match s {
        Scope::BotCommandScopeDefault => "default"@,
        Scope::BotCommandScopeAllPrivateChats => "all_private_chats"@,
        Scope::BotCommandScopeAllGroupChats => "all_group_chats"@,
        Scope::BotCommandScopeAllChatAdministrators => "all_chat_administrators"@,
        Scope::BotCommandScopeChat => "chat"@,
        Scope::BotCommandScopeChatAdministrators => "chat_administrators"@,
        Scope::BotCommandScopeChatMember => "chat_member"@,
    }
}

impl Scope {
    /// The platform's name of this scope.
    pub fn wire_name(&self) -> (r: &'static str)
        ensures
            r@ == scope_name(*self),
    {
        match self {
            Scope::BotCommandScopeDefault => "default",
            Scope::BotCommandScopeAllPrivateChats => "all_private_chats",
            Scope::BotCommandScopeAllGroupChats => "all_group_chats",
            Scope::BotCommandScopeAllChatAdministrators => "all_chat_administrators",
            Scope::BotCommandScopeChat => "chat",
            Scope::BotCommandScopeChatAdministrators => "chat_administrators",
            Scope::BotCommandScopeChatMember => "chat_member",
        }
    }
}

impl Default for Scope {
    fn default() -> (r: Self)
        ensures
            r == Scope::BotCommandScopeDefault,
    {
        Scope::BotCommandScopeDefault
    }
}

#[derive(Debug)]
pub struct BotCommandScope {
    pub scope_type: Scope,
    pub chat_id: Option<String>,
    pub user_id: Option<u64>,
}

impl Default for BotCommandScope {
    fn default() -> (r: Self)
        ensures
            r.scope_type == Scope::BotCommandScopeDefault,
            r.chat_id is None,
            r.user_id is None,
    {
        BotCommandScope { scope_type: Scope::BotCommandScopeDefault, chat_id: None, user_id: None }
    }
}

/// The scope and language a published command list applies to.
#[derive(Debug)]
pub struct BotCommandsParams {
    pub scope: BotCommandScope,
    pub language_code: String,
}

impl Default for BotCommandsParams {
    fn default() -> (r: Self)
        ensures
            r.scope.scope_type == Scope::BotCommandScopeDefault,
            r.scope.chat_id is None,
            r.scope.user_id is None,
            r.language_code@.len() == 0,
    {
        BotCommandsParams {
            scope: BotCommandScope {
                scope_type: Scope::BotCommandScopeDefault,
                chat_id: None,
                user_id: None,
            },
            language_code: String::new(),
        }
    }
}

/// A command list to publish to the platform.
#[derive(Debug)]
pub struct BotCommandsSet {
    pub commands: Vec<BotCommand>,
    pub metadata: BotCommandsParams,
}

#[derive(Debug)]
pub struct BotCommand {
    pub command: String,
    pub description: String,
}

/// When a forecast is wanted.
#[derive(Debug, Clone, Copy, PartialEq, Eq, Structural)]
pub enum ForecastTime {
    /// In the given number of hours.
    Later(u32),
    Tomorrow,
}

#[derive(Debug)]
pub struct Affirmation {
    pub affirmation: String,
}

/// One soil-moisture reading of a plant sensor.
#[derive(Debug, Clone, Copy, PartialEq, Eq, Structural)]
pub struct PlantData {
    pub moisture: u32,
}

/// What the router needs of an inbound message.
pub trait BotMessage {
    spec fn text_view(&self) -> Seq<char>;

    spec fn user_view(&self) -> (u64, Seq<char>);

    spec fn chat_id_view(&self) -> u64;

    fn get_message(&self) -> (r: String)
        ensures
            r@ == self.text_view(),
    ;

    /// The sender's id and first name.
    fn get_user(&self) -> (r: (u64, String))
        ensures
            (r.0, r.1@) == self.user_view(),
    ;

    fn get_chat_id(&self) -> (r: u64)
        ensures
            r == self.chat_id_view(),
    ;
}

impl BotMessage for Message {
    open spec fn text_view(&self) -> Seq<char> {
        self.text@
    }

    open spec fn user_view(&self) -> (u64, Seq<char>) {
        (self.from.id, self.from.first_name@)
    }

    open spec fn chat_id_view(&self) -> u64 {
        self.chat.id
    }

    fn get_message(&self) -> (r: String) {
        self.text.clone()
    }

    fn get_user(&self) -> (r: (u64, String)) {
        (self.from.id, self.from.first_name.clone())
    }

    fn get_chat_id(&self) -> (r: u64) {
        self.chat.id
    }
}

/// The message kinds of every supported platform.
#[derive(Debug)]
pub enum BotMessages {
    Message(Message),
}

impl BotMessage for BotMessages {
    open spec fn text_view(&self) -> Seq<char> {
        match self {
            BotMessages::Message(m) => m.text_view(),
        }
    }

    open spec fn user_view(&self) -> (u64, Seq<char>) {
        match self {
            BotMessages::Message(m) => m.user_view(),
        }
    }

    open spec fn chat_id_view(&self) -> u64 {
        match self {
            BotMessages::Message(m) => m.chat_id_view(),
        }
    }

    fn get_message(&self) -> (r: String) {
        match self {
            BotMessages::Message(m) => m.get_message(),
        }
    }

    fn get_user(&self) -> (r: (u64, String)) {
        match self {
            BotMessages::Message(m) => m.get_user(),
        }
    }

    fn get_chat_id(&self) -> (r: u64) {
        match self {
            BotMessages::Message(m) => m.get_chat_id(),
        }
    }
}

impl From<Message> for BotMessages {
    fn from(m: Message) -> (r: Self) {
        BotMessages::Message(m)
    }
}

impl vstd::std_specs::convert::FromSpecImpl<Message> for BotMessages {
    open spec fn obeys_from_spec() -> bool {
        true
    }

    open spec fn from_spec(m: Message) -> Self {
        BotMessages::Message(m)
    }
}

} // verus!
