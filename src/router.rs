//! Routes inbound text to a command handler, honouring conversation mode.

use vstd::prelude::*;

use crate::commands::{
    designations, index_of, lemma_index_of_bounds, lemma_last_with_role, lookup_spec, role_transition, CommandTable, CommandView, HandlerKind, Role, Transition,
};
use crate::session::{fresh_session, Session, SessionRegistry};
use crate::text::{first_word, rest_joined, split_command, starts_with};
use vstd::string::StringExecFns;

verus! {

/// What the router decided for one message.
#[derive(Debug)]
pub enum Route {
    /// No command applies: send this text back.
    Reply(String),
    /// Run `handler` on `argument`, then apply `transition` to the session.
    Invoke { handler: HandlerKind, argument: String, transition: Transition },
}

impl Route {
    /// `None` for a fallback reply, else the handler, its argument and the
    /// transition.
    pub open spec fn view(&self) -> Option<(HandlerKind, Seq<char>, Transition)> {
        match self {
            Route::Reply(_) => None,
            Route::Invoke { handler, argument, transition } => Some(
                (*handler, argument@, *transition),
            ),
        }
    }
}

/// The reply to a message that names no known command.
pub open spec fn fallback_text() -> Seq<char> {
    "Did not understand!"@
}

/// The chat-exit token of a table's conversation commands.
pub open spec fn exit_token(chat: Option<(Seq<char>, Seq<char>, Seq<char>)>) -> Seq<char> {
    match chat {
        Some(c) => c.1,
        None => seq![],
    }
}

/// The conversation-default token of a table's conversation commands.
pub open spec fn conversation_token(chat: Option<(Seq<char>, Seq<char>, Seq<char>)>) -> Seq<
    char,
> {
    match chat {
        Some(c) => c.2,
        None => seq![],
    }
}

/// The handler, argument and transition for `text` sent by a user whose chat
/// mode is `chat_mode`, or `None` when no command applies.
pub open spec fn decide(
    es: Seq<CommandView>,
    chat: Option<(Seq<char>, Seq<char>, Seq<char>)>,
    chat_mode: bool,
    text: Seq<char>,
) -> Option<(HandlerKind, Seq<char>, Transition)> {
    if chat_mode && chat is Some && !exit_token(chat).is_prefix_of(text) {
        match lookup_spec(es, conversation_token(chat)) {
            Some(d) => Some((d.1, text, role_transition(d.2))),
            None => None,
        }
    } else {
        match first_word(text) {
            None => None,
            Some(tok) => match lookup_spec(es, tok) {
                Some(d) => Some((d.1, rest_joined(text), role_transition(d.2))),
                None => None,
            },
        }
    }
}

/// The session of `u` once a message arrived at `now`.
pub open spec fn session_for(m: Map<u64, Session>, u: u64, now: i64) -> Session {
    if m.contains_key(u) {
        Session { last_activity: now, ..m[u] }
    } else {
        fresh_session(u, m.len() as u64, now)
    }
}

/// The sessions once a message of `u` arrived at `now`.
pub open spec fn touched(m: Map<u64, Session>, u: u64, now: i64) -> Map<u64, Session> {
    m.insert(u, session_for(m, u, now))
}

/// The sessions once `t` is applied to the session of `u`.
pub open spec fn transitioned(m: Map<u64, Session>, u: u64, t: Transition) -> Map<
    u64,
    Session,
> {
    match t {
        Transition::Keep => m,
        Transition::EnterChat => m.insert(u, Session { chat_mode: true, ..m[u] }),
        Transition::ExitChat => m.insert(u, Session { chat_mode: false, ..m[u] }),
    }
}

/// The sessions once a message of `u` was routed and its transition applied.
pub open spec fn after_message(
    m: Map<u64, Session>,
    es: Seq<CommandView>,
    chat: Option<(Seq<char>, Seq<char>, Seq<char>)>,
    u: u64,
    text: Seq<char>,
    now: i64,
) -> Map<u64, Session> {
    let m1 = touched(m, u, now);
    match decide(es, chat, m1[u].chat_mode, text) {
        Some(d) => transitioned(m1, u, d.2),
        None => m1,
    }
}

/// Relies on chrono's `Utc::now` and `DateTime::timestamp`: the current time
/// in whole seconds since the Unix epoch.
#[verifier::external_body]
fn unix_now() -> i64 {
    chrono::Utc::now().timestamp()
}

/// Routes `text` from `user_id`, received at `now`: the user's session is
/// created if needed and its activity recorded; in conversation mode every
/// text that does not start with the chat-exit token goes whole to the
/// conversation-default command; otherwise the first word is looked up and
/// the rest, joined by single spaces, is the argument.
pub fn route_at(
    registry: &mut SessionRegistry,
    table: &CommandTable,
    user_id: u64,
    text: &str,
    now: i64,
) -> (r: Route)
    requires
        old(registry).wf(),
        table.wf(),
    ensures
        final(registry).wf(),
        final(registry)@ == touched(old(registry)@, user_id, now),
        r@ == decide(
            table@,
            table.chat_view(),
            session_for(old(registry)@, user_id, now).chat_mode,
            text@,
        ),
        r is Reply ==> r->Reply_0@ == fallback_text(),
{
    let _ = registry.get_or_create(user_id, now);
    registry.touch(user_id, now);
    assert(registry@ =~= touched(old(registry)@, user_id, now));
    let chat_mode = registry.is_chat_mode(user_id);
    if chat_mode {
        if let (Some(exit), Some(conversation)) = (
            table.chat_exit_command(),
            table.llm_request_command(),
        ) {
            if !starts_with(text, exit) {
                return match table.lookup(conversation) {
                    Some(d) => Route::Invoke {
                        handler: d.handler,
                        argument: text.to_owned(),
                        transition: d.transition(),
                    },
                    None => Route::Reply(String::from_str("Did not understand!")),
                };
            }
        }
    }
    let (token, argument) = split_command(text);
    match token {
        None => Route::Reply(String::from_str("Did not understand!")),
        Some(t) => match table.lookup(t.as_str()) {
            Some(d) => Route::Invoke { handler: d.handler, argument, transition: d.transition() },
            None => Route::Reply(String::from_str("Did not understand!")),
        },
    }
}

/// Routes `text` from `user_id`, stamping the session with the current time.
pub fn route(registry: &mut SessionRegistry, table: &CommandTable, user_id: u64, text: &str) -> (r:
    Route)
    requires
        old(registry).wf(),
        table.wf(),
    ensures
        final(registry).wf(),
        exists|now: i64| final(registry)@ == #[trigger] touched(old(registry)@, user_id, now),
        r@ == decide(
            table@,
            table.chat_view(),
            old(registry)@.contains_key(user_id) && old(registry)@[user_id].chat_mode,
            text@,
        ),
        r is Reply ==> r->Reply_0@ == fallback_text(),
{
    let now = unix_now();
    route_at(registry, table, user_id, text, now)
}

/// Applies a command's transition to the session of `user_id` once its
/// handler has run.
pub fn apply_transition(registry: &mut SessionRegistry, user_id: u64, transition: Transition)
    requires
        old(registry).wf(),
        old(registry)@.contains_key(user_id),
    ensures
        final(registry).wf(),
        final(registry)@ == transitioned(old(registry)@, user_id, transition),
{
    match transition {
        Transition::Keep => {},
        Transition::EnterChat => registry.set_mode(user_id, true),
        Transition::ExitChat => registry.set_mode(user_id, false),
    }
}

/// The first message of a user creates exactly one session, and every later
/// message of that user reuses it: the same user id and conversation handle,
/// and no session added.
pub proof fn lemma_one_session_per_user(
    table: CommandTable,
    m: Map<u64, Session>,
    u: u64,
    first: Seq<char>,
    t1: i64,
    later: Seq<char>,
    t2: i64,
)
    requires
        table.wf(),
    ensures
        ({
            let m1 = after_message(m, table@, table.chat_view(), u, first, t1);
            let m2 = after_message(m1, table@, table.chat_view(), u, later, t2);
            &&& m1.dom() == m.dom().insert(u)
            &&& m2.dom() == m1.dom()
            &&& !m.contains_key(u) ==> m1[u].user_id == u
            &&& m2[u].user_id == m1[u].user_id
            &&& m2[u].conversation == m1[u].conversation
            &&& !m.contains_key(u) ==> m1[u].conversation == m.len() as u64
            &&& m.contains_key(u) ==> m1[u].conversation == m[u].conversation
        }),
{
    let chat = table.chat_view();
    let a = touched(m, u, t1);
    let m1 = after_message(m, table@, chat, u, first, t1);
    assert(m1.dom() =~= m.dom().insert(u));
    assert(m1[u].conversation == a[u].conversation && m1[u].user_id == a[u].user_id);
    let b = touched(m1, u, t2);
    let m2 = after_message(m1, table@, chat, u, later, t2);
    assert(b[u].conversation == m1[u].conversation);
    assert(m2[u].conversation == b[u].conversation && m2[u].user_id == b[u].user_id);
    assert(m2.dom() =~= m1.dom());
}

proof fn lemma_designated_roles(table: CommandTable)
    requires
        table.wf(),
    ensures
        table.chat_view() matches Some(c) ==> {
            &&& lookup_spec(table@, c.0) matches Some(d) && d.2 == Role::ChatEnter && d.0 == c.0
            &&& lookup_spec(table@, c.1) matches Some(d) && d.2 == Role::ChatExit && d.0 == c.1
            &&& lookup_spec(table@, c.2) matches Some(d) && d.2 == Role::ConversationDefault
                && d.0 == c.2
        },
{
    let es = table@;
    lemma_last_with_role(es, Role::ChatEnter);
    lemma_last_with_role(es, Role::ChatExit);
    lemma_last_with_role(es, Role::ConversationDefault);
    if let Some(c) = table.chat_view() {
        lemma_index_of_bounds(es, c.0);
        lemma_index_of_bounds(es, c.1);
        lemma_index_of_bounds(es, c.2);
    }
}

/// After the chat-enter command, any text that does not start with the
/// chat-exit token goes whole to the conversation-default command, and chat
/// mode is on afterwards.
pub proof fn lemma_chat_enter_routes_to_conversation(
    table: CommandTable,
    m: Map<u64, Session>,
    u: u64,
    enter_text: Seq<char>,
    t1: i64,
    text: Seq<char>,
    t2: i64,
)
    requires
        table.wf(),
        table.chat_view() matches Some(c) && first_word(enter_text) == Some(c.0)
            && !c.1.is_prefix_of(text),
    ensures
        ({
            let chat = table.chat_view();
            let m1 = after_message(m, table@, chat, u, enter_text, t1);
            let m2 = after_message(m1, table@, chat, u, text, t2);
            &&& m1[u].chat_mode
            &&& decide(table@, chat, session_for(m1, u, t2).chat_mode, text) matches Some(d)
                && lookup_spec(table@, conversation_token(chat)) matches Some(conv) && d == (
                conv.1,
                text,
                Transition::Keep,
            )
            &&& m2[u].chat_mode
        }),
{
    lemma_designated_roles(table);
}

/// The chat-exit command always reaches the chat-exit handler, whatever the
/// session's mode, and leaves chat mode off.
pub proof fn lemma_chat_exit_leaves_chat_mode(
    table: CommandTable,
    m: Map<u64, Session>,
    u: u64,
    text: Seq<char>,
    now: i64,
)
    requires
        table.wf(),
        table.chat_view() matches Some(c) && c.1.is_prefix_of(text) && first_word(text) == Some(
            c.1,
        ),
    ensures
        ({
            let chat = table.chat_view();
            &&& decide(table@, chat, session_for(m, u, now).chat_mode, text) matches Some(d)
                && lookup_spec(table@, exit_token(chat)) matches Some(x) && d == (
                x.1,
                rest_joined(text),
                Transition::ExitChat,
            )
            &&& !after_message(m, table@, chat, u, text, now)[u].chat_mode
        }),
{
    lemma_designated_roles(table);
}

/// A message of one user leaves the session of every other user as it was.
pub proof fn lemma_users_independent(
    table: CommandTable,
    m: Map<u64, Session>,
    u: u64,
    text: Seq<char>,
    now: i64,
    v: u64,
)
    requires
        table.wf(),
        u != v,
    ensures
        after_message(m, table@, table.chat_view(), u, text, now).contains_key(v)
            == m.contains_key(v),
        m.contains_key(v) ==> after_message(m, table@, table.chat_view(), u, text, now)[v]
            == m[v],
{
}

} // verus!
