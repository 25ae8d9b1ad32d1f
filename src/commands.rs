//! The command table: an immutable, validated mapping from command tokens to
//! handler descriptors, built once by explicit registration.

use vstd::prelude::*;

use crate::text::same_text;

verus! {

/// The handlers the bot knows how to run.
#[derive(Clone, Copy, Debug, PartialEq, Eq, Structural)]
pub enum HandlerKind {
    Ip,
    Temp,
    Affirm,
    Ask,
    Chat,
    Converse,
    EndChat,
    Dice,
}

/// What a command does to the session's chat mode once its handler ran.
#[derive(Clone, Copy, Debug, PartialEq, Eq, Structural)]
pub enum Transition {
    Keep,
    EnterChat,
    ExitChat,
}

/// The part a command plays in conversation mode.
#[derive(Clone, Copy, Debug, PartialEq, Eq, Structural)]
pub enum Role {
    /// An ordinary command.
    Plain,
    /// Enters conversation mode.
    ChatEnter,
    /// Leaves conversation mode.
    ChatExit,
    /// Receives every message sent while in conversation mode.
    ConversationDefault,
}

/// Why a set of registrations does not make a valid table.
#[derive(Clone, Copy, Debug, PartialEq, Eq, Structural)]
pub enum TableError {
    /// Some but not all of the chat-enter, chat-exit and conversation-default
    /// commands were registered.
    PartialChatCommands,
}

pub open spec fn role_transition(role: Role) -> Transition {
    match role {
        Role::ChatEnter => Transition::EnterChat,
        Role::ChatExit => Transition::ExitChat,
        _ => Transition::Keep,
    }
}

/// The mathematical content of a descriptor: token, handler and role.
pub type CommandView = (Seq<char>, HandlerKind, Role);

/// One registered command.
#[derive(Debug)]
pub struct CommandDescriptor {
    pub token: String,
    pub handler: HandlerKind,
    pub role: Role,
}

impl CommandDescriptor {
    pub open spec fn view(&self) -> CommandView {
        (self.token@, self.handler, self.role)
    }

    /// The chat-mode change applied after this command's handler ran.
    pub fn transition(&self) -> (r: Transition)
        ensures
            r == role_transition(self.role),
    {
        match self.role {
            Role::ChatEnter => Transition::EnterChat,
            Role::ChatExit => Transition::ExitChat,
            _ => Transition::Keep,
        }
    }
}

pub open spec fn descriptors_view(v: Seq<CommandDescriptor>) -> Seq<CommandView> {
    v.map_values(|d: CommandDescriptor| d.view())
}

/// The position of the last entry of `es` whose token is `tok`, or -1.
pub open spec fn index_of(es: Seq<CommandView>, tok: Seq<char>) -> int
    decreases es.len(),
{
    if es.len() == 0 {
        -1
    } else if es.last().0 == tok {
        es.len() - 1
    } else {
        index_of(es.drop_last(), tok)
    }
}

/// The entry of `es` registered under `tok`.
pub open spec fn lookup_spec(es: Seq<CommandView>, tok: Seq<char>) -> Option<CommandView> {
    if index_of(es, tok) >= 0 {
        Some(es[index_of(es, tok)])
    } else {
        None
    }
}

/// The token of the last entry of `es` with role `role`.
pub open spec fn last_with_role(es: Seq<CommandView>, role: Role) -> Option<Seq<char>>
    decreases es.len(),
{
    if es.len() == 0 {
        None
    } else if es.last().2 == role {
        Some(es.last().0)
    } else {
        last_with_role(es.drop_last(), role)
    }
}

/// No two entries share a token.
pub open spec fn tokens_unique(es: Seq<CommandView>) -> bool {
    forall|i: int, j: int| 0 <= i < j < es.len() ==> es[i].0 != es[j].0
}

/// `es` after registering `e`: an entry with the same token is replaced in
/// place, otherwise `e` is appended.
pub open spec fn registered(es: Seq<CommandView>, e: CommandView) -> Seq<CommandView> {
    if index_of(es, e.0) >= 0 {
        es.update(index_of(es, e.0), e)
    } else {
        es.push(e)
    }
}

/// How many of the three conversation roles have a command.
pub open spec fn chat_roles_present(es: Seq<CommandView>) -> nat {
    (if last_with_role(es, Role::ChatEnter) is Some { 1nat } else { 0nat }) + (if last_with_role(
        es,
        Role::ChatExit,
    ) is Some {
        1nat
    } else {
        0nat
    }) + (if last_with_role(es, Role::ConversationDefault) is Some {
        1nat
    } else {
        0nat
    })
}

pub proof fn lemma_index_of_bounds(es: Seq<CommandView>, tok: Seq<char>)
    ensures
        -1 <= index_of(es, tok) < es.len(),
        index_of(es, tok) >= 0 ==> es[index_of(es, tok)].0 == tok,
        index_of(es, tok) == -1 ==> forall|i: int| 0 <= i < es.len() ==> es[i].0 != tok,
    decreases es.len(),
{
    if es.len() > 0 {
        lemma_index_of_bounds(es.drop_last(), tok);
        if es.last().0 != tok {
            assert forall|i: int| 0 <= i < es.len() - 1 implies es[i] == es.drop_last()[i] by {}
        }
    }
}

/// The chat-enter, chat-exit and conversation-default tokens of `es`, when
/// all three roles have a command.
pub open spec fn designations(es: Seq<CommandView>) -> Option<(Seq<char>, Seq<char>, Seq<char>)> {
    match (
        last_with_role(es, Role::ChatEnter),
        last_with_role(es, Role::ChatExit),
        last_with_role(es, Role::ConversationDefault),
    ) {
        (Some(a), Some(b), Some(c)) => Some((a, b, c)),
        _ => None,
    }
}

pub proof fn lemma_last_with_role(es: Seq<CommandView>, role: Role)
    requires
        tokens_unique(es),
    ensures
        last_with_role(es, role) matches Some(t) ==> index_of(es, t) >= 0 && es[index_of(
            es,
            t,
        )].2 == role,
    decreases es.len(),
{
    if es.len() > 0 && es.last().2 != role {
        let init = es.drop_last();
        assert(tokens_unique(init));
        lemma_last_with_role(init, role);
        if let Some(t) = last_with_role(init, role) {
            lemma_index_of_bounds(init, t);
            assert(es.last().0 != init[index_of(init, t)].0);
        }
    }
}

/// Collects registrations before they are validated into a `CommandTable`.
pub struct CommandTableBuilder {
    entries: Vec<CommandDescriptor>,
}

impl CommandTableBuilder {
    pub closed spec fn view(&self) -> Seq<CommandView> {
        descriptors_view(self.entries@)
    }

    pub open spec fn wf(&self) -> bool {
        tokens_unique(self@)
    }

    pub fn new() -> (r: Self)
        ensures
            r.wf(),
            r@ == Seq::<CommandView>::empty(),
    {
        let r = CommandTableBuilder { entries: Vec::new() };
        assert(r@ =~= Seq::<CommandView>::empty());
        r
    }

    /// The position of the entry registered under `token`.
    fn position(&self, token: &str) -> (r: Option<usize>)
        ensures
            r matches Some(i) ==> i == index_of(self@, token@),
            r is None ==> index_of(self@, token@) == -1,
    {
        let mut i: usize = self.entries.len();
        assert(self@.take(i as int) =~= self@);
        while i > 0
            invariant
                i <= self.entries.len(),
                index_of(self@, token@) == index_of(self@.take(i as int), token@),
            decreases i,
        {
            let ghost t = self@.take(i as int);
            assert(t.drop_last() =~= self@.take(i - 1));
            assert(t.last() == self.entries@[i - 1].view());
            if same_text(self.entries[i - 1].token.as_str(), token) {
                return Some(i - 1);
            }
            i = i - 1;
        }
        None
    }

    /// Registers `token`, replacing any earlier registration of the same token.
    pub fn register(&mut self, token: &str, handler: HandlerKind, role: Role)
        requires
            old(self).wf(),
        ensures
            final(self).wf(),
            final(self)@ == registered(old(self)@, (token@, handler, role)),
    {
        let d = CommandDescriptor { token: token.to_owned(), handler, role };
        let ghost e = (token@, handler, role);
        assert(d.view() == e);
        proof {
            lemma_index_of_bounds(self@, token@);
        }
        match self.position(token) {
            Some(i) => {
                self.entries.set(i, d);
                assert(self@ =~= old(self)@.update(i as int, e));
            },
            None => {
                self.entries.push(d);
                assert(self@ =~= old(self)@.push(e));
            },
        }
    }

    /// The token of the last registered command with `role`.
    fn last_token_with_role(&self, role: Role) -> (r: Option<String>)
        ensures
            r matches Some(t) ==> last_with_role(self@, role) == Some(t@),
            r is None ==> last_with_role(self@, role) is None,
    {
        let mut i: usize = self.entries.len();
        assert(self@.take(i as int) =~= self@);
        while i > 0
            invariant
                i <= self.entries.len(),
                last_with_role(self@, role) == last_with_role(self@.take(i as int), role),
            decreases i,
        {
            let ghost t = self@.take(i as int);
            assert(t.drop_last() =~= self@.take(i - 1));
            assert(t.last() == self.entries@[i - 1].view());
            if self.entries[i - 1].role == role {
                return Some(self.entries[i - 1].token.clone());
            }
            i = i - 1;
        }
        None
    }

    /// Validates the registrations: the chat-enter, chat-exit and
    /// conversation-default commands must be all registered or all absent.
    pub fn build(self) -> (r: Result<CommandTable, TableError>)
        requires
            self.wf(),
        ensures
            r is Ok <==> (chat_roles_present(self@) == 0 || chat_roles_present(self@) == 3),
            r matches Ok(t) ==> t.wf() && t@ == self@ && t.chat_view() == designations(self@),
            r matches Err(e) ==> e == TableError::PartialChatCommands,
    {
        let enter = self.last_token_with_role(Role::ChatEnter);
        let exit = self.last_token_with_role(Role::ChatExit);
        let conversation = self.last_token_with_role(Role::ConversationDefault);
        let ghost es = self@;
        proof {
            lemma_last_with_role(es, Role::ChatEnter);
            lemma_last_with_role(es, Role::ChatExit);
            lemma_last_with_role(es, Role::ConversationDefault);
        }
        match (enter, exit, conversation) {
            (None, None, None) => Ok(CommandTable { entries: self.entries, chat: None }),
            (Some(enter), Some(exit), Some(conversation)) => Ok(
                CommandTable {
                    entries: self.entries,
                    chat: Some(ChatCommands { enter, exit, conversation }),
                },
            ),
            _ => Err(TableError::PartialChatCommands),
        }
    }
}

/// The tokens of the three conversation commands.
#[derive(Debug)]
pub struct ChatCommands {
    pub enter: String,
    pub exit: String,
    pub conversation: String,
}

/// A validated, immutable set of commands.
#[derive(Debug)]
pub struct CommandTable {
    entries: Vec<CommandDescriptor>,
    chat: Option<ChatCommands>,
}

impl CommandTable {
    /// The registered commands, in registration order.
    pub closed spec fn view(&self) -> Seq<CommandView> {
        descriptors_view(self.entries@)
    }

    /// The chat-enter, chat-exit and conversation-default tokens, if any.
    pub closed spec fn chat_view(&self) -> Option<(Seq<char>, Seq<char>, Seq<char>)> {
        match self.chat {
            Some(c) => Some((c.enter@, c.exit@, c.conversation@)),
            None => None,
        }
    }

    pub open spec fn wf(&self) -> bool {
        &&& tokens_unique(self@)
        &&& self.chat_view() == designations(self@)
        &&& (chat_roles_present(self@) == 0 || chat_roles_present(self@) == 3)
    }

    /// The command registered under exactly `token`; the match is
    /// case-sensitive.
    pub fn lookup(&self, token: &str) -> (r: Option<&CommandDescriptor>)
        ensures
            r matches Some(d) ==> lookup_spec(self@, token@) == Some(d.view()),
            r is None ==> lookup_spec(self@, token@) is None,
    {
        let mut i: usize = self.entries.len();
        assert(self@.take(i as int) =~= self@);
        while i > 0
            invariant
                i <= self.entries.len(),
                index_of(self@, token@) == index_of(self@.take(i as int), token@),
            decreases i,
        {
            let ghost t = self@.take(i as int);
            assert(t.drop_last() =~= self@.take(i - 1));
            assert(t.last() == self.entries@[i - 1].view());
            if same_text(self.entries[i - 1].token.as_str(), token) {
                return Some(&self.entries[i - 1]);
            }
            i = i - 1;
        }
        None
    }

    /// The registered tokens, in registration order.
    pub fn tokens(&self) -> (r: Vec<String>)
        ensures
            r@.len() == self@.len(),
            forall|i: int| 0 <= i < r@.len() ==> #[trigger] r@[i]@ == self@[i].0,
    {
        let mut out: Vec<String> = Vec::new();
        let mut i: usize = 0;
        while i < self.entries.len()
            invariant
                i <= self.entries.len(),
                out@.len() == i,
                forall|j: int| 0 <= j < i ==> #[trigger] out@[j]@ == self@[j].0,
            decreases self.entries.len() - i,
        {
            out.push(self.entries[i].token.clone());
            i = i + 1;
        }
        out
    }

    /// The token that enters conversation mode.
    pub fn chat_start_command(&self) -> (r: Option<&str>)
        ensures
            r matches Some(t) ==> self.chat_view() matches Some(c) && c.0 == t@,
            r is None ==> self.chat_view() is None,
    {
        match &self.chat {
            Some(c) => Some(c.enter.as_str()),
            None => None,
        }
    }

    /// The token that leaves conversation mode.
    pub fn chat_exit_command(&self) -> (r: Option<&str>)
        ensures
            r matches Some(t) ==> self.chat_view() matches Some(c) && c.1 == t@,
            r is None ==> self.chat_view() is None,
    {
        match &self.chat {
            Some(c) => Some(c.exit.as_str()),
            None => None,
        }
    }

    /// The token whose handler receives messages in conversation mode.
    pub fn llm_request_command(&self) -> (r: Option<&str>)
        ensures
            r matches Some(t) ==> self.chat_view() matches Some(c) && c.2 == t@,
            r is None ==> self.chat_view() is None,
    {
        match &self.chat {
            Some(c) => Some(c.conversation.as_str()),
            None => None,
        }
    }
}

} // verus!
