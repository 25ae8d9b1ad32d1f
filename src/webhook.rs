//! What the webhook endpoint and the platform API calls decide, apart from
//! the network itself.

use vstd::prelude::*;
use vstd::utf8::{decode_utf8, valid_utf8};

use crate::commands::{CommandTable, CommandView};
use crate::text::same_text;
use crate::types::{BotCommand, BotCommandsParams, BotCommandsSet, Response, Scope, Webhook};
use vstd::string::StringExecFns;

verus! {

/// The answer of the webhook endpoint to one request.
#[derive(Debug, Clone, Copy, PartialEq, Eq, Structural)]
pub enum HttpStatus {
    Success,
    BadRequest,
    InternalServerError,
}

impl HttpStatus {
    /// The numeric HTTP status code.
    pub fn code(&self) -> (r: u16)
        ensures
            *self == HttpStatus::Success ==> r == 200,
            *self == HttpStatus::BadRequest ==> r == 400,
            *self == HttpStatus::InternalServerError ==> r == 500,
    {
        match self {
            HttpStatus::Success => 200,
            HttpStatus::BadRequest => 400,
            HttpStatus::InternalServerError => 500,
        }
    }
}

/// Relies on `String::from_utf8`: it succeeds exactly on valid UTF-8 and then
/// holds the decoded characters.
#[verifier::external_body]
fn utf8_string(bytes: Vec<u8>) -> (r: Option<String>)
    ensures
        r is Some <==> valid_utf8(bytes@),
        r matches Some(s) ==> s@ == decode_utf8(bytes@),
{
    String::from_utf8(bytes).ok()
}

/// The text of an inbound payload; a payload that is not UTF-8 is answered
/// with 400.
pub fn decode_payload(body: Vec<u8>) -> (r: Result<String, HttpStatus>)
    ensures
        r is Ok <==> valid_utf8(body@),
        r matches Ok(s) ==> s@ == decode_utf8(body@),
        r matches Err(e) ==> e == HttpStatus::BadRequest,
{
    match utf8_string(body) {
        Some(s) => Ok(s),
        None => Err(HttpStatus::BadRequest),
    }
}

/// The answer once a decoded payload was handled: 200 when handling
/// succeeded, 500 otherwise.
pub fn status_for(handled: bool) -> (r: HttpStatus)
    ensures
        handled ==> r == HttpStatus::Success,
        !handled ==> r == HttpStatus::InternalServerError,
{
    if handled {
        HttpStatus::Success
    } else {
        HttpStatus::InternalServerError
    }
}

/// Why the platform's webhook report could not be used.
#[derive(Debug, Clone, Copy, PartialEq, Eq, Structural)]
pub enum WebhookError {
    /// The answer was not ok or named no IP address.
    Unreadable,
}

/// Whether the registered webhook points at `ip` with a custom certificate;
/// an answer that is not ok or names no address is an error.
pub fn webhook_state(resp: &Response<Webhook>, ip: &str) -> (r: Result<bool, WebhookError>)
    ensures
        r is Ok <==> resp.ok && resp.result.ip_address is Some,
        r matches Ok(b) ==> b == (resp.result.ip_address->Some_0@ == ip@
            && resp.result.has_custom_certificate),
        r matches Err(e) ==> e == WebhookError::Unreadable,
{
    if resp.ok {
        if let Some(addr) = &resp.result.ip_address {
            return Ok(same_text(addr.as_str(), ip) && resp.result.has_custom_certificate);
        }
    }
    Err(WebhookError::Unreadable)
}

/// The URL of API method `method` for the bot with `token`.
pub fn api_url(token: &str, method: &str) -> (r: String)
    ensures
        r@ == "https://api.telegram.org/bot"@ + token@ + "/"@ + method@,
{
    let mut u = String::from_str("https://api.telegram.org/bot");
    u.append(token);
    u.append("/");
    u.append(method);
    u
}

/// The address the platform is told to deliver updates to.
pub fn webhook_url(ip: &str) -> (r: String)
    ensures
        r@ == "https://"@ + ip@,
{
    let mut u = String::from_str("https://");
    u.append(ip);
    u
}

/// The source-address patterns of the platform's delivery servers
/// (149.154.160.0/20 and 91.108.4.0/22), as the listener's allow-list.
pub fn get_webhook_ips() -> (r: Vec<&'static str>)
    ensures
        r@.len() == 6,
        r@[0]@ == "91.108.4.*"@,
        r@[1]@ == "91.108.5.*"@,
        r@[2]@ == "91.108.6.*"@,
        r@[3]@ == "91.108.7.*"@,
        r@[4]@ == "149.154.16?.*"@,
        r@[5]@ == "149.154.17?.*"@,
{
    vec![
        "91.108.4.*",
        "91.108.5.*",
        "91.108.6.*",
        "91.108.7.*",
        "149.154.16?.*",
        "149.154.17?.*",
    ]
}

/// The command list published to the platform: every command of `table`, in
/// registration order, described by its own token, for the default scope.
pub fn command_set(table: &CommandTable) -> (r: BotCommandsSet)
    ensures
        r.commands@.len() == table@.len(),
        forall|i: int|
            0 <= i < table@.len() ==> #[trigger] r.commands@[i].command@ == table@[i].0
                && r.commands@[i].description@ == table@[i].0,
        r.metadata.scope.scope_type == Scope::BotCommandScopeDefault,
        r.metadata.scope.chat_id is None,
        r.metadata.scope.user_id is None,
        r.metadata.language_code@.len() == 0,
{
    let tokens = table.tokens();
    let mut commands: Vec<BotCommand> = Vec::new();
    let mut i: usize = 0;
    while i < tokens.len()
        invariant
            tokens@.len() == table@.len(),
            forall|j: int| 0 <= j < tokens@.len() ==> #[trigger] tokens@[j]@ == table@[j].0,
            i <= tokens.len(),
            commands@.len() == i,
            forall|j: int|
                0 <= j < i ==> #[trigger] commands@[j].command@ == table@[j].0
                    && commands@[j].description@ == table@[j].0,
        decreases tokens.len() - i,
    {
        let t = &tokens[i];
        commands.push(BotCommand { command: t.clone(), description: t.clone() });
        i = i + 1;
    }
    BotCommandsSet { commands, metadata: BotCommandsParams::default() }
}

} // verus!
