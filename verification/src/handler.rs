//! How the bot receives updates, and what it needs of the store's
//! index before it starts.

use vstd::prelude::*;
use vstd::string::StringExecFns;
use crate::bulk::{is_success, status_is_success};
use crate::config::WebhookConfig;
use crate::decimal::{nat_digits, push_nat};
use crate::text::push_char;

verus! {

/// How the bot receives updates.
#[derive(Debug)]
pub enum DispatchMode {
    /// The chat service calls the bot at `listen`, the address and port
    /// to bind, under the public address `url`.
    Webhook { listen: String, url: String },
    /// The bot asks the chat service for updates.
    LongPolling,
}

/// The address to bind for a webhook: the listen address, a colon, and
/// the port in base ten.
pub open spec fn listen_spec(config: WebhookConfig) -> Seq<char> {
    config.listen_addr@ + seq![':'] + nat_digits(config.port as nat)
}

/// Decides how the bot receives updates: by webhook where a public
/// address is set, else by long polling.
pub fn run_bot(config: &WebhookConfig) -> (mode: DispatchMode)
    ensures
        match mode {
            DispatchMode::Webhook { listen, url } => config.url@.len() > 0 && listen@
                == listen_spec(*config) && url@ == config.url@,
            DispatchMode::LongPolling => config.url@.len() == 0,
        },
{
    if config.is_enabled() {
        let mut listen = String::from_str(config.listen_addr.as_str());
        push_char(&mut listen, ':');
        push_nat(&mut listen, config.port as u64);
        assert(listen@ =~= listen_spec(*config));
        DispatchMode::Webhook { listen, url: String::from_str(config.url.as_str()) }
    } else {
        DispatchMode::LongPolling
    }
}

/// What is wrong with the store's index.
#[derive(Clone, Copy, Debug, PartialEq, Eq, Structural)]
pub enum IndexError {
    /// The store refused to create the index, with this status.
    CreateFailed { status: u16 },
}

/// Whether the index has to be created: the store answered the
/// question for it with "not found".
pub fn ensure_index(exists_status: u16) -> (create: bool)
    ensures
        create == (exists_status == 404),
{
    exists_status == 404
}

/// Whether the index was created: the store answered the request with
/// success.
pub fn index_created(create_status: u16) -> (done: Result<(), IndexError>)
    ensures
        done is Ok <==> is_success(create_status),
        done matches Err(e) ==> e == (IndexError::CreateFailed { status: create_status }),
{
    if status_is_success(create_status) {
        Ok(())
    } else {
        Err(IndexError::CreateFailed { status: create_status })
    }
}

} // verus!
