//! A session over an unlocked store: what it holds, how it is unlocked, and
//! when it has to be saved.

use vstd::prelude::*;
use vstd::string::StringSliceAdditionalSpecFns;
use crate::codec::{open, open_result, CostParams};
use crate::config::{Args, Ops, PassConfig};
use crate::dialogue::text_of;
use crate::failure::{Failure, FailureView};
use crate::store::Store;
use crate::text::str_eq;

verus! {

/// An unlocked store with what a session around it holds.
pub struct App {
    pub args: Args,
    pub config: PassConfig,
    pub path: std::path::PathBuf,
    pub master_pass: String,
    pub passwords: Store,
    pub interactive: bool,
}

impl App {
    /// A session over an unlocked store; it starts out not interactive.
    pub fn new(
        args: Args,
        config: PassConfig,
        path: std::path::PathBuf,
        master_pass: String,
        passwords: Store,
    ) -> (r: App)
        ensures
            r.args == args,
            r.config == config,
            r.path == path,
            r.master_pass == master_pass,
            r.passwords == passwords,
            !r.interactive,
    {
        App { args, config, path, master_pass, passwords, interactive: false }
    }
}

/// Nothing but the accounts and the master password differs between the two sessions.
pub open spec fn same_settings(a: App, b: App) -> bool {
    &&& a.args == b.args
    &&& a.config == b.config
    &&& a.path == b.path
    &&& a.interactive == b.interactive
}

/// Nothing but the accounts differs between the two sessions.
pub open spec fn same_session(a: App, b: App) -> bool {
    same_settings(a, b) && a.master_pass == b.master_pass
}

/// How often a session may fail to unlock its store before it ends.
pub const MAX_UNLOCK_ATTEMPTS: u32 = 3;

/// How an attempt to unlock a store ended.
pub enum Unlock {
    /// The store is open.
    Opened(Store),
    /// The password was not accepted; the user may try another.
    TryAgain,
    /// The store stays closed.
    GiveUp(Failure),
}

/// The file of the store: the path that the command names, else the
/// configured one, else the one in the user's data directory.
pub fn chosen_path(
    named: Option<std::path::PathBuf>,
    configured: Option<std::path::PathBuf>,
    in_data_dir: Option<std::path::PathBuf>,
) -> (r: Option<std::path::PathBuf>)
    ensures
        r == match (named, configured) {
            (Some(p), _) => Some(p),
            (None, Some(p)) => Some(p),
            (None, None) => in_data_dir,
        },
{
    match named {
        Some(p) => Some(p),
        None => match configured {
            Some(p) => Some(p),
            None => in_data_dir,
        },
    }
}

/// The master password that needs no asking: that of the command, or else
/// the configured one.
pub fn supplied_password(args: &Args, config: &PassConfig) -> (r: Option<String>)
    ensures
        text_of(r) == match args.pass {
            Some(p) => Some(p@),
            None => text_of(config.default_pass),
        },
{
    match &args.pass {
        Some(p) => Some(p.clone()),
        None => match &config.default_pass {
            Some(p) => Some(p.clone()),
            None => None,
        },
    }
}

/// Whether another password may be tried after a failure: only after a
/// failed authentication, only where the password was typed and not supplied
/// by the command or the configuration, and only until
/// [`MAX_UNLOCK_ATTEMPTS`] attempts have failed.
pub open spec fn may_retry(e: FailureView, typed: bool, failed_before: u32) -> bool {
    e == FailureView::AuthenticationFailed && typed && failed_before + 1 < MAX_UNLOCK_ATTEMPTS
}

/// Tries to open stored text after `failed_before` failed attempts: see
/// [`may_retry`] for when the user may try another password.
pub fn unlock(
    data: &[u8],
    password: &str,
    params: &CostParams,
    typed: bool,
    failed_before: u32,
) -> (r: Unlock)
    ensures
        match open_result(data@, password.spec_bytes(), *params) {
            Ok(accounts) => r matches Unlock::Opened(store) && store@ == accounts,
            Err(e) => if may_retry(e, typed, failed_before) {
                r is TryAgain
            } else {
                r matches Unlock::GiveUp(f) && f@ == e
            },
        },
{
    match open(data, password, params) {
        Ok(store) => Unlock::Opened(store),
        Err(e) => {
            let retry = match e {
                Failure::AuthenticationFailed => typed && failed_before < MAX_UNLOCK_ATTEMPTS - 1,
                _ => false,
            };
            if retry {
                Unlock::TryAgain
            } else {
                Unlock::GiveUp(e)
            }
        },
    }
}

/// Whether the store has to be written after a command: after each but a
/// listing.
pub fn needs_save(operation: &Option<Ops>) -> (r: bool)
    ensures
        r == !(*operation is None || *operation == Some(Ops::Print)),
{
    match operation {
        None => false,
        Some(Ops::Print) => false,
        Some(_) => true,
    }
}

/// Whether a line typed in an interactive session ends it.
pub fn is_quit(line: &str) -> (r: bool)
    ensures
        r == (line@ == "quit"@ || line@ == "q"@),
{
    str_eq(line, "quit") || str_eq(line, "q")
}

} // verus!
