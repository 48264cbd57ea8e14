//! The argument model: the operations a wallet invocation can request, the
//! shared flags that accompany them, and the process-wide settings the
//! router consults.

use vstd::prelude::*;
use vstd::string::StringExecFns;

verus! {

/// Parameters of the batch operation; interpreted by the collaborator
/// handler, opaque to the router.
#[derive(Debug)]
pub struct BatchParams {}

/// Parameters of the create operation; interpreted by the collaborator
/// handler, opaque to the router.
#[derive(Debug)]
pub struct CreateParams {}

/// Parameters of the inscribe operation; interpreted by the collaborator
/// handler, opaque to the router.
#[derive(Debug)]
pub struct InscribeParams {}

/// Parameters of the mint operation; interpreted by the collaborator
/// handler, opaque to the router.
#[derive(Debug)]
pub struct MintParams {}

/// Parameters of the receive operation; interpreted by the collaborator
/// handler, opaque to the router.
#[derive(Debug)]
pub struct ReceiveParams {}

/// Parameters of the restore operation; interpreted by the collaborator
/// handler, opaque to the router.
#[derive(Debug)]
pub struct RestoreParams {}

/// Parameters of the sats operation; interpreted by the collaborator
/// handler, opaque to the router.
#[derive(Debug)]
pub struct SatsParams {}

/// Parameters of the send operation; interpreted by the collaborator
/// handler, opaque to the router.
#[derive(Debug)]
pub struct SendParams {}

/// Parameters of the transactions operation; interpreted by the collaborator
/// handler, opaque to the router.
#[derive(Debug)]
pub struct TransactionsParams {}

/// The wallet operation an invocation requests. Each variant with a payload
/// owns that payload exclusively; the router moves payloads to the chosen
/// handler and never reads them.
#[derive(Debug)]
pub enum Operation {
    Balance,
    Batch(BatchParams),
    Create(CreateParams),
    Dump,
    Inscribe(InscribeParams),
    Inscriptions,
    Mint(MintParams),
    Receive(ReceiveParams),
    Restore(RestoreParams),
    Resume,
    Sats(SatsParams),
    Send(SendParams),
    Transactions(TransactionsParams),
    Outputs,
    Cardinals,
}

/// Process-wide configuration, read-only for the router. It originates
/// outside this crate (environment or configuration file) and supplies the
/// default server URL, consulted when the invocation carries no override.
pub struct Settings {
    pub server_url: Option<String>,
}

/// One fully parsed command-line request: the chosen operation plus the
/// shared flags. Created once per process run and consumed exactly once by
/// the router.
pub struct Invocation {
    pub name: String,
    pub no_sync: bool,
    pub server_url: Option<String>,
    pub address: Option<String>,
    pub operation: Operation,
}

/// The wallet name used when the command line names none.
pub open spec fn default_wallet_name() -> Seq<char> {
    "ord"@
}

/// Returns the given wallet name, or the default name when none was given.
pub fn wallet_name_or_default(name: Option<String>) -> (r: String)
    ensures
        name matches Some(n) ==> r == n,
        name is None ==> r@ == default_wallet_name(),
{
    match name {
        Some(n) => n,
        None => String::from_str("ord"),
    }
}

impl Invocation {
    /// Builds an invocation from the parsed flags, filling in the default
    /// wallet name when none was supplied.
    pub fn new(
        name: Option<String>,
        no_sync: bool,
        server_url: Option<String>,
        address: Option<String>,
        operation: Operation,
    ) -> (r: Invocation)
        ensures
            name matches Some(n) ==> r.name == n,
            name is None ==> r.name@ == default_wallet_name(),
            r.no_sync == no_sync,
            r.server_url == server_url,
            r.address == address,
            r.operation == operation,
    {
        Invocation {
            name: wallet_name_or_default(name),
            no_sync,
            server_url,
            address,
            operation,
        }
    }
}

} // verus!
