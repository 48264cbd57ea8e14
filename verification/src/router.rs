//! The command router: short-circuits construction-only operations, picks
//! the wallet-construction mode, resolves and parses the server endpoint,
//! and maps the operation to its handler.

use vstd::prelude::*;
use vstd::string::StringExecFns;
use crate::endpoint::{parse_url, resolve_server_url, resolved_url_text, url_parse_ok};
use crate::model::{Invocation, Operation, Settings};

verus! {

/// The handler an operation dispatches to: exactly one per operation
/// variant.
#[derive(Clone, Copy, Debug, PartialEq, Eq, Structural)]
pub enum Handler {
    Balance,
    Batch,
    Create,
    Dump,
    Inscribe,
    Inscriptions,
    Mint,
    Receive,
    Restore,
    Resume,
    Sats,
    Send,
    Transactions,
    Outputs,
    Cardinals,
}

/// The fixed dispatch table: which handler each operation belongs to.
pub open spec fn spec_handler_of(op: Operation) -> Handler {
    match op {
        Operation::Balance => Handler::Balance,
        Operation::Batch(_) => Handler::Batch,
        Operation::Create(_) => Handler::Create,
        Operation::Dump => Handler::Dump,
        Operation::Inscribe(_) => Handler::Inscribe,
        Operation::Inscriptions => Handler::Inscriptions,
        Operation::Mint(_) => Handler::Mint,
        Operation::Receive(_) => Handler::Receive,
        Operation::Restore(_) => Handler::Restore,
        Operation::Resume => Handler::Resume,
        Operation::Sats(_) => Handler::Sats,
        Operation::Send(_) => Handler::Send,
        Operation::Transactions(_) => Handler::Transactions,
        Operation::Outputs => Handler::Outputs,
        Operation::Cardinals => Handler::Cardinals,
    }
}

/// Looks the operation up in the dispatch table.
pub fn handler_for(op: &Operation) -> (r: Handler)
    ensures
        r == spec_handler_of(*op),
{
    match op {
        Operation::Balance => Handler::Balance,
        Operation::Batch(_) => Handler::Batch,
        Operation::Create(_) => Handler::Create,
        Operation::Dump => Handler::Dump,
        Operation::Inscribe(_) => Handler::Inscribe,
        Operation::Inscriptions => Handler::Inscriptions,
        Operation::Mint(_) => Handler::Mint,
        Operation::Receive(_) => Handler::Receive,
        Operation::Restore(_) => Handler::Restore,
        Operation::Resume => Handler::Resume,
        Operation::Sats(_) => Handler::Sats,
        Operation::Send(_) => Handler::Send,
        Operation::Transactions(_) => Handler::Transactions,
        Operation::Outputs => Handler::Outputs,
        Operation::Cardinals => Handler::Cardinals,
    }
}

/// Whether two operations are the same variant of the operation union.
pub open spec fn same_operation_variant(a: Operation, b: Operation) -> bool {
    match (a, b) {
        (Operation::Balance, Operation::Balance) => true,
        (Operation::Batch(_), Operation::Batch(_)) => true,
        (Operation::Create(_), Operation::Create(_)) => true,
        (Operation::Dump, Operation::Dump) => true,
        (Operation::Inscribe(_), Operation::Inscribe(_)) => true,
        (Operation::Inscriptions, Operation::Inscriptions) => true,
        (Operation::Mint(_), Operation::Mint(_)) => true,
        (Operation::Receive(_), Operation::Receive(_)) => true,
        (Operation::Restore(_), Operation::Restore(_)) => true,
        (Operation::Resume, Operation::Resume) => true,
        (Operation::Sats(_), Operation::Sats(_)) => true,
        (Operation::Send(_), Operation::Send(_)) => true,
        (Operation::Transactions(_), Operation::Transactions(_)) => true,
        (Operation::Outputs, Operation::Outputs) => true,
        (Operation::Cardinals, Operation::Cardinals) => true,
        _ => false,
    }
}

/// Dispatch completeness: the table assigns every operation variant exactly
/// one handler, and two operations share a handler only when they are the
/// same variant.
pub proof fn lemma_dispatch_exactly_one(a: Operation, b: Operation)
    ensures
        spec_handler_of(a) == spec_handler_of(b) <==> same_operation_variant(a, b),
{
}

/// Whether the operation creates or rebuilds wallet storage itself, so that
/// no pre-existing wallet context can or should be required.
pub open spec fn construct_only(op: Operation) -> bool {
    op is Create || op is Restore
}

/// Tests whether the operation is construction-only.
pub fn is_construct_only(op: &Operation) -> (r: bool)
    ensures
        r == construct_only(*op),
{
    match op {
        Operation::Create(_) | Operation::Restore(_) => true,
        _ => false,
    }
}

/// The construction-only operations are exactly those whose handler is the
/// create or restore handler: the dispatch table never needs them.
pub proof fn lemma_construct_only_handlers(op: Operation)
    ensures
        construct_only(op) <==> (spec_handler_of(op) == Handler::Create
            || spec_handler_of(op) == Handler::Restore),
{
}

/// How the wallet context is to be built: the two states are mutually
/// exclusive and exhaustive.
pub enum ConstructionMode {
    /// A read-only view bound to a single address, with no signing key.
    AddressBound { address: String },
    /// A fully loaded, key-capable wallet identified by name.
    NamedWallet { name: String },
}

/// The construction mode an invocation selects: address-bound whenever an
/// address is present, named otherwise.
pub open spec fn spec_mode_of(address: Option<String>, name: String) -> ConstructionMode {
    match address {
        Some(a) => ConstructionMode::AddressBound { address: a },
        None => ConstructionMode::NamedWallet { name },
    }
}

/// Selects the wallet-construction mode from the invocation's address
/// override and wallet name.
pub fn construction_mode(address: Option<String>, name: String) -> (r: ConstructionMode)
    ensures
        r == spec_mode_of(address, name),
{
    match address {
        Some(a) => ConstructionMode::AddressBound { address: a },
        None => ConstructionMode::NamedWallet { name },
    }
}

/// The router's failure: the resolved server URL text does not parse. This
/// is a configuration error, distinct from an argument-parse failure, which
/// is surfaced before the router runs.
pub enum RouterError {
    InvalidServerUrl { url: String },
}

impl RouterError {
    /// A short description of the error.
    pub fn message(&self) -> (r: String)
        ensures
            r@ == "invalid server URL"@,
    {
        String::from_str("invalid server URL")
    }
}

/// Everything a dispatched operation needs: the construction mode, the
/// resolved endpoint (as text and parsed), the sync flag, the operation
/// with its payload, and the handler it maps to.
pub struct DispatchPlan {
    pub mode: ConstructionMode,
    pub no_sync: bool,
    pub url_text: String,
    pub url: url::Url,
    pub operation: Operation,
    pub handler: Handler,
}

/// The router's decision: either a construction-only operation that runs
/// directly on wallet storage, or a plan for building a wallet context and
/// dispatching.
pub enum Routed {
    /// Create or restore: runs with the wallet name and settings alone,
    /// bypassing endpoint resolution and wallet construction.
    ConstructOnly { name: String, operation: Operation, handler: Handler },
    /// Any other operation: build the wallet context this way, then hand
    /// the operation to its handler.
    Dispatch { plan: DispatchPlan },
}

/// Routes one invocation. Construction-only operations short-circuit with
/// neither endpoint resolution nor wallet construction; every other
/// operation gets a dispatch plan, or a configuration error when the
/// resolved server URL does not parse.
pub fn route(invocation: Invocation, settings: &Settings) -> (r: Result<Routed, RouterError>)
    ensures
        construct_only(invocation.operation) ==> (r matches Ok(p)
            && (p matches Routed::ConstructOnly { name, operation, handler }
                && name == invocation.name
                && operation == invocation.operation
                && handler == spec_handler_of(invocation.operation))),
        !construct_only(invocation.operation) ==> (r is Ok <==> url_parse_ok(
            resolved_url_text(invocation.server_url, settings.server_url),
        )),
        !construct_only(invocation.operation) ==> (r matches Ok(p)
            ==> (p matches Routed::Dispatch { plan }
                && plan.mode == spec_mode_of(invocation.address, invocation.name)
                && plan.no_sync == invocation.no_sync
                && plan.url_text@ == resolved_url_text(invocation.server_url, settings.server_url)
                && plan.operation == invocation.operation
                && plan.handler == spec_handler_of(invocation.operation))),
        r matches Err(e) ==> (!construct_only(invocation.operation)
            && !url_parse_ok(resolved_url_text(invocation.server_url, settings.server_url))
            && (e matches RouterError::InvalidServerUrl { url }
                && url@ == resolved_url_text(invocation.server_url, settings.server_url))),
{
    let Invocation { name, no_sync, server_url, address, operation } = invocation;
    if is_construct_only(&operation) {
        let handler = handler_for(&operation);
        return Ok(Routed::ConstructOnly { name, operation, handler });
    }
    let url_text = resolve_server_url(&server_url, settings);
    match parse_url(url_text.as_str()) {
        Ok(url) => {
            let handler = handler_for(&operation);
            let mode = construction_mode(address, name);
            Ok(Routed::Dispatch {
                plan: DispatchPlan { mode, no_sync, url_text, url, operation, handler },
            })
        },
        Err(_) => Err(RouterError::InvalidServerUrl { url: url_text }),
    }
}

} // verus!
