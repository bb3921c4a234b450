//! The program's one instruction and the greeting it gives.

use vstd::prelude::*;
use vstd::string::StringExecFns;
use crate::context::Context;
use crate::context::Initialize;
use crate::program_id::pubkey_debug_text;

verus! {

/// Trusted: makes `anchor_lang::error::Error` known to the verifier as an opaque
/// type, so that a handler can have the result type that the framework expects
/// of it. Nothing is claimed of its values.
#[verifier::external_type_specification]
#[verifier::external_body]
pub struct ExError(anchor_lang::error::Error);

/// The words that open the greeting.
pub open spec fn greeting_prefix() -> Seq<char> {
    "Greetings from: "@
}

/// The greeting of a program whose identifier reads `id_text`.
pub open spec fn greeting(id_text: Seq<char>) -> Seq<char> {
    greeting_prefix() + id_text
}

/// Builds the greeting of a program whose identifier reads `id_text`.
pub fn greeting_line(id_text: &str) -> (line: String)
    ensures
        line@ == greeting(id_text@),
{
    String::from_str("Greetings from: ").concat(id_text)
}

/// Handles the `initialize` instruction. It never fails, it leaves the accounts
/// as they were, and it returns the one line that the caller is to log: the
/// greeting, with the running program's identifier as `Pubkey` shows it under
/// `{:?}`.
pub fn initialize(ctx: Context<Initialize>) -> (r: Result<String, anchor_lang::error::Error>)
    ensures
        r is Ok,
        r->Ok_0@ == greeting(pubkey_debug_text(ctx.program_id@)),
        *final(ctx.accounts) == *old(ctx.accounts),
{
    let id_text = ctx.program_id.debug_text();
    Ok(greeting_line(id_text.as_str()))
}

} // verus!
