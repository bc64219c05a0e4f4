//! The program's one instruction and the entry point that the runtime calls.

use crate::key::{base58_text, key_text, ProgramKey};
use vstd::prelude::*;

verus! {

/// The errors that the framework reports to the runtime.
#[verifier::external_type_specification]
#[verifier::external_body]
pub struct ExAnchorError(anchor_lang::error::Error);

/// An account as the runtime hands it to a program.
#[derive(Clone, Debug, PartialEq, Eq)]
pub struct AccountState {
    pub key: ProgramKey,
    pub owner: ProgramKey,
    pub lamports: u64,
    pub data: Vec<u8>,
    pub executable: bool,
}

/// The accounts that `initialize` requires: none.
#[derive(Clone, Copy, Debug, PartialEq, Eq, Structural)]
pub struct Initialize {}

/// What an instruction handler is given: the key of the program that runs
/// and the accounts that the instruction declares.
pub struct Context<T> {
    pub program_id: ProgramKey,
    pub accounts: T,
}

/// The text before the program's key in the greeting.
pub open spec fn greeting_prefix() -> Seq<char> {
    "Greetings from: "@
}

/// The line that `initialize` logs for the program with key `program_id`.
pub open spec fn greeting_text(program_id: Seq<u8>) -> Seq<char> {
    greeting_prefix() + base58_text(program_id)
}

/// The lines of a program log.
pub open spec fn log_text(log: Seq<String>) -> Seq<Seq<char>> {
    log.map_values(|line: String| line@)
}

/// What one invocation leaves behind, from the accounts and the log lines
/// before it: the accounts as they were, and the log with one greeting more.
pub open spec fn invoked(program_id: Seq<u8>, accounts: Seq<AccountState>, log: Seq<Seq<char>>) -> (
    Seq<AccountState>,
    Seq<Seq<char>>,
) {
    (accounts, log.push(greeting_text(program_id)))
}

/// The greeting for a program whose key reads `key_text`.
pub fn greeting_line(key_text: &str) -> (r: String)
    ensures
        r@ == greeting_prefix() + key_text@,
{
    let mut r = String::from_str("Greetings from: ");
    r.append(key_text);
    r
}

/// The `initialize` instruction: logs a greeting that names the program and
/// succeeds. It reads and writes no account.
pub fn initialize(ctx: Context<Initialize>, log: &mut Vec<String>) -> (r: Result<(), anchor_lang::error::Error>)
    ensures
        r is Ok,
        log_text(final(log)@) == log_text(old(log)@).push(greeting_text(ctx.program_id@)),
{
    let text = key_text(&ctx.program_id);
    let line = greeting_line(text.as_str());
    log.push(line);
    assert(log_text(log@) =~= log_text(old(log)@).push(greeting_text(ctx.program_id@)));
    Ok(())
}

/// The program's entry point. `initialize` declares no accounts, so all
/// those given are left over and untouched; it takes no arguments, so the
/// instruction data is not read.
pub fn entry(
    program_id: &ProgramKey,
    accounts: &mut Vec<AccountState>,
    _data: &[u8],
    log: &mut Vec<String>,
) -> (r: Result<(), anchor_lang::error::Error>)
    ensures
        r is Ok,
        final(accounts)@ == old(accounts)@,
        (final(accounts)@, log_text(final(log)@)) == invoked(
            program_id@,
            old(accounts)@,
            log_text(old(log)@),
        ),
{
    let ctx = Context { program_id: *program_id, accounts: Initialize {} };
    initialize(ctx, log)
}

/// The greeting names the program: after the prefix, the line is the base58
/// text of the program's key, and nothing else.
pub proof fn lemma_greeting_names_program(program_id: Seq<u8>)
    ensures
        greeting_text(program_id).len() == greeting_prefix().len() + base58_text(program_id).len(),
        greeting_text(program_id).subrange(
            greeting_prefix().len() as int,
            greeting_text(program_id).len() as int,
        ) == base58_text(program_id),
{
    assert(greeting_text(program_id).subrange(
        greeting_prefix().len() as int,
        greeting_text(program_id).len() as int,
    ) =~= base58_text(program_id));
}

/// Two invocations in a row are independent: the accounts end as they
/// began, and the log gains two equal greeting lines and nothing else.
pub proof fn lemma_invocations_independent(
    program_id: Seq<u8>,
    accounts: Seq<AccountState>,
    log: Seq<Seq<char>>,
)
    ensures
        ({
            let first = invoked(program_id, accounts, log);
            let second = invoked(program_id, first.0, first.1);
            &&& second.0 == accounts
            &&& second.1 == log + seq![greeting_text(program_id), greeting_text(program_id)]
            &&& second.1[log.len() as int] == second.1[log.len() + 1int]
        }),
{
    let first = invoked(program_id, accounts, log);
    let second = invoked(program_id, first.0, first.1);
    assert(second.1 =~= log + seq![greeting_text(program_id), greeting_text(program_id)]);
}

} // verus!
