//! Generation of a tunnel's key pair by the `wg` tool: one command makes
//! the private key, a second derives the public key from it.

use crate::drivers::system::{
    fed, output_of, plain, push_arg, Command, CommandOutput, CommandOutputView, CommandView,
};
use crate::errors::{Error, ErrorView};
use vstd::prelude::*;
use vstd::string::*;

verus! {

pub type PrivateKey = String;

pub type PublicKey = String;

/// What key generation does next.
#[derive(Debug, PartialEq)]
pub enum KeygenStep {
    /// This command is to be run, and its output handed back.
    Run(Command),
    /// Both keys are there.
    Done { private_key: PrivateKey, public_key: PublicKey },
    /// A command failed.
    Failed(Error),
}

/// What a `KeygenStep` denotes.
pub enum KeygenStepView {
    Run(CommandView),
    Done { private_key: Seq<char>, public_key: Seq<char> },
    Failed(ErrorView),
}

impl View for KeygenStep {
    type V = KeygenStepView;

    open spec fn view(&self) -> KeygenStepView {
        match self {
            KeygenStep::Run(command) => KeygenStepView::Run(command@),
            KeygenStep::Done { private_key, public_key } => KeygenStepView::Done {
                private_key: private_key@,
                public_key: public_key@,
            },
            KeygenStep::Failed(error) => KeygenStepView::Failed(error@),
        }
    }
}

/// The command that makes a private key.
pub open spec fn genkey() -> CommandView {
    plain("wg"@, seq!["genkey"@])
}

/// The command that derives the public key of `private_key`, which it is
/// given on standard input.
pub open spec fn pubkey(private_key: Seq<char>) -> CommandView {
    fed("wg"@, seq!["pubkey"@], private_key)
}

/// What key generation does next, given the output of the first command
/// and of the second, as far as they have run.
pub open spec fn keygen(
    private_key: Option<CommandOutputView>,
    public_key: Option<CommandOutputView>,
) -> KeygenStepView {
    match private_key {
        None => KeygenStepView::Run(genkey()),
        Some(first) => match first.result() {
            Err(error) => KeygenStepView::Failed(error),
            Ok(private_key) => match public_key {
                None => KeygenStepView::Run(pubkey(private_key)),
                Some(second) => match second.result() {
                    Err(error) => KeygenStepView::Failed(error),
                    Ok(public_key) => KeygenStepView::Done { private_key, public_key },
                },
            },
        },
    }
}

/// Generates a key pair, step by step: call it with the outputs of the
/// commands it has asked for so far, run the command it asks for, and call
/// it again, until it is done or has failed.
pub fn generate(private_key: Option<CommandOutput>, public_key: Option<CommandOutput>) -> (r:
    KeygenStep)
    ensures
        r@ == keygen(output_of(private_key), output_of(public_key)),
{
    let first = match private_key {
        None => {
            let mut args: Vec<String> = Vec::new();
            push_arg(&mut args, "genkey");
            let command = Command::new("wg", args);
            assert(command@.args =~= genkey().args);
            return KeygenStep::Run(command);
        },
        Some(first) => first,
    };
    let private_key = match first.into_result() {
        Err(error) => { return KeygenStep::Failed(error); },
        Ok(private_key) => private_key,
    };
    let second = match public_key {
        None => {
            let mut args: Vec<String> = Vec::new();
            push_arg(&mut args, "pubkey");
            let command = Command::with_stdin("wg", args, private_key.as_str());
            assert(command@.args =~= pubkey(private_key@).args);
            return KeygenStep::Run(command);
        },
        Some(second) => second,
    };
    match second.into_result() {
        Err(error) => KeygenStep::Failed(error),
        Ok(public_key) => KeygenStep::Done { private_key, public_key },
    }
}

} // verus!
