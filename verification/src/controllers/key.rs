//! The key stage: gives a tunnel its key pair, kept in a secret that the
//! tunnel owns. Whoever stores the secret first decides the keys; a later
//! writer finds the secret there and takes over what it holds.

use crate::controllers::{settled, writing, Action, Reconciliation, ReconciliationView};
use crate::drivers::key::{generate, genkey, keygen, KeygenStep, KeygenStepView};
use crate::drivers::system::{Command, CommandOutput, CommandOutputView, CommandView};
use crate::errors::{Error, ErrorView};
use crate::helpers::{ObjectReference, ObjectReferenceView};
use crate::secrets::{get_keys_from_secret, KeySecret, KeySecretView};
use crate::wireguard::configs::{
    text_of, StatusPatch, StatusPatchView, StatusView, WireguardConfig,
};
use vstd::prelude::*;
use vstd::string::*;

verus! {

/// How far a run of the key stage has come.
#[derive(Debug, PartialEq)]
pub enum KeyStage {
    /// Nothing was done yet.
    Start,
    /// The command that makes the private key is running.
    PrivateKeyAwaited,
    /// The command that derives the public key is running; `genkey` is
    /// how the first command ended.
    PublicKeyAwaited { genkey: CommandOutput },
    /// The secret with these keys is being stored.
    CreateAwaited { private_key: String, public_key: String },
    /// The secret that was there already is being read.
    ReadAwaited,
    /// The run is over.
    Finished,
}

/// What a `KeyStage` denotes.
pub enum KeyStageView {
    Start,
    PrivateKeyAwaited,
    PublicKeyAwaited { genkey: CommandOutputView },
    CreateAwaited { private_key: Seq<char>, public_key: Seq<char> },
    ReadAwaited,
    Finished,
}

impl View for KeyStage {
    type V = KeyStageView;

    open spec fn view(&self) -> KeyStageView {
        match self {
            KeyStage::Start => KeyStageView::Start,
            KeyStage::PrivateKeyAwaited => KeyStageView::PrivateKeyAwaited,
            KeyStage::PublicKeyAwaited { genkey } => KeyStageView::PublicKeyAwaited {
                genkey: genkey@,
            },
            KeyStage::CreateAwaited { private_key, public_key } => KeyStageView::CreateAwaited {
                private_key: private_key@,
                public_key: public_key@,
            },
            KeyStage::ReadAwaited => KeyStageView::ReadAwaited,
            KeyStage::Finished => KeyStageView::Finished,
        }
    }
}

/// What came of the last request of the key stage.
#[derive(Debug, PartialEq)]
pub enum KeyEvent {
    /// Nothing was asked yet.
    Begin,
    /// The command ran, and ended so.
    Ran(CommandOutput),
    /// The secret was stored.
    Created,
    /// A secret of that name was there already.
    AlreadyExists,
    /// The secret was read.
    Found(KeySecret),
    /// The store failed in any other way.
    StoreFailed,
}

/// What a `KeyEvent` denotes.
pub enum KeyEventView {
    Begin,
    Ran(CommandOutputView),
    Created,
    AlreadyExists,
    Found(KeySecretView),
    StoreFailed,
}

impl View for KeyEvent {
    type V = KeyEventView;

    open spec fn view(&self) -> KeyEventView {
        match self {
            KeyEvent::Begin => KeyEventView::Begin,
            KeyEvent::Ran(output) => KeyEventView::Ran(output@),
            KeyEvent::Created => KeyEventView::Created,
            KeyEvent::AlreadyExists => KeyEventView::AlreadyExists,
            KeyEvent::Found(secret) => KeyEventView::Found(secret@),
            KeyEvent::StoreFailed => KeyEventView::StoreFailed,
        }
    }
}

/// What the key stage asks for next.
#[derive(Debug, PartialEq)]
pub enum KeyRequest {
    /// Run this command.
    Run(Command),
    /// Store this secret, unless one of its name is there.
    Create(KeySecret),
    /// Read the secret `name` in `namespace`.
    Read { namespace: String, name: String },
    /// The run is over: write the patch, if any, and run again as told.
    Settle(Reconciliation),
    /// The run has failed.
    Fail(Error),
}

/// What a `KeyRequest` denotes.
pub enum KeyRequestView {
    Run(CommandView),
    Create(KeySecretView),
    Read { namespace: Seq<char>, name: Seq<char> },
    Settle(ReconciliationView),
    Fail(ErrorView),
}

impl View for KeyRequest {
    type V = KeyRequestView;

    open spec fn view(&self) -> KeyRequestView {
        match self {
            KeyRequest::Run(command) => KeyRequestView::Run(command@),
            KeyRequest::Create(secret) => KeyRequestView::Create(secret@),
            KeyRequest::Read { namespace, name } => KeyRequestView::Read {
                namespace: namespace@,
                name: name@,
            },
            KeyRequest::Settle(reconciliation) => KeyRequestView::Settle(reconciliation@),
            KeyRequest::Fail(error) => KeyRequestView::Fail(error@),
        }
    }
}

/// The run ends in failure.
pub open spec fn failing(error: ErrorView) -> (KeyStageView, KeyRequestView) {
    (KeyStageView::Finished, KeyRequestView::Fail(error))
}

/// The run ends with the tunnel's keys: the reference to the secret
/// `namespace/name`, and `public_key`.
pub open spec fn keyed(name: Seq<char>, namespace: Seq<char>, public_key: Seq<char>) -> (
    KeyStageView,
    KeyRequestView,
) {
    (
        KeyStageView::Finished,
        KeyRequestView::Settle(
            writing(
                StatusPatchView::Key {
                    private_key: ObjectReferenceView { name, namespace: Some(namespace) },
                    public_key,
                },
            ),
        ),
    )
}

/// One step of the storing of a tunnel's keys: where the run stands after
/// `event` arrived in `stage`, and what it asks for next.
///
/// Where the secret was stored, the run ends with the keys that were
/// generated. Where a secret of that name was there already, that secret is
/// read, and the run ends with the keys it holds. Any other failure of the
/// store fails the run, and so does a secret that lacks a key.
pub open spec fn secret_stage(
    name: Seq<char>,
    namespace: Seq<char>,
    stage: KeyStageView,
    event: KeyEventView,
) -> (KeyStageView, KeyRequestView) {
    match (stage, event) {
        (KeyStageView::CreateAwaited { private_key, public_key }, KeyEventView::Created) => keyed(
            name,
            namespace,
            public_key,
        ),
        (KeyStageView::CreateAwaited { .. }, KeyEventView::AlreadyExists) => (
            KeyStageView::ReadAwaited,
            KeyRequestView::Read { namespace, name },
        ),
        (KeyStageView::CreateAwaited { .. }, KeyEventView::StoreFailed) => failing(
            ErrorView::SecretWriteError,
        ),
        (KeyStageView::ReadAwaited, KeyEventView::Found(secret)) => match secret.keys() {
            Some((private_key, public_key)) => keyed(name, namespace, public_key),
            None => failing(ErrorView::MalformedSecret),
        },
        (KeyStageView::ReadAwaited, KeyEventView::StoreFailed) => failing(
            ErrorView::SecretReadError,
        ),
        _ => failing(ErrorView::UnexpectedEvent),
    }
}

/// One step of the key stage for the tunnel `name` in `namespace` with
/// identifier `uid` and state `status`: where the run stands after `event`
/// arrived in `stage`, and what it asks for next.
///
/// A tunnel that has its key reference is left alone. Otherwise a key pair
/// is generated and stored in a secret; where a secret is there already,
/// the generated pair is dropped and the stored one taken.
pub open spec fn key_stage(
    name: Seq<char>,
    namespace: Seq<char>,
    uid: Option<Seq<char>>,
    status: StatusView,
    stage: KeyStageView,
    event: KeyEventView,
) -> (KeyStageView, KeyRequestView) {
    match (stage, event) {
        (KeyStageView::Start, _) => if status.private_key is Some {
            (KeyStageView::Finished, KeyRequestView::Settle(settled()))
        } else if uid is None {
            failing(ErrorView::ResourceNotFound)
        } else {
            (KeyStageView::PrivateKeyAwaited, KeyRequestView::Run(genkey()))
        },
        (KeyStageView::PrivateKeyAwaited, KeyEventView::Ran(first)) => match keygen(
            Some(first),
            None,
        ) {
            KeygenStepView::Run(command) => (
                KeyStageView::PublicKeyAwaited { genkey: first },
                KeyRequestView::Run(command),
            ),
            KeygenStepView::Failed(error) => failing(error),
            KeygenStepView::Done { .. } => failing(ErrorView::UnexpectedEvent),
        },
        (KeyStageView::PublicKeyAwaited { genkey: first }, KeyEventView::Ran(second)) => match keygen(
            Some(first),
            Some(second),
        ) {
            KeygenStepView::Done { private_key, public_key } => match uid {
                Some(uid) => (
                    KeyStageView::CreateAwaited { private_key, public_key },
                    KeyRequestView::Create(
                        KeySecretView::of_tunnel(name, namespace, uid, private_key, public_key),
                    ),
                ),
                None => failing(ErrorView::ResourceNotFound),
            },
            KeygenStepView::Failed(error) => failing(error),
            KeygenStepView::Run(_) => failing(ErrorView::UnexpectedEvent),
        },
        (KeyStageView::CreateAwaited { .. }, _) => secret_stage(name, namespace, stage, event),
        (KeyStageView::ReadAwaited, _) => secret_stage(name, namespace, stage, event),
        _ => failing(ErrorView::UnexpectedEvent),
    }
}

/// The request that ends a run with the tunnel's keys.
fn settle_keys(config: &WireguardConfig, public_key: String) -> (r: (KeyStage, KeyRequest))
    ensures
        (r.0@, r.1@) == keyed(config.metadata.name@, config.namespace_view(), public_key@),
{
    (
        KeyStage::Finished,
        KeyRequest::Settle(
            Reconciliation {
                patch: Some(
                    StatusPatch::Key {
                        private_key: ObjectReference {
                            name: config.metadata.name.clone(),
                            namespace: Some(config.namespace()),
                        },
                        public_key,
                    },
                ),
                action: Action::AwaitChange,
            },
        ),
    )
}

/// Takes one step of the storing of the keys of `config`: settles on the
/// generated keys once their secret is stored, and on the keys of the
/// secret that was there already where there was one.
pub fn generate_secret_ref(config: &WireguardConfig, stage: KeyStage, event: KeyEvent) -> (r: (
    KeyStage,
    KeyRequest,
))
    ensures
        (r.0@, r.1@) == secret_stage(
            config.metadata.name@,
            config.namespace_view(),
            stage@,
            event@,
        ),
{
    match (stage, event) {
        (KeyStage::CreateAwaited { private_key, public_key }, KeyEvent::Created) => settle_keys(
            config,
            public_key,
        ),
        (KeyStage::CreateAwaited { .. }, KeyEvent::AlreadyExists) => (
            KeyStage::ReadAwaited,
            KeyRequest::Read { namespace: config.namespace(), name: config.metadata.name.clone() },
        ),
        (KeyStage::CreateAwaited { .. }, KeyEvent::StoreFailed) => (
            KeyStage::Finished,
            KeyRequest::Fail(Error::SecretWriteError),
        ),
        (KeyStage::ReadAwaited, KeyEvent::Found(secret)) => match get_keys_from_secret(&secret) {
            Ok((private_key, public_key)) => settle_keys(config, public_key),
            Err(error) => (KeyStage::Finished, KeyRequest::Fail(error)),
        },
        (KeyStage::ReadAwaited, KeyEvent::StoreFailed) => (
            KeyStage::Finished,
            KeyRequest::Fail(Error::SecretReadError),
        ),
        _ => (KeyStage::Finished, KeyRequest::Fail(Error::UnexpectedEvent)),
    }
}

/// Takes one step of the key stage on `config`. A run starts in
/// `KeyStage::Start` with `KeyEvent::Begin`; the caller does what is asked,
/// and comes back with the stage that was returned and what came of the
/// request, until the request is to settle or to fail.
pub fn reconcile(config: &WireguardConfig, stage: KeyStage, event: KeyEvent) -> (r: (
    KeyStage,
    KeyRequest,
))
    ensures
        (r.0@, r.1@) == key_stage(
            config.metadata.name@,
            config.namespace_view(),
            text_of(config.metadata.uid),
            config.status_view(),
            stage@,
            event@,
        ),
{
    match (stage, event) {
        (KeyStage::Start, _) => {
            let keyed = match &config.status {
                Some(status) => status.private_key.is_some(),
                None => false,
            };
            if keyed {
                (
                    KeyStage::Finished,
                    KeyRequest::Settle(Reconciliation { patch: None, action: Action::AwaitChange }),
                )
            } else if config.metadata.uid.is_none() {
                (KeyStage::Finished, KeyRequest::Fail(Error::ResourceNotFound))
            } else {
                match generate(None, None) {
                    KeygenStep::Run(command) => (KeyStage::PrivateKeyAwaited, KeyRequest::Run(command)),
                    KeygenStep::Failed(error) => (KeyStage::Finished, KeyRequest::Fail(error)),
                    KeygenStep::Done { .. } => (
                        KeyStage::Finished,
                        KeyRequest::Fail(Error::UnexpectedEvent),
                    ),
                }
            }
        },
        (KeyStage::PrivateKeyAwaited, KeyEvent::Ran(first)) => {
            let kept = CommandOutput {
                success: first.success,
                stdout: first.stdout.clone(),
                stderr: first.stderr.clone(),
            };
            match generate(Some(first), None) {
                KeygenStep::Run(command) => (
                    KeyStage::PublicKeyAwaited { genkey: kept },
                    KeyRequest::Run(command),
                ),
                KeygenStep::Failed(error) => (KeyStage::Finished, KeyRequest::Fail(error)),
                KeygenStep::Done { .. } => (
                    KeyStage::Finished,
                    KeyRequest::Fail(Error::UnexpectedEvent),
                ),
            }
        },
        (KeyStage::PublicKeyAwaited { genkey: first }, KeyEvent::Ran(second)) => {
            match generate(Some(first), Some(second)) {
                KeygenStep::Done { private_key, public_key } => match &config.metadata.uid {
                    Some(uid) => {
                        let namespace = config.namespace();
                        let secret = KeySecret::of_tunnel(
                            config.metadata.name.as_str(),
                            namespace.as_str(),
                            uid.as_str(),
                            private_key.as_str(),
                            public_key.as_str(),
                        );
                        (
                            KeyStage::CreateAwaited { private_key, public_key },
                            KeyRequest::Create(secret),
                        )
                    },
                    None => (KeyStage::Finished, KeyRequest::Fail(Error::ResourceNotFound)),
                },
                KeygenStep::Failed(error) => (KeyStage::Finished, KeyRequest::Fail(error)),
                KeygenStep::Run(_) => (KeyStage::Finished, KeyRequest::Fail(Error::UnexpectedEvent)),
            }
        },
        (KeyStage::CreateAwaited { private_key, public_key }, event) => generate_secret_ref(
            config,
            KeyStage::CreateAwaited { private_key, public_key },
            event,
        ),
        (KeyStage::ReadAwaited, event) => generate_secret_ref(config, KeyStage::ReadAwaited, event),
        _ => (KeyStage::Finished, KeyRequest::Fail(Error::UnexpectedEvent)),
    }
}

/// What storing `secret` does to a store that holds `stored` under the
/// secret's name: it is stored where nothing was there, and refused, with
/// the store unchanged, where something was.
pub open spec fn store_create(stored: Option<KeySecretView>, secret: KeySecretView) -> (
    Option<KeySecretView>,
    KeyEventView,
) {
    match stored {
        None => (Some(secret), KeyEventView::Created),
        Some(_) => (stored, KeyEventView::AlreadyExists),
    }
}

/// What a writer that generated `private_key` and `public_key` leaves in
/// the store, and what it settles on, when the store holds `stored` under
/// the tunnel's name as the writer comes to store its secret.
pub open spec fn write_keys(
    name: Seq<char>,
    namespace: Seq<char>,
    uid: Seq<char>,
    status: StatusView,
    stored: Option<KeySecretView>,
    private_key: Seq<char>,
    public_key: Seq<char>,
) -> (Option<KeySecretView>, KeyRequestView) {
    let awaited = KeyStageView::CreateAwaited { private_key, public_key };
    let (after, created) = store_create(
        stored,
        KeySecretView::of_tunnel(name, namespace, uid, private_key, public_key),
    );
    let (stage, request) = key_stage(name, namespace, Some(uid), status, awaited, created);
    match (request, after) {
        (KeyRequestView::Read { .. }, Some(found)) => (
            after,
            key_stage(name, namespace, Some(uid), status, stage, KeyEventView::Found(found)).1,
        ),
        _ => (after, request),
    }
}

/// Two writers for one tunnel, each with a key pair of its own, leave one
/// secret in the store, the first writer's, and both settle on the first
/// writer's public key.
pub proof fn lemma_two_writers_converge(
    name: Seq<char>,
    namespace: Seq<char>,
    uid: Seq<char>,
    status: StatusView,
    first_private: Seq<char>,
    first_public: Seq<char>,
    second_private: Seq<char>,
    second_public: Seq<char>,
)
    ensures
        ({
            let first = write_keys(
                name,
                namespace,
                uid,
                status,
                None,
                first_private,
                first_public,
            );
            let second = write_keys(
                name,
                namespace,
                uid,
                status,
                first.0,
                second_private,
                second_public,
            );
            &&& first.0 == Some(
                KeySecretView::of_tunnel(name, namespace, uid, first_private, first_public),
            )
            &&& second.0 == first.0
            &&& first.1 == keyed(name, namespace, first_public).1
            &&& second.1 == keyed(name, namespace, first_public).1
        }),
{
}

} // verus!
