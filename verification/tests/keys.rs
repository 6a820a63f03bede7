use podtunnel::controllers::key::{self, generate_secret_ref, KeyEvent, KeyRequest, KeyStage};
use podtunnel::controllers::{Action, Reconciliation};
use podtunnel::drivers::key::{generate, KeygenStep};
use podtunnel::drivers::system::{Command, CommandOutput};
use podtunnel::errors::Error;
use podtunnel::helpers::ObjectReference;
use podtunnel::secrets::{
    get_keys_from_secret, secret_label_selector, KeyData, KeySecret, OwnerReference,
};
use podtunnel::wireguard::configs::{
    ObjectMeta, StatusPatch, WireguardConfig, WireguardConfigSpec, WireguardConfigStatus,
};

fn tunnel(name: &str) -> WireguardConfig {
    WireguardConfig {
        metadata: ObjectMeta {
            name: name.to_string(),
            namespace: Some("default".to_string()),
            uid: Some("1234-abcd".to_string()),
        },
        spec: WireguardConfigSpec::default(),
        status: None,
    }
}

fn ok(stdout: &str) -> CommandOutput {
    CommandOutput { success: true, stdout: stdout.to_string(), stderr: String::new() }
}

fn failed(stderr: &str) -> CommandOutput {
    CommandOutput { success: false, stdout: "ignored".to_string(), stderr: stderr.to_string() }
}

fn genkey() -> Command {
    Command { program: "wg".to_string(), args: vec!["genkey".to_string()], stdin: None }
}

fn pubkey(private_key: &str) -> Command {
    Command {
        program: "wg".to_string(),
        args: vec!["pubkey".to_string()],
        stdin: Some(private_key.to_string()),
    }
}

fn stored(name: &str, private_key: &str, public_key: &str) -> KeySecret {
    KeySecret {
        name: name.to_string(),
        namespace: "default".to_string(),
        owner: Some(OwnerReference {
            api_version: "podtunnel.com/v1alpha1".to_string(),
            kind: "WireguardConfig".to_string(),
            name: name.to_string(),
            uid: "1234-abcd".to_string(),
        }),
        labels: vec![("operator.podtunnel.com/wireguard_config".to_string(), name.to_string())],
        data: Some(KeyData {
            private_key: Some(private_key.to_string()),
            public_key: Some(public_key.to_string()),
        }),
    }
}

fn keyed(name: &str, public_key: &str) -> KeyRequest {
    KeyRequest::Settle(Reconciliation {
        patch: Some(StatusPatch::Key {
            private_key: ObjectReference {
                name: name.to_string(),
                namespace: Some("default".to_string()),
            },
            public_key: public_key.to_string(),
        }),
        action: Action::AwaitChange,
    })
}

#[test]
fn key_generation_runs_two_commands() {
    assert_eq!(generate(None, None), KeygenStep::Run(genkey()));
    assert_eq!(generate(Some(ok("PRIV\n")), None), KeygenStep::Run(pubkey("PRIV")));
    assert_eq!(
        generate(Some(ok("PRIV\n")), Some(ok(" PUB \n"))),
        KeygenStep::Done { private_key: "PRIV".to_string(), public_key: "PUB".to_string() }
    );
}

#[test]
fn a_failed_key_command_fails_the_generation_with_its_standard_error() {
    assert_eq!(
        generate(Some(failed("no wg")), None),
        KeygenStep::Failed(Error::CommandFailed { stderr: "no wg".to_string() })
    );
    assert_eq!(
        generate(Some(failed("no wg")), Some(ok("PUB"))),
        KeygenStep::Failed(Error::CommandFailed { stderr: "no wg".to_string() })
    );
    assert_eq!(
        generate(Some(ok("PRIV")), Some(failed("bad key\n"))),
        KeygenStep::Failed(Error::CommandFailed { stderr: "bad key\n".to_string() })
    );
}

#[test]
fn the_output_of_a_command_is_its_trimmed_standard_output() {
    assert_eq!(ok("  out \n").into_result(), Ok("out".to_string()));
    assert_eq!(
        failed(" err \n").into_result(),
        Err(Error::CommandFailed { stderr: " err \n".to_string() })
    );
    assert_eq!(
        Error::CommandFailed { stderr: "boom".to_string() }.to_string(),
        "command failed, stderr: boom"
    );
}

#[test]
fn a_tunnel_with_a_key_reference_is_left_alone() {
    let mut config = tunnel("a");
    config.status = Some(WireguardConfigStatus {
        private_key: Some(ObjectReference { name: "a".to_string(), namespace: None }),
        ..WireguardConfigStatus::default()
    });
    let (stage, request) = key::reconcile(&config, KeyStage::Start, KeyEvent::Begin);
    assert_eq!(stage, KeyStage::Finished);
    assert_eq!(
        request,
        KeyRequest::Settle(Reconciliation { patch: None, action: Action::AwaitChange })
    );
}

#[test]
fn the_first_writer_stores_its_own_keys() {
    let config = tunnel("a");
    let (stage, request) = key::reconcile(&config, KeyStage::Start, KeyEvent::Begin);
    assert_eq!(request, KeyRequest::Run(genkey()));
    let (stage, request) = key::reconcile(&config, stage, KeyEvent::Ran(ok("PRIV-1\n")));
    assert_eq!(request, KeyRequest::Run(pubkey("PRIV-1")));
    let (stage, request) = key::reconcile(&config, stage, KeyEvent::Ran(ok("PUB-1\n")));
    assert_eq!(request, KeyRequest::Create(stored("a", "PRIV-1", "PUB-1")));
    let (stage, request) = key::reconcile(&config, stage, KeyEvent::Created);
    assert_eq!(stage, KeyStage::Finished);
    assert_eq!(request, keyed("a", "PUB-1"));
}

fn run_against_store(
    config: &WireguardConfig,
    store: &mut Vec<KeySecret>,
    private_key: &str,
    public_key: &str,
) -> KeyRequest {
    let mut stage = KeyStage::Start;
    let mut event = KeyEvent::Begin;
    let mut commands = 0;
    loop {
        let (next, request) = key::reconcile(config, stage, event);
        stage = next;
        event = match request {
            KeyRequest::Run(_) => {
                commands += 1;
                KeyEvent::Ran(ok(if commands == 1 { private_key } else { public_key }))
            }
            KeyRequest::Create(secret) => {
                if store.iter().any(|s| s.name == secret.name && s.namespace == secret.namespace) {
                    KeyEvent::AlreadyExists
                } else {
                    store.push(secret);
                    KeyEvent::Created
                }
            }
            KeyRequest::Read { namespace, name } => {
                match store.iter().find(|s| s.name == name && s.namespace == namespace) {
                    Some(secret) => KeyEvent::Found(stored(
                        &secret.name,
                        secret.data.as_ref().unwrap().private_key.as_ref().unwrap(),
                        secret.data.as_ref().unwrap().public_key.as_ref().unwrap(),
                    )),
                    None => KeyEvent::StoreFailed,
                }
            }
            done => return done,
        };
    }
}

#[test]
fn two_writers_end_with_one_secret_and_the_same_public_key() {
    let config = tunnel("a");
    let mut store: Vec<KeySecret> = Vec::new();
    let first = run_against_store(&config, &mut store, "PRIV-1", "PUB-1");
    let second = run_against_store(&config, &mut store, "PRIV-2", "PUB-2");
    assert_eq!(store, vec![stored("a", "PRIV-1", "PUB-1")]);
    assert_eq!(first, keyed("a", "PUB-1"));
    assert_eq!(second, keyed("a", "PUB-1"));
}

#[test]
fn two_interleaved_writers_end_with_one_secret_and_the_same_public_key() {
    let config = tunnel("a");
    let mut store: Vec<KeySecret> = Vec::new();

    let (one, _) = key::reconcile(&config, KeyStage::Start, KeyEvent::Begin);
    let (two, _) = key::reconcile(&config, KeyStage::Start, KeyEvent::Begin);
    let (one, _) = key::reconcile(&config, one, KeyEvent::Ran(ok("PRIV-1")));
    let (two, _) = key::reconcile(&config, two, KeyEvent::Ran(ok("PRIV-2")));
    let (one, create_one) = key::reconcile(&config, one, KeyEvent::Ran(ok("PUB-1")));
    let (two, create_two) = key::reconcile(&config, two, KeyEvent::Ran(ok("PUB-2")));
    assert_eq!(create_one, KeyRequest::Create(stored("a", "PRIV-1", "PUB-1")));
    assert_eq!(create_two, KeyRequest::Create(stored("a", "PRIV-2", "PUB-2")));

    store.push(stored("a", "PRIV-2", "PUB-2"));
    let (_, settled_two) = key::reconcile(&config, two, KeyEvent::Created);
    let (one, read) = key::reconcile(&config, one, KeyEvent::AlreadyExists);
    assert_eq!(
        read,
        KeyRequest::Read { namespace: "default".to_string(), name: "a".to_string() }
    );
    let (one, settled_one) =
        key::reconcile(&config, one, KeyEvent::Found(stored("a", "PRIV-2", "PUB-2")));
    assert_eq!(one, KeyStage::Finished);
    assert_eq!(store.len(), 1);
    assert_eq!(settled_one, keyed("a", "PUB-2"));
    assert_eq!(settled_two, keyed("a", "PUB-2"));
}

#[test]
fn store_failures_fail_the_key_stage() {
    let config = tunnel("a");
    let creating = || KeyStage::CreateAwaited {
        private_key: "PRIV".to_string(),
        public_key: "PUB".to_string(),
    };
    assert_eq!(
        key::reconcile(&config, creating(), KeyEvent::StoreFailed),
        (KeyStage::Finished, KeyRequest::Fail(Error::SecretWriteError))
    );
    assert_eq!(
        key::reconcile(&config, KeyStage::ReadAwaited, KeyEvent::StoreFailed),
        (KeyStage::Finished, KeyRequest::Fail(Error::SecretReadError))
    );
    let mut broken = stored("a", "PRIV", "PUB");
    broken.data.as_mut().unwrap().public_key = None;
    assert_eq!(
        key::reconcile(&config, KeyStage::ReadAwaited, KeyEvent::Found(broken)),
        (KeyStage::Finished, KeyRequest::Fail(Error::MalformedSecret))
    );
    assert_eq!(
        key::reconcile(&config, KeyStage::ReadAwaited, KeyEvent::Created),
        (KeyStage::Finished, KeyRequest::Fail(Error::UnexpectedEvent))
    );
    assert_eq!(
        key::reconcile(&config, KeyStage::PrivateKeyAwaited, KeyEvent::Ran(failed("oops"))),
        (
            KeyStage::Finished,
            KeyRequest::Fail(Error::CommandFailed { stderr: "oops".to_string() })
        )
    );
}

#[test]
fn a_tunnel_without_identifier_cannot_own_a_secret() {
    let mut config = tunnel("a");
    config.metadata.uid = None;
    assert_eq!(
        key::reconcile(&config, KeyStage::Start, KeyEvent::Begin),
        (KeyStage::Finished, KeyRequest::Fail(Error::ResourceNotFound))
    );
}

#[test]
fn the_keys_of_a_secret_are_read_back() {
    assert_eq!(
        get_keys_from_secret(&stored("a", "PRIV", "PUB")),
        Ok(("PRIV".to_string(), "PUB".to_string()))
    );
    assert_eq!(
        KeySecret::of_tunnel("a", "default", "1234-abcd", "PRIV", "PUB"),
        stored("a", "PRIV", "PUB")
    );
    let mut no_data = stored("a", "PRIV", "PUB");
    no_data.data = None;
    assert_eq!(get_keys_from_secret(&no_data), Err(Error::MalformedSecret));
    let mut no_private = stored("a", "PRIV", "PUB");
    no_private.data.as_mut().unwrap().private_key = None;
    assert_eq!(get_keys_from_secret(&no_private), Err(Error::MalformedSecret));
    assert_eq!(
        secret_label_selector("pod-1"),
        "operator.podtunnel.com/wireguard_config=pod-1"
    );
}

#[test]
fn an_existing_secret_is_read_and_its_keys_are_taken() {
    let config = tunnel("a");
    let creating = KeyStage::CreateAwaited {
        private_key: "OWN-PRIV".to_string(),
        public_key: "OWN-PUB".to_string(),
    };
    let (stage, request) = generate_secret_ref(&config, creating, KeyEvent::AlreadyExists);
    assert_eq!(stage, KeyStage::ReadAwaited);
    assert_eq!(
        request,
        KeyRequest::Read { namespace: "default".to_string(), name: "a".to_string() }
    );
    let (stage, request) =
        generate_secret_ref(&config, stage, KeyEvent::Found(stored("a", "PRIV-0", "PUB-0")));
    assert_eq!(stage, KeyStage::Finished);
    assert_eq!(request, keyed("a", "PUB-0"));
    assert_eq!(
        generate_secret_ref(&config, KeyStage::Start, KeyEvent::Created),
        (KeyStage::Finished, KeyRequest::Fail(Error::UnexpectedEvent))
    );
}

#[test]
fn the_key_stage_runs_once() {
    let mut config = tunnel("a");
    let mut store: Vec<KeySecret> = Vec::new();
    let patch = match run_against_store(&config, &mut store, "PRIV-1", "PUB-1") {
        KeyRequest::Settle(Reconciliation { patch: Some(patch), .. }) => patch,
        other => panic!("unexpected request {:?}", other),
    };
    let mut status = WireguardConfigStatus::default();
    status.merge(patch);
    let written = status.clone();
    config.status = Some(status);
    assert_eq!(
        run_against_store(&config, &mut store, "PRIV-2", "PUB-2"),
        KeyRequest::Settle(Reconciliation { patch: None, action: Action::AwaitChange })
    );
    assert_eq!(config.status, Some(written));
    assert_eq!(store, vec![stored("a", "PRIV-1", "PUB-1")]);
}
