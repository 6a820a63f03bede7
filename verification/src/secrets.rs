//! The secret that keeps a tunnel's key pair.

use crate::errors::Error;
use crate::wireguard::configs::text_of;
use vstd::prelude::*;
use vstd::string::*;

verus! {

/// The label that marks a secret as the key secret of the tunnel that the
/// label's value names.
pub const SECRET_LABEL: &'static str = "operator.podtunnel.com/wireguard_config";

/// The API version of tunnel configurations.
pub const CONFIG_API_VERSION: &'static str = "podtunnel.com/v1alpha1";

/// The kind of tunnel configurations.
pub const CONFIG_KIND: &'static str = "WireguardConfig";

/// The object that owns another, so that the other goes when it goes.
#[derive(Debug, PartialEq, Eq)]
pub struct OwnerReference {
    pub api_version: String,
    pub kind: String,
    pub name: String,
    pub uid: String,
}

/// What an `OwnerReference` denotes.
pub struct OwnerReferenceView {
    pub api_version: Seq<char>,
    pub kind: Seq<char>,
    pub name: Seq<char>,
    pub uid: Seq<char>,
}

impl View for OwnerReference {
    type V = OwnerReferenceView;

    open spec fn view(&self) -> OwnerReferenceView {
        OwnerReferenceView {
            api_version: self.api_version@,
            kind: self.kind@,
            name: self.name@,
            uid: self.uid@,
        }
    }
}

/// The two keys as a secret stores them; a secret written by someone else
/// may lack either.
#[derive(Debug, PartialEq, Eq)]
pub struct KeyData {
    pub private_key: Option<String>,
    pub public_key: Option<String>,
}

/// What a `KeyData` denotes.
pub struct KeyDataView {
    pub private_key: Option<Seq<char>>,
    pub public_key: Option<Seq<char>>,
}

impl View for KeyData {
    type V = KeyDataView;

    open spec fn view(&self) -> KeyDataView {
        KeyDataView {
            private_key: text_of(self.private_key),
            public_key: text_of(self.public_key),
        }
    }
}

/// A secret: its identity, its owner, its labels and its data.
#[derive(Debug, PartialEq, Eq)]
pub struct KeySecret {
    pub name: String,
    pub namespace: String,
    pub owner: Option<OwnerReference>,
    pub labels: Vec<(String, String)>,
    pub data: Option<KeyData>,
}

/// What a `KeySecret` denotes.
pub struct KeySecretView {
    pub name: Seq<char>,
    pub namespace: Seq<char>,
    pub owner: Option<OwnerReferenceView>,
    pub labels: Seq<(Seq<char>, Seq<char>)>,
    pub data: Option<KeyDataView>,
}

/// What a list of labels denotes.
pub open spec fn label_views(labels: Seq<(String, String)>) -> Seq<(Seq<char>, Seq<char>)> {
    Seq::new(labels.len(), |k: int| (labels[k].0@, labels[k].1@))
}

impl View for KeySecret {
    type V = KeySecretView;

    open spec fn view(&self) -> KeySecretView {
        KeySecretView {
            name: self.name@,
            namespace: self.namespace@,
            owner: match self.owner {
                Some(owner) => Some(owner@),
                None => None,
            },
            labels: label_views(self.labels@),
            data: match self.data {
                Some(data) => Some(data@),
                None => None,
            },
        }
    }
}

impl KeySecretView {
    /// The key secret of the tunnel `name` in `namespace` with identifier
    /// `uid`: named as the tunnel, owned by it, labelled with its name, and
    /// holding both keys.
    pub open spec fn of_tunnel(
        name: Seq<char>,
        namespace: Seq<char>,
        uid: Seq<char>,
        private_key: Seq<char>,
        public_key: Seq<char>,
    ) -> KeySecretView {
        KeySecretView {
            name,
            namespace,
            owner: Some(
                OwnerReferenceView {
                    api_version: CONFIG_API_VERSION@,
                    kind: CONFIG_KIND@,
                    name,
                    uid,
                },
            ),
            labels: seq![(SECRET_LABEL@, name)],
            data: Some(KeyDataView { private_key: Some(private_key), public_key: Some(public_key) }),
        }
    }

    /// The private and the public key that this secret stores, where it
    /// stores both.
    pub open spec fn keys(self) -> Option<(Seq<char>, Seq<char>)> {
        match self.data {
            Some(KeyDataView { private_key: Some(private_key), public_key: Some(public_key) }) => Some(
                (private_key, public_key),
            ),
            _ => None,
        }
    }

    /// The private key that this secret stores, where it stores one.
    pub open spec fn private_key(self) -> Option<Seq<char>> {
        match self.data {
            Some(data) => data.private_key,
            None => None,
        }
    }
}

impl KeySecret {
    /// The key secret of the tunnel `name` in `namespace` with identifier
    /// `uid`.
    pub fn of_tunnel(
        name: &str,
        namespace: &str,
        uid: &str,
        private_key: &str,
        public_key: &str,
    ) -> (r: KeySecret)
        ensures
            r@ == KeySecretView::of_tunnel(name@, namespace@, uid@, private_key@, public_key@),
    {
        let mut labels: Vec<(String, String)> = Vec::new();
        labels.push((String::from_str(SECRET_LABEL), String::from_str(name)));
        let r = KeySecret {
            name: String::from_str(name),
            namespace: String::from_str(namespace),
            owner: Some(
                OwnerReference {
                    api_version: String::from_str(CONFIG_API_VERSION),
                    kind: String::from_str(CONFIG_KIND),
                    name: String::from_str(name),
                    uid: String::from_str(uid),
                },
            ),
            labels,
            data: Some(
                KeyData {
                    private_key: Some(String::from_str(private_key)),
                    public_key: Some(String::from_str(public_key)),
                },
            ),
        };
        assert(r@.labels =~= seq![(SECRET_LABEL@, name@)]);
        r
    }
}

/// The selector that finds the key secret of the tunnel `name` by its label.
pub open spec fn label_selector(name: Seq<char>) -> Seq<char> {
    SECRET_LABEL@ + seq!['='] + name
}

/// The selector that finds the key secret of the tunnel `name` by its label.
pub fn secret_label_selector(name: &str) -> (r: String)
    ensures
        r@ == label_selector(name@),
{
    proof {
        reveal_strlit("=");
    }
    let mut out = String::from_str(SECRET_LABEL);
    out.append("=");
    out.append(name);
    assert(out@ =~= label_selector(name@));
    out
}

/// The private and the public key that `secret` stores, or
/// `MalformedSecret` where it lacks its data or either key.
pub fn get_keys_from_secret(secret: &KeySecret) -> (r: Result<(String, String), Error>)
    ensures
        match secret@.keys() {
            Some((private_key, public_key)) => r is Ok && (r->Ok_0).0@ == private_key && (
            r->Ok_0).1@ == public_key,
            None => r == Err::<(String, String), Error>(Error::MalformedSecret),
        },
{
    match &secret.data {
        Some(data) => match (&data.private_key, &data.public_key) {
            (Some(private_key), Some(public_key)) => Ok((private_key.clone(), public_key.clone())),
            _ => Err(Error::MalformedSecret),
        },
        None => Err(Error::MalformedSecret),
    }
}

} // verus!
