//! Network blocks in CIDR notation and references to named objects.

use crate::errors::Error;
use crate::fields::{
    cut, free_of, lemma_split_cons, lemma_split_single, split, split_ranges, substring,
};
use crate::net::{lemma_parse_text, lemma_text_chars, Ipv4Addr};
use crate::text::{
    chars_of, decimal, is_digit, lemma_decimal_value, parse_u8, spec_parse_digits, spec_parse_u8,
};
use vstd::prelude::*;
use vstd::string::*;

verus! {

/// The namespace of objects that name none.
pub const DEFAULT_NAMESPACE: &'static str = "default";

/// The network of a pool that names none.
pub const DEFAULT_NETWORK: &'static str = "10.0.100.0/24";

/// The longest prefix of an IPv4 network.
pub const MAX_PREFIX: u8 = 32;

/// An IPv4 network block as text, such as `10.0.100.0/24`.
#[derive(Debug, PartialEq, Eq)]
pub struct Cidr(pub String);

impl View for Cidr {
    type V = Seq<char>;

    open spec fn view(&self) -> Seq<char> {
        self.0@
    }
}

impl Cidr {
    /// The base address and prefix length that a text denotes: exactly two
    /// fields around one `/`, an address and a prefix length from 0 to 32.
    pub open spec fn spec_split(s: Seq<char>) -> Option<(Ipv4Addr, u8)> {
        let parts = split(s, '/');
        if parts.len() == 2 && Ipv4Addr::spec_parse(parts[0]) is Some && spec_parse_u8(parts[1])
            is Some && spec_parse_u8(parts[1])->0 <= MAX_PREFIX {
            Some((Ipv4Addr::spec_parse(parts[0])->0, spec_parse_u8(parts[1])->0))
        } else {
            None
        }
    }

    /// The block written as `text`.
    pub fn new(text: String) -> (r: Cidr)
        ensures
            r@ == text@,
    {
        Cidr(text)
    }

    /// The base address and the prefix length of this block, or
    /// `InvalidCidr` when the text does not denote them: when it is not an
    /// address and a prefix length from 0 to 32 around one `/`.
    pub fn split(&self) -> (r: Result<(Ipv4Addr, u8), Error>)
        ensures
            match Self::spec_split(self@) {
                Some(parsed) => r == Ok::<(Ipv4Addr, u8), Error>(parsed),
                None => r == Err::<(Ipv4Addr, u8), Error>(Error::InvalidCidr),
            },
    {
        let text = chars_of(self.0.as_str());
        let ranges = split_ranges(&text, '/');
        assert(cut(text@, ranges@).len() == ranges.len());
        if ranges.len() != 2 {
            return Err(Error::InvalidCidr);
        }
        assert(split(self@, '/')[0] == cut(text@, ranges@)[0]);
        assert(split(self@, '/')[1] == cut(text@, ranges@)[1]);
        let base_text = substring(self.0.as_str(), ranges[0].0, ranges[0].1);
        let prefix_text = substring(self.0.as_str(), ranges[1].0, ranges[1].1);
        let base = match Ipv4Addr::parse(base_text.as_str()) {
            Some(base) => base,
            None => { return Err(Error::InvalidCidr); },
        };
        let prefix = match parse_u8(prefix_text.as_str()) {
            Some(prefix) => prefix,
            None => { return Err(Error::InvalidCidr); },
        };
        if prefix > MAX_PREFIX {
            return Err(Error::InvalidCidr);
        }
        Ok((base, prefix))
    }

    /// The text of this block.
    pub fn to_string(&self) -> (r: String)
        ensures
            r@ == self@,
    {
        self.0.clone()
    }
}

/// The block `base/prefix` as text.
pub open spec fn block_text(base: Ipv4Addr, prefix: u8) -> Seq<char> {
    base.text() + seq!['/'] + decimal(prefix as nat)
}

/// A block that is written as `base/prefix`, with a prefix length up to 32,
/// splits into that base and that prefix length.
pub proof fn lemma_split_block_text(base: Ipv4Addr, prefix: u8)
    requires
        prefix <= MAX_PREFIX,
    ensures
        Cidr::spec_split(block_text(base, prefix)) == Some((base, prefix)),
{
    let address = base.text();
    let length = decimal(prefix as nat);
    lemma_text_chars(base);
    lemma_decimal_value(prefix as nat);
    assert(free_of(address, '/')) by {
        assert forall|i: int| 0 <= i < address.len() implies #[trigger] address[i] != '/' by {
            assert(is_digit(address[i]) || address[i] == '.');
        }
    }
    assert(free_of(length, '/')) by {
        assert forall|i: int| 0 <= i < length.len() implies #[trigger] length[i] != '/' by {
            assert(is_digit(length[i]));
        }
    }
    lemma_split_single(length, '/');
    lemma_split_cons(address, '/', length);
    assert(split(block_text(base, prefix), '/') =~= seq![address, length]);
    lemma_parse_text(base);
    assert(is_digit(length[0]));
    assert(spec_parse_digits(length, 255) == Some(prefix as u64));
}

impl Clone for Cidr {
    fn clone(&self) -> (r: Self)
        ensures
            r == *self,
    {
        Cidr(self.0.clone())
    }
}

impl Default for Cidr {
    fn default() -> (r: Self)
        ensures
            r@ == DEFAULT_NETWORK@,
    {
        Cidr(String::from_str(DEFAULT_NETWORK))
    }
}

/// A reference to a named object, optionally in a namespace.
#[derive(Debug, PartialEq, Eq, Hash)]
pub struct ObjectReference {
    pub name: String,
    pub namespace: Option<String>,
}

/// What an `ObjectReference` denotes.
pub struct ObjectReferenceView {
    pub name: Seq<char>,
    pub namespace: Option<Seq<char>>,
}

impl ObjectReferenceView {
    /// The text `namespace/name`, with an empty namespace where there is none.
    pub open spec fn key(self) -> Seq<char> {
        match self.namespace {
            Some(namespace) => namespace + seq!['/'] + self.name,
            None => seq!['/'] + self.name,
        }
    }
}

impl View for ObjectReference {
    type V = ObjectReferenceView;

    open spec fn view(&self) -> ObjectReferenceView {
        ObjectReferenceView {
            name: self.name@,
            namespace: match self.namespace {
                Some(namespace) => Some(namespace@),
                None => None,
            },
        }
    }
}

impl ObjectReference {
    /// The text `namespace/name`, with an empty namespace where there is none.
    pub fn to_string(&self) -> (r: String)
        ensures
            r@ == self@.key(),
    {
        proof {
            reveal_strlit("/");
        }
        let mut out = String::new();
        match &self.namespace {
            Some(namespace) => {
                out.append(namespace.as_str());
            },
            None => {},
        }
        out.append("/");
        out.append(self.name.as_str());
        assert(out@ =~= self@.key());
        out
    }
}

impl Clone for ObjectReference {
    fn clone(&self) -> (r: Self)
        ensures
            r == *self,
    {
        ObjectReference {
            name: self.name.clone(),
            namespace: match &self.namespace {
                Some(namespace) => Some(namespace.clone()),
                None => None,
            },
        }
    }
}

impl Default for ObjectReference {
    fn default() -> (r: Self)
        ensures
            r@.name == Seq::<char>::empty(),
            r@.namespace is None,
    {
        ObjectReference { name: String::new(), namespace: None }
    }
}

/// The namespace given to a reference that names none: `default`.
pub fn default_namespace() -> (r: Option<String>)
    ensures
        r is Some,
        r->0@ == DEFAULT_NAMESPACE@,
{
    Some(String::from_str(DEFAULT_NAMESPACE))
}

} // verus!
