//! IPv4 addresses as 32-bit numbers.

use crate::fields::{cut, free_of, lemma_split_cons, lemma_split_single, split, split_ranges};
use crate::text::{
    all_digits, chars_of, decimal, digits_value, is_canonical, is_digit, lemma_decimal_value,
    parse_digits, push_decimal,
};
use vstd::prelude::*;
use vstd::string::*;

verus! {

/// An IPv4 address, held as its 32-bit value in network (big-endian) reading:
/// `a.b.c.d` is `a * 2^24 + b * 2^16 + c * 2^8 + d`.
#[derive(Clone, Copy, Debug, PartialEq, Eq, Structural, Hash)]
pub struct Ipv4Addr {
    pub bits: u32,
}

/// The 32-bit value of the dotted quad `a.b.c.d`.
pub open spec fn quad(a: u8, b: u8, c: u8, d: u8) -> u32 {
    (a as u32 * 0x100_0000 + b as u32 * 0x1_0000 + c as u32 * 0x100 + d as u32) as u32
}

/// A dotted quad and its 32-bit value determine each other.
pub proof fn lemma_quad_octets(a: u8, b: u8, c: u8, d: u8)
    ensures
        a as u32 * 0x100_0000 + b as u32 * 0x1_0000 + c as u32 * 0x100 + d as u32 <= u32::MAX,
        quad(a, b, c, d) / 0x100_0000 == a,
        quad(a, b, c, d) / 0x1_0000 % 0x100 == b,
        quad(a, b, c, d) / 0x100 % 0x100 == c,
        quad(a, b, c, d) % 0x100 == d,
{
    let n: int = a as int * 0x100_0000 + b as int * 0x1_0000 + c as int * 0x100 + d as int;
    assert(n <= u32::MAX);
    assert(quad(a, b, c, d) == n);
    assert(n / 0x100_0000 == a as int);
    assert(n / 0x1_0000 == a as int * 0x100 + b as int);
    assert(n / 0x100 == a as int * 0x1_0000 + b as int * 0x100 + c as int);
}

/// Every 32-bit value is the dotted quad of its four octets.
pub proof fn lemma_octets_quad(bits: u32)
    ensures
        ({
            let o = (Ipv4Addr { bits }).spec_octets();
            quad(o.0, o.1, o.2, o.3) == bits
        }),
{
    let n: int = bits as int;
    let a: int = n / 0x100_0000;
    let b: int = n / 0x1_0000 % 0x100;
    let c: int = n / 0x100 % 0x100;
    let d: int = n % 0x100;
    assert(n / 0x100 == (n / 0x1_0000) * 0x100 + c);
    assert(n / 0x1_0000 == a * 0x100 + b);
    assert(n == a * 0x100_0000 + b * 0x1_0000 + c * 0x100 + d);
}

/// Whether `s` is the canonical decimal numeral of a number up to 255.
pub open spec fn is_octet_text(s: Seq<char>) -> bool {
    is_canonical(s) && digits_value(s) <= 255
}

/// The octet that `text[from..to]` denotes, when that range is an octet text.
fn parse_octet(text: &Vec<char>, from: usize, to: usize) -> (r: Option<u8>)
    requires
        from <= to <= text.len(),
    ensures
        r is Some <==> is_octet_text(text@.subrange(from as int, to as int)),
        r is Some ==> r->0 == digits_value(text@.subrange(from as int, to as int)),
{
    let ghost s = text@.subrange(from as int, to as int);
    match parse_digits(text, from, to, 255) {
        Some(v) => {
            assert(s[0] == text[from as int]);
            if to - from > 1 && text[from] == '0' {
                None
            } else {
                Some(v as u8)
            }
        },
        None => None,
    }
}

/// A digit string holds no dot.
proof fn lemma_digits_free_of_dot(s: Seq<char>)
    requires
        all_digits(s),
    ensures
        free_of(s, '.'),
{
    assert forall|i: int| 0 <= i < s.len() implies #[trigger] s[i] != '.' by {
        assert(is_digit(s[i]));
    }
}

/// Four dot-free texts with dots between them split into those four texts.
proof fn lemma_split_dotted(a: Seq<char>, b: Seq<char>, c: Seq<char>, d: Seq<char>)
    requires
        free_of(a, '.'),
        free_of(b, '.'),
        free_of(c, '.'),
        free_of(d, '.'),
    ensures
        split(a + seq!['.'] + b + seq!['.'] + c + seq!['.'] + d, '.') == seq![a, b, c, d],
{
    let dot = seq!['.'];
    lemma_split_single(d, '.');
    lemma_split_cons(c, '.', d);
    lemma_split_cons(b, '.', c + dot + d);
    lemma_split_cons(a, '.', b + dot + (c + dot + d));
    assert(a + dot + b + dot + c + dot + d =~= a + dot + (b + dot + (c + dot + d)));
    assert(seq![a] + (seq![b] + (seq![c] + seq![d])) =~= seq![a, b, c, d]);
}

/// The text of an address holds digits and dots only.
pub proof fn lemma_text_chars(ip: Ipv4Addr)
    ensures
        forall|i: int|
            0 <= i < ip.text().len() ==> is_digit(#[trigger] ip.text()[i]) || ip.text()[i] == '.',
{
    let o = ip.spec_octets();
    lemma_decimal_value(o.0 as nat);
    lemma_decimal_value(o.1 as nat);
    lemma_decimal_value(o.2 as nat);
    lemma_decimal_value(o.3 as nat);
    let a = decimal(o.0 as nat);
    let b = decimal(o.1 as nat);
    let c = decimal(o.2 as nat);
    let d = decimal(o.3 as nat);
    let dot = seq!['.'];
    let t = ip.text();
    assert(t =~= a + dot + b + dot + c + dot + d);
    assert forall|i: int| 0 <= i < t.len() implies is_digit(#[trigger] t[i]) || t[i] == '.' by {
        let la = a.len() as int;
        let lb = la + 1 + b.len();
        let lc = lb + 1 + c.len();
        if i < la {
            assert(t[i] == a[i]);
        } else if i == la {
        } else if i < lb {
            assert(t[i] == b[i - la - 1]);
        } else if i == lb {
        } else if i < lc {
            assert(t[i] == c[i - lb - 1]);
        } else if i == lc {
        } else {
            assert(t[i] == d[i - lc - 1]);
        }
    }
}

/// Reading the text of an address gives the address back.
pub proof fn lemma_parse_text(ip: Ipv4Addr)
    ensures
        Ipv4Addr::spec_parse(ip.text()) == Some(ip),
{
    let o = ip.spec_octets();
    let a = decimal(o.0 as nat);
    let b = decimal(o.1 as nat);
    let c = decimal(o.2 as nat);
    let d = decimal(o.3 as nat);
    lemma_decimal_value(o.0 as nat);
    lemma_decimal_value(o.1 as nat);
    lemma_decimal_value(o.2 as nat);
    lemma_decimal_value(o.3 as nat);
    lemma_digits_free_of_dot(a);
    lemma_digits_free_of_dot(b);
    lemma_digits_free_of_dot(c);
    lemma_digits_free_of_dot(d);
    lemma_split_dotted(a, b, c, d);
    lemma_octets_quad(ip.bits);
}

impl Ipv4Addr {
    /// The four octets of this address, most significant first.
    pub open spec fn spec_octets(self) -> (u8, u8, u8, u8) {
        (
            (self.bits / 0x100_0000) as u8,
            (self.bits / 0x1_0000 % 0x100) as u8,
            (self.bits / 0x100 % 0x100) as u8,
            (self.bits % 0x100) as u8,
        )
    }

    /// The address `a.b.c.d`.
    pub fn new(a: u8, b: u8, c: u8, d: u8) -> (r: Ipv4Addr)
        ensures
            r.bits == quad(a, b, c, d),
            r.spec_octets() == (a, b, c, d),
    {
        proof {
            lemma_quad_octets(a, b, c, d);
        }
        let bits: u32 = (a as u32) * 0x100_0000 + (b as u32) * 0x1_0000 + (c as u32) * 0x100 + (
        d as u32);
        Ipv4Addr { bits }
    }

    /// The address whose 32-bit value is `bits`.
    pub fn from_bits(bits: u32) -> (r: Ipv4Addr)
        ensures
            r.bits == bits,
    {
        Ipv4Addr { bits }
    }

    /// The 32-bit value of this address.
    pub fn to_bits(&self) -> (r: u32)
        ensures
            r == self.bits,
    {
        self.bits
    }

    /// The four octets of this address, most significant first.
    pub fn octets(&self) -> (r: (u8, u8, u8, u8))
        ensures
            r == self.spec_octets(),
            self.bits == quad(r.0, r.1, r.2, r.3),
    {
        proof {
            lemma_octets_quad(self.bits);
        }
        (
            (self.bits / 0x100_0000) as u8,
            (self.bits / 0x1_0000 % 0x100) as u8,
            (self.bits / 0x100 % 0x100) as u8,
            (self.bits % 0x100) as u8,
        )
    }

    /// The dotted-decimal text of this address: the decimal numerals of its
    /// four octets with a `.` between each two.
    pub open spec fn text(self) -> Seq<char> {
        let o = self.spec_octets();
        decimal(o.0 as nat) + seq!['.'] + decimal(o.1 as nat) + seq!['.'] + decimal(o.2 as nat)
            + seq!['.'] + decimal(o.3 as nat)
    }

    /// Appends the dotted-decimal text of this address to `out`.
    pub fn push_text(&self, out: &mut String)
        ensures
            final(out)@ == old(out)@ + self.text(),
    {
        proof {
            reveal_strlit(".");
        }
        let o = self.octets();
        push_decimal(out, o.0 as u64);
        out.append(".");
        push_decimal(out, o.1 as u64);
        out.append(".");
        push_decimal(out, o.2 as u64);
        out.append(".");
        push_decimal(out, o.3 as u64);
        assert(out@ =~= old(out)@ + self.text());
    }

    /// The dotted-decimal text of this address.
    pub fn to_string(&self) -> (r: String)
        ensures
            r@ == self.text(),
    {
        let mut out = String::new();
        self.push_text(&mut out);
        assert(out@ =~= self.text());
        out
    }

    /// The address that a text denotes: four fields between dots, each the
    /// canonical decimal numeral of a number up to 255.
    pub open spec fn spec_parse(s: Seq<char>) -> Option<Ipv4Addr> {
        let parts = split(s, '.');
        if parts.len() == 4 && is_octet_text(parts[0]) && is_octet_text(parts[1])
            && is_octet_text(parts[2]) && is_octet_text(parts[3]) {
            Some(
                Ipv4Addr {
                    bits: quad(
                        digits_value(parts[0]) as u8,
                        digits_value(parts[1]) as u8,
                        digits_value(parts[2]) as u8,
                        digits_value(parts[3]) as u8,
                    ),
                },
            )
        } else {
            None
        }
    }

    /// Reads a dotted-decimal address; any other text gives `None`.
    pub fn parse(s: &str) -> (r: Option<Ipv4Addr>)
        ensures
            r == Self::spec_parse(s@),
    {
        let text = chars_of(s);
        let ranges = split_ranges(&text, '.');
        assert(cut(text@, ranges@).len() == ranges.len());
        if ranges.len() != 4 {
            return None;
        }
        let ghost parts = split(s@, '.');
        assert(parts[0] == cut(text@, ranges@)[0]);
        assert(parts[1] == cut(text@, ranges@)[1]);
        assert(parts[2] == cut(text@, ranges@)[2]);
        assert(parts[3] == cut(text@, ranges@)[3]);
        let a = match parse_octet(&text, ranges[0].0, ranges[0].1) {
            Some(v) => v,
            None => { return None; },
        };
        let b = match parse_octet(&text, ranges[1].0, ranges[1].1) {
            Some(v) => v,
            None => { return None; },
        };
        let c = match parse_octet(&text, ranges[2].0, ranges[2].1) {
            Some(v) => v,
            None => { return None; },
        };
        let d = match parse_octet(&text, ranges[3].0, ranges[3].1) {
            Some(v) => v,
            None => { return None; },
        };
        Some(Ipv4Addr::new(a, b, c, d))
    }

    /// Whether this is the limited broadcast address `255.255.255.255`.
    pub fn is_broadcast(&self) -> (r: bool)
        ensures
            r == (self.bits == u32::MAX),
    {
        self.bits == u32::MAX
    }

    /// Whether this is the unspecified address `0.0.0.0`.
    pub fn is_unspecified(&self) -> (r: bool)
        ensures
            r == (self.bits == 0),
    {
        self.bits == 0
    }
}

} // verus!
