//! The exchange format of group parameters: each value as a radix-16 string,
//! paired with the owning user's name.
use vstd::prelude::*;

use num_bigint::BigUint;

use crate::error::ProtocolError;
use crate::material::Material;

verus! {

/// The lowercase radix-16 digit for `d < 16`.
pub open spec fn hex_char(d: nat) -> char {
    if d < 10 {
        (('0' as nat) + d) as char
    } else {
        (('a' as nat) + d - 10) as char
    }
}

/// `n` in radix 16: lowercase digits, no leading zeros, `"0"` for zero.
pub open spec fn hex_string(n: nat) -> Seq<char>
    decreases n,
{
    if n < 16 {
        seq![hex_char(n)]
    } else {
        hex_string(n / 16).push(hex_char(n % 16))
    }
}

/// The value of a radix-16 digit of either case.
pub open spec fn hex_digit_value(c: char) -> Option<nat> {
    if '0' <= c && c <= '9' {
        Some((c as nat - '0' as nat) as nat)
    } else if 'a' <= c && c <= 'f' {
        Some((c as nat - 'a' as nat + 10) as nat)
    } else if 'A' <= c && c <= 'F' {
        Some((c as nat - 'A' as nat + 10) as nat)
    } else {
        None
    }
}

/// The value of a run of radix-16 digits, `_` being skipped; `None` on any
/// other character.
pub open spec fn hex_digits_value(s: Seq<char>) -> Option<nat>
    decreases s.len(),
{
    if s.len() == 0 {
        Some(0)
    } else {
        let last = s.last();
        let rest = hex_digits_value(s.drop_last());
        if last == '_' {
            rest
        } else {
            match (rest, hex_digit_value(last)) {
                (Some(v), Some(d)) => Some(v * 16 + d),
                _ => None,
            }
        }
    }
}

/// A radix-16 number as text: one optional leading `+`, then a non-empty run
/// of digits and `_` that starts with a digit.
pub open spec fn parse_hex(s: Seq<char>) -> Option<nat> {
    let body = if s.len() > 0 && s[0] == '+' && !(s.len() > 1 && s[1] == '+') {
        s.drop_first()
    } else {
        s
    };
    if body.len() == 0 || body[0] == '_' {
        None
    } else {
        hex_digits_value(body)
    }
}

/// Relies on `num_bigint::BigUint::to_str_radix` with radix 16: lowercase
/// digits, no leading zeros, `"0"` for zero.
#[verifier::external_body]
fn to_hex(v: u64) -> (r: String)
    ensures
        r@ == hex_string(v as nat),
{
    BigUint::from(v).to_str_radix(16)
}

/// Relies on `num_bigint::BigUint::parse_bytes` with radix 16 (one optional
/// leading `+`, digits of either case, `_` separators after the first digit),
/// then on the conversion of the result to `u64`, which fails above `u64::MAX`.
#[verifier::external_body]
fn from_hex(s: &str) -> (r: Option<u64>)
    ensures
        r == (match parse_hex(s@) {
            Some(v) => if v <= u64::MAX {
                Some(v as u64)
            } else {
                None::<u64>
            },
            None => None::<u64>,
        }),
{
    BigUint::parse_bytes(s.as_bytes(), 16).and_then(|b| u64::try_from(&b).ok())
}

/// Group parameters of one user as text.
#[derive(Debug, Clone, PartialEq, Eq)]
pub struct MaterialSerde {
    pub user: String,
    pub g: String,
    pub h: String,
    pub q: String,
    pub p: String,
}

/// Reads one value of the exchange format.
pub open spec fn read_value(s: Seq<char>) -> Option<u64> {
    match parse_hex(s) {
        Some(v) => if v <= u64::MAX {
            Some(v as u64)
        } else {
            None
        },
        None => None,
    }
}

impl MaterialSerde {
    /// The text form of `material` for `user`.
    pub fn from_material(material: &Material, user: &str) -> (r: MaterialSerde)
        ensures
            r.user@ == user@,
            r.g@ == hex_string(material.g as nat),
            r.h@ == hex_string(material.h as nat),
            r.q@ == hex_string(material.q as nat),
            r.p@ == hex_string(material.p as nat),
    {
        MaterialSerde {
            user: user.to_owned(),
            g: to_hex(material.g),
            h: to_hex(material.h),
            q: to_hex(material.q),
            p: to_hex(material.p),
        }
    }

    /// The parameters written in `self`; `InvalidArgument` if a value is not
    /// a radix-16 number or exceeds `u64`.
    pub fn to_material(&self) -> (r: Result<Material, ProtocolError>)
        ensures
            r is Ok <==> read_value(self.g@) is Some && read_value(self.h@) is Some && read_value(self.q@) is Some
                && read_value(self.p@) is Some,
            r matches Ok(m) ==> {
                &&& read_value(self.g@) == Some(m.g)
                &&& read_value(self.h@) == Some(m.h)
                &&& read_value(self.q@) == Some(m.q)
                &&& read_value(self.p@) == Some(m.p)
            },
            r is Err ==> r == Err::<Material, ProtocolError>(ProtocolError::InvalidArgument),
    {
        let g = from_hex(self.g.as_str());
        let h = from_hex(self.h.as_str());
        let q = from_hex(self.q.as_str());
        let p = from_hex(self.p.as_str());
        match (g, h, q, p) {
            (Some(g), Some(h), Some(q), Some(p)) => Ok(Material { g, h, q, p }),
            _ => Err(ProtocolError::InvalidArgument),
        }
    }
}

proof fn lemma_hex_char_value(d: nat)
    requires
        d < 16,
    ensures
        hex_digit_value(hex_char(d)) == Some(d),
        hex_char(d) != '_' && hex_char(d) != '+',
{
}

proof fn lemma_hex_string_digits(n: nat)
    ensures
        hex_string(n).len() > 0,
        hex_string(n)[0] != '_' && hex_string(n)[0] != '+',
        hex_digits_value(hex_string(n)) == Some(n),
    decreases n,
{
    if n < 16 {
        lemma_hex_char_value(n);
        let s = hex_string(n);
        assert(s.drop_last() =~= Seq::<char>::empty());
        assert(hex_digits_value(s.drop_last()) == Some(0nat));
        assert(s.last() == hex_char(n));
        assert(hex_digits_value(s) == Some(0 * 16 + n));
    } else {
        lemma_hex_string_digits(n / 16);
        lemma_hex_char_value(n % 16);
        let s = hex_string(n);
        assert(s.drop_last() =~= hex_string(n / 16));
        assert(s.last() == hex_char(n % 16));
        assert(hex_digits_value(s) == Some((n / 16) * 16 + n % 16));
    }
}

/// Round trip: reading back the text form of a value gives the value.
pub proof fn lemma_hex_round_trip(v: u64)
    ensures
        read_value(hex_string(v as nat)) == Some(v),
{
    lemma_hex_string_digits(v as nat);
}

} // verus!
