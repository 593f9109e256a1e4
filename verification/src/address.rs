//! A single mailbox address.

use crate::error::{EmailResult, Error};
use std::cmp::Ordering;
use vstd::prelude::*;
use vstd::std_specs::cmp::{PartialEqSpec, PartialOrdSpec};
use vstd::utf8::{encode_utf8, encode_utf8_decode_utf8};

verus! {

/// Email address
#[derive(Debug, Eq, Ord)]
pub struct EmailAddress(String);

/// The order of two byte strings as a sign: negative where `a` comes first,
/// zero where they are the same, positive where `b` comes first. The first
/// byte in which they differ decides; a proper prefix comes first.
pub open spec fn byte_order(a: Seq<u8>, b: Seq<u8>) -> int
    decreases a.len(),
{
    if a.len() == 0 && b.len() == 0 {
        0
    } else if a.len() == 0 {
        -1
    } else if b.len() == 0 {
        1
    } else if a[0] < b[0] {
        -1
    } else if a[0] > b[0] {
        1
    } else {
        byte_order(a.skip(1), b.skip(1))
    }
}

/// Two byte strings are in neither order exactly when they are the same.
pub proof fn lemma_byte_order_zero(a: Seq<u8>, b: Seq<u8>)
    ensures
        byte_order(a, b) == 0 <==> a == b,
        -1 <= byte_order(a, b) <= 1,
    decreases a.len(),
{
    if a.len() > 0 && b.len() > 0 && a[0] == b[0] {
        lemma_byte_order_zero(a.skip(1), b.skip(1));
        if a.skip(1) == b.skip(1) {
            assert(a =~= seq![a[0]] + a.skip(1));
            assert(b =~= seq![b[0]] + b.skip(1));
        }
    } else if a.len() == 0 && b.len() == 0 {
        assert(a =~= b);
    }
}

/// Exchanging the two byte strings turns their order round.
pub proof fn lemma_byte_order_turns(a: Seq<u8>, b: Seq<u8>)
    ensures
        byte_order(b, a) == -byte_order(a, b),
    decreases a.len(),
{
    if a.len() > 0 && b.len() > 0 && a[0] == b[0] {
        lemma_byte_order_turns(a.skip(1), b.skip(1));
    }
}

/// Finds the order of two byte strings by walking both to the first difference.
fn compare_bytes(a: &[u8], b: &[u8]) -> (sign: i8)
    ensures
        sign == byte_order(a@, b@),
{
    let mut i: usize = 0;
    assert(a@.skip(0) =~= a@ && b@.skip(0) =~= b@);
    while i < a.len() && i < b.len()
        invariant
            i <= a@.len(),
            i <= b@.len(),
            byte_order(a@, b@) == byte_order(a@.skip(i as int), b@.skip(i as int)),
        decreases a@.len() - i,
    {
        if a[i] < b[i] {
            return -1;
        }
        if a[i] > b[i] {
            return 1;
        }
        proof {
            assert(a@.skip(i as int).skip(1) =~= a@.skip(i + 1));
            assert(b@.skip(i as int).skip(1) =~= b@.skip(i + 1));
        }
        i += 1;
    }
    if i < b.len() {
        -1
    } else if i < a.len() {
        1
    } else {
        0
    }
}

impl View for EmailAddress {
    type V = Seq<char>;

    /// An address is its text.
    closed spec fn view(&self) -> Seq<char> {
        self.0@
    }
}

impl DeepView for EmailAddress {
    type V = Seq<char>;

    open spec fn deep_view(&self) -> Seq<char> {
        self@
    }
}

impl EmailAddress {
    /// What building an address from `text` gives: every text is taken as it is.
    pub open spec fn parsed(text: Seq<char>) -> Result<Seq<char>, Error> {
        Ok(text)
    }

    /// Creates a new `EmailAddress`. No text is turned down.
    pub fn new(address: String) -> (r: EmailResult<EmailAddress>)
        ensures
            r matches Ok(a) && Ok::<Seq<char>, Error>(a@) == Self::parsed(address@),
    {
        Ok(EmailAddress(address))
    }

    /// The text of the address, exactly as it was given.
    pub fn to_string(&self) -> (text: String)
        ensures
            text@ == self@,
    {
        self.0.clone()
    }

    /// The text of the address, borrowed.
    pub fn as_str(&self) -> (text: &str)
        ensures
            text@ == self@,
    {
        self.0.as_str()
    }
}

impl Clone for EmailAddress {
    fn clone(&self) -> (r: Self)
        ensures
            r@ == self@,
    {
        EmailAddress(self.0.clone())
    }
}

impl PartialEq for EmailAddress {
    fn eq(&self, other: &EmailAddress) -> (r: bool) {
        self.0 == other.0
    }
}

impl PartialOrd for EmailAddress {
    fn partial_cmp(&self, other: &EmailAddress) -> (r: Option<Ordering>) {
        let sign: i8 = compare_bytes(self.0.as_str().as_bytes(), other.0.as_str().as_bytes());
        if sign < 0 {
            Some(Ordering::Less)
        } else if sign == 0 {
            Some(Ordering::Equal)
        } else {
            Some(Ordering::Greater)
        }
    }
}

impl vstd::std_specs::cmp::PartialOrdSpecImpl for EmailAddress {
    open spec fn obeys_partial_cmp_spec() -> bool {
        true
    }

    /// Addresses are ordered as the bytes of their texts are.
    open spec fn partial_cmp_spec(&self, other: &EmailAddress) -> Option<Ordering> {
        let sign = byte_order(encode_utf8(self@), encode_utf8(other@));
        if sign < 0 {
            Some(Ordering::Less)
        } else if sign == 0 {
            Some(Ordering::Equal)
        } else {
            Some(Ordering::Greater)
        }
    }
}

impl vstd::std_specs::cmp::PartialEqSpecImpl for EmailAddress {
    open spec fn obeys_eq_spec() -> bool {
        true
    }

    /// Two addresses are equal when their texts are.
    open spec fn eq_spec(&self, other: &EmailAddress) -> bool {
        self@ == other@
    }
}

impl std::str::FromStr for EmailAddress {
    type Err = Error;

    fn from_str(s: &str) -> (r: Result<EmailAddress, Error>)
        ensures
            r matches Ok(a) && Ok::<Seq<char>, Error>(a@) == EmailAddress::parsed(s@),
    {
        EmailAddress::new(s.to_owned())
    }
}

/// Two addresses are in neither order exactly when they are equal, and
/// exchanging them turns their order round.
pub proof fn lemma_order_agrees_with_equality(a: EmailAddress, b: EmailAddress)
    ensures
        a.partial_cmp_spec(&b) == Some(Ordering::Equal) <==> a.eq_spec(&b),
        a.partial_cmp_spec(&b) == Some(Ordering::Less) <==> b.partial_cmp_spec(&a) == Some(
            Ordering::Greater,
        ),
{
    lemma_byte_order_zero(encode_utf8(a@), encode_utf8(b@));
    lemma_byte_order_turns(encode_utf8(a@), encode_utf8(b@));
    encode_utf8_decode_utf8(a@);
    encode_utf8_decode_utf8(b@);
}

/// Every text is accepted as an address, and the address renders as that text.
pub proof fn lemma_address_round_trip(text: Seq<char>)
    ensures
        EmailAddress::parsed(text) == Ok::<Seq<char>, Error>(text),
{
}

} // verus!
