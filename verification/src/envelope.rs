//! The routing information of an email: who sends it and who receives it.

use crate::address::EmailAddress;
use crate::error::{EmailResult, Error};
use vstd::prelude::*;
use vstd::std_specs::cmp::PartialEqSpec;

verus! {

/// What an envelope holds, as plain texts.
pub ghost struct EnvelopeView {
    /// The recipients' addresses, in order.
    pub forward_path: Seq<Seq<char>>,
    /// The sender's address, if there is one.
    pub reverse_path: Option<Seq<char>>,
}

/// The text of an optional address.
pub open spec fn sender_text(sender: Option<EmailAddress>) -> Option<Seq<char>> {
    match sender {
        Some(address) => Some(address@),
        None => None,
    }
}

/// Simple email envelope representation
///
/// We only accept mailboxes, and do not support source routes (as per RFC).
#[derive(Debug)]
pub struct Envelope {
    /// The envelope recipients' addresses
    ///
    /// This can not be empty.
    forward_path: Vec<EmailAddress>,
    /// The envelope sender address
    reverse_path: Option<EmailAddress>,
}

impl View for Envelope {
    type V = EnvelopeView;

    closed spec fn view(&self) -> EnvelopeView {
        EnvelopeView {
            forward_path: self.forward_path.deep_view(),
            reverse_path: sender_text(self.reverse_path),
        }
    }
}

impl Envelope {
    /// An envelope always names at least one recipient.
    #[verifier::type_invariant]
    closed spec fn has_recipient(&self) -> bool {
        self.forward_path@.len() > 0
    }

    /// What building an envelope from a sender and recipients gives: the two
    /// kept as they are, unless there is no recipient.
    pub open spec fn built(from: Option<Seq<char>>, to: Seq<Seq<char>>) -> Result<
        EnvelopeView,
        Error,
    > {
        if to.len() == 0 {
            Err(Error::MissingTo)
        } else {
            Ok(EnvelopeView { forward_path: to, reverse_path: from })
        }
    }

    /// Creates a new envelope, which may fail if `to` is empty.
    pub fn new(from: Option<EmailAddress>, to: Vec<EmailAddress>) -> (r: EmailResult<Envelope>)
        ensures
            to@.len() == 0 <==> r == Err::<Envelope, Error>(Error::MissingTo),
            to@.len() > 0 <==> r is Ok,
            r matches Ok(envelope) ==> Ok::<EnvelopeView, Error>(envelope@) == Self::built(
                sender_text(from),
                to.deep_view(),
            ),
    {
        if to.is_empty() {
            return Err(Error::MissingTo);
        }
        Ok(Envelope { forward_path: to, reverse_path: from })
    }

    /// Destination addresses of the envelope
    pub fn to(&self) -> (recipients: &[EmailAddress])
        ensures
            recipients.deep_view() == self@.forward_path,
            recipients@.len() > 0,
    {
        proof {
            use_type_invariant(self);
        }
        self.forward_path.as_slice()
    }

    /// Source address of the envelope
    pub fn from(&self) -> (sender: Option<&EmailAddress>)
        ensures
            sender is Some <==> self@.reverse_path is Some,
            sender matches Some(address) ==> self@.reverse_path == Some(address@),
    {
        self.reverse_path.as_ref()
    }
}

impl Clone for Envelope {
    fn clone(&self) -> (r: Self)
        ensures
            r@ == self@,
    {
        proof {
            use_type_invariant(self);
        }
        let mut forward_path: Vec<EmailAddress> = Vec::new();
        let mut i: usize = 0;
        while i < self.forward_path.len()
            invariant
                i <= self.forward_path@.len(),
                forward_path@.len() == i,
                forward_path.deep_view() == self.forward_path.deep_view().take(i as int),
            decreases self.forward_path@.len() - i,
        {
            forward_path.push(self.forward_path[i].clone());
            i += 1;
            assert(forward_path.deep_view() =~= self.forward_path.deep_view().take(i as int));
        }
        assert(forward_path.deep_view() =~= self.forward_path.deep_view());
        let reverse_path = match &self.reverse_path {
            Some(address) => Some(address.clone()),
            None => None,
        };
        Envelope { forward_path, reverse_path }
    }
}

impl PartialEq for Envelope {
    fn eq(&self, other: &Envelope) -> (r: bool) {
        let same_sender = match (&self.reverse_path, &other.reverse_path) {
            (Some(a), Some(b)) => a == b,
            (None, None) => true,
            _ => false,
        };
        assert(same_sender <==> self@.reverse_path == other@.reverse_path);
        if !same_sender || self.forward_path.len() != other.forward_path.len() {
            assert(self.forward_path.deep_view().len() == self.forward_path@.len());
            assert(other.forward_path.deep_view().len() == other.forward_path@.len());
            return false;
        }
        let mut i: usize = 0;
        while i < self.forward_path.len()
            invariant
                i <= self.forward_path@.len(),
                self.forward_path@.len() == other.forward_path@.len(),
                forall|j: int| 0 <= j < i ==> self.forward_path@[j]@ == other.forward_path@[j]@,
            decreases self.forward_path@.len() - i,
        {
            if !(self.forward_path[i] == other.forward_path[i]) {
                assert(self.forward_path.deep_view()[i as int] != other.forward_path.deep_view()[i as int]);
                return false;
            }
            i += 1;
        }
        assert(self.forward_path.deep_view() =~= other.forward_path.deep_view());
        true
    }
}

impl Eq for Envelope {
}

impl vstd::std_specs::cmp::PartialEqSpecImpl for Envelope {
    open spec fn obeys_eq_spec() -> bool {
        true
    }

    /// Two envelopes are equal when they hold the same texts.
    open spec fn eq_spec(&self, other: &Envelope) -> bool {
        self@ == other@
    }
}

/// With at least one recipient an envelope is built, and it holds the sender
/// and the recipients that were given, the recipients in their order.
pub proof fn lemma_built_keeps_paths(from: Option<Seq<char>>, to: Seq<Seq<char>>)
    requires
        to.len() > 0,
    ensures
        Envelope::built(from, to) matches Ok(envelope) && envelope.forward_path == to
            && envelope.reverse_path == from,
{
}

/// Without a recipient no envelope is built, whoever the sender is.
pub proof fn lemma_built_needs_recipient(from: Option<Seq<char>>)
    ensures
        Envelope::built(from, Seq::empty()) == Err::<EnvelopeView, Error>(Error::MissingTo),
{
}

/// Two envelopes are equal exactly when their senders are equal and their
/// recipients are equal one by one, in the same order.
pub proof fn lemma_equal_envelopes(a: Envelope, b: Envelope)
    ensures
        a.eq_spec(&b) <==> {
            &&& a@.reverse_path == b@.reverse_path
            &&& a@.forward_path.len() == b@.forward_path.len()
            &&& forall|i: int|
                0 <= i < a@.forward_path.len() ==> a@.forward_path[i] == b@.forward_path[i]
        },
{
    if a@.reverse_path == b@.reverse_path && a@.forward_path.len() == b@.forward_path.len()
        && (forall|i: int|
        0 <= i < a@.forward_path.len() ==> a@.forward_path[i] == b@.forward_path[i]) {
        assert(a@.forward_path =~= b@.forward_path);
    }
}

/// Exchanging two different recipients gives a different envelope.
pub proof fn lemma_order_matters(a: Envelope, b: Envelope, i: int, j: int)
    requires
        0 <= i < a@.forward_path.len(),
        0 <= j < a@.forward_path.len(),
        a@.forward_path[i] != a@.forward_path[j],
        b@.forward_path == a@.forward_path.update(i, a@.forward_path[j]).update(
            j,
            a@.forward_path[i],
        ),
    ensures
        !a.eq_spec(&b),
{
    assert(b@.forward_path[j] == a@.forward_path[i]);
}

} // verus!
