//! Classification of inbound wire messages into one category and payload.
//!
//! A message is a category byte, a kind byte and a payload:
//! `0 0 text` a nonce proof, `0 1` authentication failed,
//! `1 0 bytes` wrapped key material, `1 1` key exchange failed,
//! `2 0` the secure-phase placeholder,
//! `3 1 b` (b is 0 or 1) a change of drive access, `3 2` terminate.
use vstd::prelude::*;
use crate::events::{
    AppAuthenticationEvent, ExternalEvent, IpcSessionEventCategory, RsaKeyExchangeEvent,
    SecureCommunicationEvent,
};

verus! {

/// What the UTF-8 decoding of `b` gives (`None`: `b` is not UTF-8).
pub uninterp spec fn utf8_text_of(b: Seq<u8>) -> Option<Seq<char>>;

/// Relies on std::str::from_utf8: the text of `b`, or nothing where `b` is not
/// valid UTF-8; the empty input is the empty text.
#[verifier::external_body]
fn decode_utf8(b: &[u8]) -> (r: Option<String>)
    ensures
        match r {
            Some(s) => utf8_text_of(b@) == Some(s@),
            None => utf8_text_of(b@) is None,
        },
        b@.len() == 0 ==> r is Some && r->Some_0@.len() == 0,
{
    std::str::from_utf8(b).ok().map(|s| s.to_string())
}

/// An inbound event, tagged with its category.
pub enum SessionEvent<C> {
    AppAuthentication(AppAuthenticationEvent),
    RsaKeyExchange(RsaKeyExchangeEvent),
    SecureCommunication(SecureCommunicationEvent),
    External(ExternalEvent<C>),
}

/// Why a message could not be classified.
#[derive(Clone, Copy, Debug, PartialEq, Eq, Structural)]
pub enum DispatchError {
    Malformed,
}

pub open spec fn category_of<C>(ev: SessionEvent<C>) -> IpcSessionEventCategory {
    match ev {
        SessionEvent::AppAuthentication(_) => IpcSessionEventCategory::AppAuthenticationEvent,
        SessionEvent::RsaKeyExchange(_) => IpcSessionEventCategory::RsaKeyExchangeEvent,
        SessionEvent::SecureCommunication(_) => IpcSessionEventCategory::SecureCommunicationEvent,
        SessionEvent::External(_) => IpcSessionEventCategory::ExternalEvent,
    }
}

/// Whether `b` is a message of the wire format.
pub open spec fn well_formed(b: Seq<u8>) -> bool {
    &&& b.len() >= 2
    &&& {
        ||| b[0] == 0 && b[1] == 0 && utf8_text_of(b.subrange(2, b.len() as int)) is Some
        ||| b[0] == 0 && b[1] == 1 && b.len() == 2
        ||| b[0] == 1 && b[1] == 0
        ||| b[0] == 1 && b[1] == 1 && b.len() == 2
        ||| b[0] == 2 && b[1] == 0 && b.len() == 2
        ||| b[0] == 3 && b[1] == 1 && b.len() == 3 && (b[2] == 0 || b[2] == 1)
        ||| b[0] == 3 && b[1] == 2 && b.len() == 2
    }
}

/// Whether `ev` is what the message `b` says.
pub open spec fn denotes<C>(b: Seq<u8>, ev: SessionEvent<C>) -> bool {
    &&& b.len() >= 2
    &&& match ev {
        SessionEvent::AppAuthentication(AppAuthenticationEvent::ReceivedNonce(s)) =>
            b[0] == 0 && b[1] == 0 && utf8_text_of(b.subrange(2, b.len() as int)) == Some(s@),
        SessionEvent::AppAuthentication(AppAuthenticationEvent::Failed) =>
            b[0] == 0 && b[1] == 1 && b.len() == 2,
        SessionEvent::RsaKeyExchange(RsaKeyExchangeEvent::SymmetricCipher(w)) =>
            b[0] == 1 && b[1] == 0 && w@ == b.subrange(2, b.len() as int),
        SessionEvent::RsaKeyExchange(RsaKeyExchangeEvent::Failed) =>
            b[0] == 1 && b[1] == 1 && b.len() == 2,
        SessionEvent::SecureCommunication(SecureCommunicationEvent::PlaceHolder) =>
            b[0] == 2 && b[1] == 0 && b.len() == 2,
        SessionEvent::External(ExternalEvent::ChangeSafeDriveAccess(allowed)) =>
            b[0] == 3 && b[1] == 1 && b.len() == 3 && (b[2] == 0 || b[2] == 1) && allowed == (b[2] == 1),
        SessionEvent::External(ExternalEvent::Terminate) =>
            b[0] == 3 && b[1] == 2 && b.len() == 2,
        SessionEvent::External(ExternalEvent::AppDetailReceived(_)) => false,
    }
}

/// The category that the first byte of a message names.
pub open spec fn category_of_tag(tag: u8) -> IpcSessionEventCategory {
    if tag == 0 {
        IpcSessionEventCategory::AppAuthenticationEvent
    } else if tag == 1 {
        IpcSessionEventCategory::RsaKeyExchangeEvent
    } else if tag == 2 {
        IpcSessionEventCategory::SecureCommunicationEvent
    } else {
        IpcSessionEventCategory::ExternalEvent
    }
}

/// A message denotes events of one category only, the one its first byte
/// names, and no event of another.
pub proof fn lemma_one_category<C>(b: Seq<u8>, ev: SessionEvent<C>)
    requires
        denotes(b, ev),
    ensures
        category_of(ev) == category_of_tag(b[0]),
        b[0] <= 3,
{
}

impl<C> SessionEvent<C> {
    pub fn category(&self) -> (r: IpcSessionEventCategory)
        ensures
            r == category_of(*self),
    {
        match self {
            SessionEvent::AppAuthentication(_) => IpcSessionEventCategory::AppAuthenticationEvent,
            SessionEvent::RsaKeyExchange(_) => IpcSessionEventCategory::RsaKeyExchangeEvent,
            SessionEvent::SecureCommunication(_) => IpcSessionEventCategory::SecureCommunicationEvent,
            SessionEvent::External(_) => IpcSessionEventCategory::ExternalEvent,
        }
    }
}

/// Copies `msg[from..]`.
fn tail_bytes(msg: &[u8], from: usize) -> (r: Vec<u8>)
    requires
        from <= msg@.len(),
    ensures
        r@ == msg@.subrange(from as int, msg@.len() as int),
{
    let mut r: Vec<u8> = Vec::new();
    let mut i: usize = from;
    while i < msg.len()
        invariant
            from <= i <= msg@.len(),
            r@ =~= msg@.subrange(from as int, i as int),
        decreases msg@.len() - i,
    {
        r.push(msg[i]);
        i = i + 1;
    }
    r
}

/// Classifies a wire message; anything outside the format is `Malformed`.
pub fn classify<C>(msg: &[u8]) -> (r: Result<SessionEvent<C>, DispatchError>)
    ensures
        r is Ok <==> well_formed(msg@),
        r is Ok ==> denotes(msg@, r->Ok_0),
        r is Err ==> r == Err::<SessionEvent<C>, DispatchError>(DispatchError::Malformed),
{
    if msg.len() < 2 {
        return Err(DispatchError::Malformed);
    }
    let category = msg[0];
    let kind = msg[1];
    let n = msg.len();
    if category == 0 && kind == 0 {
        let payload = tail_bytes(msg, 2);
        match decode_utf8(payload.as_slice()) {
            Some(text) => Ok(SessionEvent::AppAuthentication(AppAuthenticationEvent::ReceivedNonce(text))),
            None => Err(DispatchError::Malformed),
        }
    } else if category == 0 && kind == 1 && n == 2 {
        Ok(SessionEvent::AppAuthentication(AppAuthenticationEvent::Failed))
    } else if category == 1 && kind == 0 {
        Ok(SessionEvent::RsaKeyExchange(RsaKeyExchangeEvent::SymmetricCipher(tail_bytes(msg, 2))))
    } else if category == 1 && kind == 1 && n == 2 {
        Ok(SessionEvent::RsaKeyExchange(RsaKeyExchangeEvent::Failed))
    } else if category == 2 && kind == 0 && n == 2 {
        Ok(SessionEvent::SecureCommunication(SecureCommunicationEvent::PlaceHolder))
    } else if category == 3 && kind == 1 && n == 3 && (msg[2] == 0 || msg[2] == 1) {
        Ok(SessionEvent::External(ExternalEvent::ChangeSafeDriveAccess(msg[2] == 1)))
    } else if category == 3 && kind == 2 && n == 2 {
        Ok(SessionEvent::External(ExternalEvent::Terminate))
    } else {
        Err(DispatchError::Malformed)
    }
}

} // verus!
