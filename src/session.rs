//! The per-app session: nonce authentication, then key exchange, then a
//! symmetric channel in which every outbound message has a nonce of its own.
use vstd::prelude::*;
use crate::crypto::{
    generate_box_keypair, random_bytes, sealed_open, sealed_open_of, secretbox_open, secretbox_open_of,
    secretbox_seal, secretbox_seal_of, BOX_KEY_LEN, KEY_LEN, NONCE_LEN,
};
use crate::text::{hex_of, to_hex};
use crate::events::{AppAuthenticationEvent, RsaKeyExchangeEvent, SecureCommunicationEvent};

verus! {

/// Where a session stands in its handshake.
#[derive(Clone, Copy, Debug, PartialEq, Eq, Structural)]
pub enum SessionState {
    Unauthenticated,
    AwaitingProof,
    KeyExchangeInProgress,
    Secure,
    Terminated,
}

/// Why a session operation failed.
#[derive(Clone, Copy, Debug, PartialEq, Eq, Structural)]
pub enum SessionError {
    /// The operation or event does not belong to the session's current state.
    InvalidState,
    /// The app's proof did not match the issued nonce, or the app gave up.
    AuthenticationFailed,
    /// The wrapped key material could not be unwrapped or had the wrong size.
    KeyExchangeFailed,
    /// The secure channel is not established.
    NotReady,
    /// Every message number of this key has been used.
    NonceExhausted,
    /// The ciphertext did not verify under the session's key.
    DecryptionFailed,
    /// The secure-phase message set is not defined yet.
    NotImplemented,
}

/// Number of random bytes behind an issued nonce.
pub const NONCE_SOURCE_LEN: usize = 16;

/// Length of the unwrapped key material: the key followed by the base nonce.
pub const KEY_MATERIAL_LEN: usize = 56;

/// Byte `i` (least significant first) of a message number.
pub open spec fn counter_byte(counter: u64, i: int) -> u8 {
    ((counter >> ((8 * i) as u64)) & 0xff) as u8
}

/// The nonce of message number `counter`: its eight bytes, least significant
/// first, then the rest of the base nonce.
pub open spec fn message_nonce(base: Seq<u8>, counter: u64) -> Seq<u8> {
    Seq::new(NONCE_LEN as nat, |i: int| if i < 8 { counter_byte(counter, i) } else { base[i] })
}

/// The handshake order; a session only ever moves up it.
pub open spec fn state_rank(s: SessionState) -> int {
    match s {
        SessionState::Unauthenticated => 0,
        SessionState::AwaitingProof => 1,
        SessionState::KeyExchangeInProgress => 2,
        SessionState::Secure => 3,
        SessionState::Terminated => 4,
    }
}

/// The abstract content of a session.
pub ghost struct SessionModel {
    pub state: SessionState,
    /// The nonce issued to the app.
    pub issued: Seq<char>,
    pub public_key: Seq<u8>,
    pub secret_key: Seq<u8>,
    /// The symmetric key, once exchanged.
    pub key: Seq<u8>,
    /// The base nonce, once exchanged.
    pub base_nonce: Seq<u8>,
    /// The number of the last message sent.
    pub sent: u64,
}

pub open spec fn terminated(m: SessionModel) -> SessionModel {
    SessionModel { state: SessionState::Terminated, ..m }
}

/// A session's state and result after an authentication event.
pub open spec fn after_auth(m: SessionModel, ev: AppAuthenticationEvent) -> (SessionModel, Result<(), SessionError>) {
    if m.state == SessionState::Terminated {
        (m, Err(SessionError::InvalidState))
    } else if m.state != SessionState::AwaitingProof {
        (terminated(m), Err(SessionError::InvalidState))
    } else {
        match ev {
            AppAuthenticationEvent::ReceivedNonce(p) => if p@ == m.issued {
                (SessionModel { state: SessionState::KeyExchangeInProgress, ..m }, Ok(()))
            } else {
                (terminated(m), Err(SessionError::AuthenticationFailed))
            },
            AppAuthenticationEvent::Failed => (terminated(m), Err(SessionError::AuthenticationFailed)),
        }
    }
}

/// A session's state and result once the wrapped key material has been
/// opened to `unwrapped` (`None`: it could not be).
pub open spec fn after_key_material(m: SessionModel, unwrapped: Option<Seq<u8>>) -> (SessionModel, Result<(), SessionError>) {
    if m.state == SessionState::Terminated {
        (m, Err(SessionError::InvalidState))
    } else if m.state != SessionState::KeyExchangeInProgress {
        (terminated(m), Err(SessionError::InvalidState))
    } else {
        match unwrapped {
            Some(b) => if b.len() == KEY_MATERIAL_LEN {
                (SessionModel {
                    state: SessionState::Secure,
                    key: b.subrange(0, KEY_LEN as int),
                    base_nonce: b.subrange(KEY_LEN as int, KEY_MATERIAL_LEN as int),
                    sent: 0,
                    ..m
                }, Ok(()))
            } else {
                (terminated(m), Err(SessionError::KeyExchangeFailed))
            },
            None => (terminated(m), Err(SessionError::KeyExchangeFailed)),
        }
    }
}

/// What opening the wrapped material of a key-exchange event gives.
pub open spec fn unwrapped_of(m: SessionModel, ev: RsaKeyExchangeEvent) -> Option<Seq<u8>> {
    match ev {
        RsaKeyExchangeEvent::SymmetricCipher(c) => sealed_open_of(c@, m.public_key, m.secret_key),
        RsaKeyExchangeEvent::Failed => None,
    }
}

pub open spec fn result_bytes(r: Result<Vec<u8>, ()>) -> Option<Seq<u8>> {
    match r {
        Ok(v) => Some(v@),
        Err(_) => None,
    }
}

/// One app's session.
pub struct IpcSession {
    state: SessionState,
    issued_nonce: String,
    public_key: Vec<u8>,
    secret_key: Vec<u8>,
    key: Vec<u8>,
    base_nonce: Vec<u8>,
    sent: u64,
}

impl View for IpcSession {
    type V = SessionModel;

    closed spec fn view(&self) -> SessionModel {
        SessionModel {
            state: self.state,
            issued: self.issued_nonce@,
            public_key: self.public_key@,
            secret_key: self.secret_key@,
            key: self.key@,
            base_nonce: self.base_nonce@,
            sent: self.sent,
        }
    }
}

/// Builds the nonce of message number `counter`.
fn message_nonce_bytes(base: &Vec<u8>, counter: u64) -> (r: Vec<u8>)
    requires
        base@.len() == NONCE_LEN,
    ensures
        r@ == message_nonce(base@, counter),
{
    let mut r: Vec<u8> = Vec::new();
    let mut i: usize = 0;
    while i < 8
        invariant
            i <= 8,
            r@.len() == i,
            forall|j: int| 0 <= j < i ==> r@[j] == counter_byte(counter, j),
        decreases 8 - i,
    {
        r.push(((counter >> ((8 * i) as u64)) & 0xff) as u8);
        i = i + 1;
    }
    while i < NONCE_LEN
        invariant
            8 <= i <= NONCE_LEN,
            base@.len() == NONCE_LEN,
            r@.len() == i,
            forall|j: int| 0 <= j < 8 ==> r@[j] == counter_byte(counter, j),
            forall|j: int| 8 <= j < i ==> r@[j] == base@[j],
        decreases NONCE_LEN - i,
    {
        r.push(base[i]);
        i = i + 1;
    }
    assert(r@ =~= message_nonce(base@, counter));
    r
}

impl IpcSession {
    /// The sizes that the keys of each state need.
    pub open spec fn wf(&self) -> bool {
        &&& self@.public_key.len() == BOX_KEY_LEN
        &&& self@.secret_key.len() == BOX_KEY_LEN
        &&& self@.state == SessionState::Secure ==> {
            &&& self@.key.len() == KEY_LEN
            &&& self@.base_nonce.len() == NONCE_LEN
        }
    }

    /// A fresh session that unwraps key material with the given key pair.
    pub fn new(public_key: Vec<u8>, secret_key: Vec<u8>) -> (r: IpcSession)
        requires
            public_key@.len() == BOX_KEY_LEN,
            secret_key@.len() == BOX_KEY_LEN,
        ensures
            r.wf(),
            r@.state == SessionState::Unauthenticated,
            r@.public_key == public_key@,
            r@.secret_key == secret_key@,
            r@.issued.len() == 0,
            r@.key.len() == 0,
            r@.base_nonce.len() == 0,
            r@.sent == 0,
    {
        IpcSession {
            state: SessionState::Unauthenticated,
            issued_nonce: String::new(),
            public_key,
            secret_key,
            key: Vec::new(),
            base_nonce: Vec::new(),
            sent: 0,
        }
    }

    /// A fresh session with a newly generated key pair.
    pub fn generate() -> (r: IpcSession)
        ensures
            r.wf(),
            r@.state == SessionState::Unauthenticated,
            r@.sent == 0,
    {
        let (public_key, secret_key) = generate_box_keypair();
        IpcSession::new(public_key, secret_key)
    }

    pub fn state(&self) -> (r: SessionState)
        ensures
            r == self@.state,
    {
        self.state
    }

    /// The public key that the app seals the key material to.
    pub fn public_key(&self) -> (r: &[u8])
        ensures
            r@ == self@.public_key,
    {
        self.public_key.as_slice()
    }


    /// Issues `nonce` to the app and waits for its proof.
    pub fn begin(&mut self, nonce: String) -> (r: Result<String, SessionError>)
        requires
            old(self).wf(),
        ensures
            final(self).wf(),
            old(self)@.state == SessionState::Unauthenticated ==> {
                &&& r is Ok
                &&& r->Ok_0@ == nonce@
                &&& final(self)@ == (SessionModel { state: SessionState::AwaitingProof, issued: nonce@, ..old(self)@ })
            },
            old(self)@.state != SessionState::Unauthenticated ==> {
                &&& r == Err::<String, SessionError>(SessionError::InvalidState)
                &&& final(self)@ == old(self)@
            },
    {
        if self.state != SessionState::Unauthenticated {
            return Err(SessionError::InvalidState);
        }
        let sent = nonce.clone();
        self.issued_nonce = nonce;
        self.state = SessionState::AwaitingProof;
        Ok(sent)
    }

    /// Draws a fresh random nonce of 16 bytes, issues its hex text to the
    /// app and waits for its proof.
    pub fn begin_fresh(&mut self) -> (r: Result<String, SessionError>)
        requires
            old(self).wf(),
        ensures
            final(self).wf(),
            old(self)@.state == SessionState::Unauthenticated ==> {
                &&& r is Ok
                &&& exists|b: Seq<u8>| b.len() == NONCE_SOURCE_LEN && r->Ok_0@ == #[trigger] hex_of(b)
                &&& final(self)@ == (SessionModel { state: SessionState::AwaitingProof, issued: r->Ok_0@, ..old(self)@ })
            },
            old(self)@.state != SessionState::Unauthenticated ==> {
                &&& r == Err::<String, SessionError>(SessionError::InvalidState)
                &&& final(self)@ == old(self)@
            },
    {
        if self.state != SessionState::Unauthenticated {
            return Err(SessionError::InvalidState);
        }
        let b = random_bytes(NONCE_SOURCE_LEN);
        let nonce = to_hex(b.as_slice());
        assert(nonce@ == hex_of(b@));
        self.begin(nonce)
    }

    /// Checks the app's proof against the issued nonce.
    pub fn handle_auth_event(&mut self, ev: AppAuthenticationEvent) -> (r: Result<(), SessionError>)
        requires
            old(self).wf(),
        ensures
            final(self).wf(),
            (final(self)@, r) == after_auth(old(self)@, ev),
    {
        if self.state == SessionState::Terminated {
            return Err(SessionError::InvalidState);
        }
        if self.state != SessionState::AwaitingProof {
            self.state = SessionState::Terminated;
            return Err(SessionError::InvalidState);
        }
        match ev {
            AppAuthenticationEvent::ReceivedNonce(proof) => {
                if proof == self.issued_nonce {
                    self.state = SessionState::KeyExchangeInProgress;
                    Ok(())
                } else {
                    self.state = SessionState::Terminated;
                    Err(SessionError::AuthenticationFailed)
                }
            },
            AppAuthenticationEvent::Failed => {
                self.state = SessionState::Terminated;
                Err(SessionError::AuthenticationFailed)
            },
        }
    }

    /// Takes the opened key material (`Err`: it could not be opened) and, if
    /// it has the size of a key and a nonce, makes the channel secure.
    pub fn install_key_material(&mut self, unwrapped: Result<Vec<u8>, ()>) -> (r: Result<(), SessionError>)
        requires
            old(self).wf(),
        ensures
            final(self).wf(),
            (final(self)@, r) == after_key_material(old(self)@, result_bytes(unwrapped)),
    {
        if self.state == SessionState::Terminated {
            return Err(SessionError::InvalidState);
        }
        if self.state != SessionState::KeyExchangeInProgress {
            self.state = SessionState::Terminated;
            return Err(SessionError::InvalidState);
        }
        match unwrapped {
            Ok(material) => {
                if material.len() != KEY_MATERIAL_LEN {
                    self.state = SessionState::Terminated;
                    return Err(SessionError::KeyExchangeFailed);
                }
                let mut key: Vec<u8> = Vec::new();
                let mut base_nonce: Vec<u8> = Vec::new();
                let mut i: usize = 0;
                while i < KEY_MATERIAL_LEN
                    invariant
                        material@.len() == KEY_MATERIAL_LEN,
                        i <= KEY_MATERIAL_LEN,
                        i <= KEY_LEN ==> key@ =~= material@.subrange(0, i as int) && base_nonce@.len() == 0,
                        i > KEY_LEN ==> key@ =~= material@.subrange(0, KEY_LEN as int)
                            && base_nonce@ =~= material@.subrange(KEY_LEN as int, i as int),
                    decreases KEY_MATERIAL_LEN - i,
                {
                    if i < KEY_LEN {
                        key.push(material[i]);
                    } else {
                        base_nonce.push(material[i]);
                    }
                    i = i + 1;
                }
                self.key = key;
                self.base_nonce = base_nonce;
                self.sent = 0;
                self.state = SessionState::Secure;
                Ok(())
            },
            Err(_) => {
                self.state = SessionState::Terminated;
                Err(SessionError::KeyExchangeFailed)
            },
        }
    }

    /// Opens the wrapped key material with the session's key pair and
    /// installs it.
    pub fn handle_key_exchange_event(&mut self, ev: RsaKeyExchangeEvent) -> (r: Result<(), SessionError>)
        requires
            old(self).wf(),
        ensures
            final(self).wf(),
            (final(self)@, r) == after_key_material(old(self)@, unwrapped_of(old(self)@, ev)),
    {
        if self.state != SessionState::KeyExchangeInProgress {
            return self.install_key_material(Err(()));
        }
        match ev {
            RsaKeyExchangeEvent::SymmetricCipher(wrapped) => {
                let opened = sealed_open(wrapped.as_slice(), self.public_key.as_slice(), self.secret_key.as_slice());
                self.install_key_material(opened)
            },
            RsaKeyExchangeEvent::Failed => self.install_key_material(Err(())),
        }
    }

    /// Messages of the secure phase are not defined: every one is refused.
    pub fn handle_secure_event(&mut self, ev: SecureCommunicationEvent) -> (r: Result<(), SessionError>)
        ensures
            r == Err::<(), SessionError>(SessionError::NotImplemented),
            final(self)@ == old(self)@,
    {
        Err(SessionError::NotImplemented)
    }

    /// Ends the session; ending it again changes nothing.
    pub fn terminate(&mut self)
        requires
            old(self).wf(),
        ensures
            final(self).wf(),
            final(self)@ == terminated(old(self)@),
    {
        self.state = SessionState::Terminated;
    }

    /// Encrypts `plaintext` as the next message and returns its number with
    /// the ciphertext. Each message of a key gets a number of its own.
    pub fn encrypt(&mut self, plaintext: &[u8]) -> (r: Result<(u64, Vec<u8>), SessionError>)
        requires
            old(self).wf(),
        ensures
            final(self).wf(),
            old(self)@.state != SessionState::Secure ==> {
                &&& r == Err::<(u64, Vec<u8>), SessionError>(SessionError::NotReady)
                &&& final(self)@ == old(self)@
            },
            old(self)@.state == SessionState::Secure && old(self)@.sent == u64::MAX ==> {
                &&& r == Err::<(u64, Vec<u8>), SessionError>(SessionError::NonceExhausted)
                &&& final(self)@ == old(self)@
            },
            old(self)@.state == SessionState::Secure && old(self)@.sent < u64::MAX ==> {
                let n = (old(self)@.sent + 1) as u64;
                &&& r is Ok
                &&& r->Ok_0.0 == n
                &&& r->Ok_0.1@ == secretbox_seal_of(plaintext@, message_nonce(old(self)@.base_nonce, n), old(self)@.key)
                &&& final(self)@ == (SessionModel { sent: n, ..old(self)@ })
            },
    {
        if self.state != SessionState::Secure {
            return Err(SessionError::NotReady);
        }
        if self.sent == u64::MAX {
            return Err(SessionError::NonceExhausted);
        }
        let n = self.sent + 1;
        let nonce = message_nonce_bytes(&self.base_nonce, n);
        let c = secretbox_seal(plaintext, nonce.as_slice(), self.key.as_slice());
        self.sent = n;
        Ok((n, c))
    }

    /// Verifies and decrypts message number `counter`.
    pub fn decrypt(&self, counter: u64, ciphertext: &[u8]) -> (r: Result<Vec<u8>, SessionError>)
        requires
            self.wf(),
        ensures
            self@.state != SessionState::Secure ==> r == Err::<Vec<u8>, SessionError>(SessionError::NotReady),
            self@.state == SessionState::Secure ==> match secretbox_open_of(ciphertext@, message_nonce(self@.base_nonce, counter), self@.key) {
                Some(m) => r is Ok && r->Ok_0@ == m,
                None => r == Err::<Vec<u8>, SessionError>(SessionError::DecryptionFailed),
            },
            forall|m: Seq<u8>| #![auto] self@.state == SessionState::Secure
                && ciphertext@ == secretbox_seal_of(m, message_nonce(self@.base_nonce, counter), self@.key)
                ==> r is Ok && r->Ok_0@ == m,
    {
        if self.state != SessionState::Secure {
            return Err(SessionError::NotReady);
        }
        let nonce = message_nonce_bytes(&self.base_nonce, counter);
        match secretbox_open(ciphertext, nonce.as_slice(), self.key.as_slice()) {
            Ok(m) => Ok(m),
            Err(_) => Err(SessionError::DecryptionFailed),
        }
    }
} // impl IpcSession

} // verus!

verus! {

/// A session never moves back in the handshake: neither an authentication
/// event nor a key-exchange outcome lowers its state, a terminated session
/// stays as it is, and the secure state is entered only from key exchange, so
/// at most once.
pub proof fn lemma_state_only_advances(m: SessionModel, ev: AppAuthenticationEvent, unwrapped: Option<Seq<u8>>)
    ensures
        state_rank(after_auth(m, ev).0.state) >= state_rank(m.state),
        state_rank(after_key_material(m, unwrapped).0.state) >= state_rank(m.state),
        m.state == SessionState::Terminated ==> after_auth(m, ev).0 == m && after_key_material(m, unwrapped).0 == m,
        after_auth(m, ev).0.state != SessionState::Secure,
        after_key_material(m, unwrapped).0.state == SessionState::Secure ==> m.state == SessionState::KeyExchangeInProgress,
{
}

/// Two different message numbers never share a nonce under the same base.
pub proof fn lemma_message_nonces_differ(base: Seq<u8>, c1: u64, c2: u64)
    requires
        c1 != c2,
    ensures
        message_nonce(base, c1) != message_nonce(base, c2),
{
    if message_nonce(base, c1) == message_nonce(base, c2) {
        assert forall|i: int| 0 <= i < 8 implies counter_byte(c1, i) == counter_byte(c2, i) by {
            assert(message_nonce(base, c1)[i] == message_nonce(base, c2)[i]);
        }
        assert(counter_byte(c1, 0) == counter_byte(c2, 0));
        assert(counter_byte(c1, 1) == counter_byte(c2, 1));
        assert(counter_byte(c1, 2) == counter_byte(c2, 2));
        assert(counter_byte(c1, 3) == counter_byte(c2, 3));
        assert(counter_byte(c1, 4) == counter_byte(c2, 4));
        assert(counter_byte(c1, 5) == counter_byte(c2, 5));
        assert(counter_byte(c1, 6) == counter_byte(c2, 6));
        assert(counter_byte(c1, 7) == counter_byte(c2, 7));
        assert(({
            &&& ((c1 >> 0u64) & 0xff) as u8 == ((c2 >> 0u64) & 0xff) as u8
            &&& ((c1 >> 8u64) & 0xff) as u8 == ((c2 >> 8u64) & 0xff) as u8
            &&& ((c1 >> 16u64) & 0xff) as u8 == ((c2 >> 16u64) & 0xff) as u8
            &&& ((c1 >> 24u64) & 0xff) as u8 == ((c2 >> 24u64) & 0xff) as u8
            &&& ((c1 >> 32u64) & 0xff) as u8 == ((c2 >> 32u64) & 0xff) as u8
            &&& ((c1 >> 40u64) & 0xff) as u8 == ((c2 >> 40u64) & 0xff) as u8
            &&& ((c1 >> 48u64) & 0xff) as u8 == ((c2 >> 48u64) & 0xff) as u8
            &&& ((c1 >> 56u64) & 0xff) as u8 == ((c2 >> 56u64) & 0xff) as u8
        }) ==> c1 == c2) by (bit_vector);
    }
}

} // verus!
