//! Events that drive an IPC session, grouped by category.
use vstd::prelude::*;
use vstd::string::*;
use crate::text::{detail_text, to_hex};

verus! {

/// The category that a session event belongs to. Every inbound message falls
/// in exactly one of them.
#[derive(Clone, Copy, Debug, PartialEq, Eq, Structural)]
pub enum IpcSessionEventCategory {
    AppAuthenticationEvent,
    RsaKeyExchangeEvent,
    SecureCommunicationEvent,
    ExternalEvent,
}

/// Events of the authentication phase.
#[derive(Clone, Debug)]
pub enum AppAuthenticationEvent {
    /// The app's answer to the nonce that the session issued.
    ReceivedNonce(String),
    Failed,
}

/// Events of the key-exchange phase.
#[derive(Clone, Debug)]
pub enum RsaKeyExchangeEvent {
    /// The symmetric key and nonce, sealed to the session's public key.
    SymmetricCipher(Vec<u8>),
    Failed,
}

/// Events of the secure phase: an extension point with no message defined yet.
#[derive(Clone, Copy, Debug, PartialEq, Eq, Structural)]
pub enum SecureCommunicationEvent {
    PlaceHolder,
}

/// Identifier of an app, unique over the network.
#[derive(Clone, Debug)]
pub struct AppId {
    pub bytes: Vec<u8>,
}

impl View for AppId {
    type V = Seq<u8>;

    open spec fn view(&self) -> Seq<u8> {
        self.bytes@
    }
}

impl AppId {
    /// A copy of the identifier.
    pub fn duplicate(&self) -> (r: AppId)
        ensures
            r@ == self@,
    {
        let bytes = self.bytes.clone();
        assert(bytes@ =~= self.bytes@);
        AppId { bytes }
    }

    /// Whether two identifiers hold the same bytes.
    pub fn same_as(&self, other: &AppId) -> (r: bool)
        ensures
            r == (self@ == other@),
    {
        if self.bytes.len() != other.bytes.len() {
            return false;
        }
        let mut i: usize = 0;
        while i < self.bytes.len()
            invariant
                self.bytes@.len() == other.bytes@.len(),
                0 <= i <= self.bytes@.len(),
                forall|j: int| 0 <= j < i ==> self.bytes@[j] == other.bytes@[j],
            decreases self.bytes@.len() - i,
        {
            if self.bytes[i] != other.bytes[i] {
                return false;
            }
            i = i + 1;
        }
        assert(self.bytes@ =~= other.bytes@);
        true
    }
}

/// What the IPC layer learns of an app once its session is secure. `C` is the
/// shared handle to the network client.
#[derive(Clone)]
pub struct AppDetail<C> {
    pub client: C,
    pub app_id: AppId,
    pub safe_drive_access: bool,
}

impl<C> AppDetail<C> {
    /// The detail as text, without the client handle.
    pub fn describe(&self) -> (r: String)
        ensures
            r@ == detail_text(self.app_id@, self.safe_drive_access),
    {
        let mut r = String::from_str("AppDetail { client: Arc<Mutex<Client>>, app_id: ");
        r.append(to_hex(self.app_id.bytes.as_slice()).as_str());
        r.append(", safe_drive_access: ");
        if self.safe_drive_access {
            r.append("true");
        } else {
            r.append("false");
        }
        r.append(", }");
        r
    }
}

/// Events that cross session boundaries.
#[derive(Clone)]
pub enum ExternalEvent<C> {
    AppDetailReceived(Box<AppDetail<C>>),
    ChangeSafeDriveAccess(bool),
    Terminate,
}

} // verus!
