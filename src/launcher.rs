//! The composition root: provisioning of the private drive folder, and the
//! handles through which both subsystems are reached and stopped.
use vstd::prelude::*;
use std::sync::mpsc::Sender;
use crate::events::ExternalEvent;

verus! {

#[verifier::external_type_specification]
#[verifier::external_body]
#[verifier::reject_recursive_types(T)]
pub struct ExSender<T>(std::sync::mpsc::Sender<T>);

/// Name of the private drive folder under the user's root directory.
pub const SAFE_DRIVE_DIR_NAME: &'static str = "SAFEDrive";

/// Events for the app-registry subsystem.
#[derive(Clone, Copy, Debug, PartialEq, Eq, Structural)]
pub enum AppHandlerEvent {
    Terminate,
}

/// Relies on std's Sender::send: it hands `ev` to the receiving side, or
/// fails where that side is gone; either outcome is accepted.
#[verifier::external_body]
fn signal<T>(sender: &Sender<T>, ev: T) {
    let _ = sender.send(ev);
}

/// The names of a directory listing, as text.
pub open spec fn names(listing: Seq<String>) -> Seq<Seq<char>> {
    listing.map_values(|s: String| s@)
}

/// The listing once sub-directory `name` is ensured: unchanged where it is
/// there, else with `name` added.
pub open spec fn with_sub_directory(listing: Seq<Seq<char>>, name: Seq<char>) -> Seq<Seq<char>> {
    if listing.contains(name) {
        listing
    } else {
        listing.push(name)
    }
}

/// Whether `listing` holds a sub-directory called `name`.
pub fn has_sub_directory(listing: &Vec<String>, name: &String) -> (r: bool)
    ensures
        r == names(listing@).contains(name@),
{
    let mut i: usize = 0;
    while i < listing.len()
        invariant
            i <= listing@.len(),
            forall|j: int| 0 <= j < i ==> listing@[j]@ != name@,
        decreases listing@.len() - i,
    {
        if listing[i] == *name {
            assert(names(listing@)[i as int] == name@);
            return true;
        }
        i = i + 1;
    }
    assert(!names(listing@).contains(name@)) by {
        assert forall|j: int| 0 <= j < names(listing@).len() implies names(listing@)[j] != name@ by {
            assert(names(listing@)[j] == listing@[j]@);
        }
    }
    false
}

/// Adds sub-directory `name` where it is missing; true where it was added.
pub fn ensure_sub_directory(listing: &mut Vec<String>, name: &String) -> (created: bool)
    ensures
        created == !names(old(listing)@).contains(name@),
        names(final(listing)@) == with_sub_directory(names(old(listing)@), name@),
{
    if has_sub_directory(listing, name) {
        false
    } else {
        listing.push(name.clone());
        assert(names(listing@) =~= names(old(listing)@).push(name@));
        true
    }
}

/// The outcome of bootstrap after an attempt to create the folder `name`:
/// success where the create succeeded, or where a listing read after a
/// failed create shows the folder (a concurrent creator won the race);
/// otherwise the create's own error.
pub fn created_or_present<E>(created: Result<(), E>, listing_after: &Vec<String>, name: &String) -> (r: Result<(), E>)
    ensures
        r is Ok <==> (created is Ok || names(listing_after@).contains(name@)),
        r is Err ==> r == created,
{
    match created {
        Ok(()) => Ok(()),
        Err(e) => {
            if has_sub_directory(listing_after, name) {
                Ok(())
            } else {
                Err(e)
            }
        },
    }
}

/// Ensuring a sub-directory a second time changes nothing, and a listing that
/// lacked it ends with exactly one entry of that name.
pub proof fn lemma_ensure_sub_directory_idempotent(listing: Seq<Seq<char>>, name: Seq<char>)
    ensures
        with_sub_directory(with_sub_directory(listing, name), name) == with_sub_directory(listing, name),
        with_sub_directory(listing, name).contains(name),
        !listing.contains(name) ==> forall|i: int, j: int|
            0 <= i < j < with_sub_directory(listing, name).len()
            ==> !(with_sub_directory(listing, name)[i] == name && with_sub_directory(listing, name)[j] == name),
{
    let once = with_sub_directory(listing, name);
    if !listing.contains(name) {
        assert(once[listing.len() as int] == name);
        assert forall|i: int, j: int| 0 <= i < j < once.len() implies !(once[i] == name && once[j] == name) by {
            if once[i] == name {
                assert(listing[i] == name);
            }
        }
    }
    assert(once.contains(name)) by {
        if listing.contains(name) {
        } else {
            assert(once[listing.len() as int] == name);
        }
    }
}

/// Holds the channels to the IPC server and the app registry and stops both.
#[verifier::reject_recursive_types(C)]
pub struct Launcher<C> {
    ipc_event_sender: Sender<ExternalEvent<C>>,
    app_handler_event_sender: Sender<AppHandlerEvent>,
    stopped: bool,
}

impl<C> Launcher<C> {
    pub closed spec fn ipc_sender(&self) -> Sender<ExternalEvent<C>> {
        self.ipc_event_sender
    }

    pub closed spec fn app_sender(&self) -> Sender<AppHandlerEvent> {
        self.app_handler_event_sender
    }

    pub closed spec fn is_stopped(&self) -> bool {
        self.stopped
    }

    /// A launcher over two started subsystems, reached through the given
    /// senders.
    pub fn new(ipc_event_sender: Sender<ExternalEvent<C>>, app_handler_event_sender: Sender<AppHandlerEvent>) -> (r: Launcher<C>)
        ensures
            r.ipc_sender() == ipc_event_sender,
            r.app_sender() == app_handler_event_sender,
            !r.is_stopped(),
    {
        Launcher { ipc_event_sender, app_handler_event_sender, stopped: false }
    }

    /// The channel to the IPC server.
    pub fn get_ipc_event_sender(&self) -> (r: &Sender<ExternalEvent<C>>)
        ensures
            *r == self.ipc_sender(),
    {
        &self.ipc_event_sender
    }

    /// The channel to the app registry.
    pub fn get_app_handler_event_sender(&self) -> (r: &Sender<AppHandlerEvent>)
        ensures
            *r == self.app_sender(),
    {
        &self.app_handler_event_sender
    }

    /// Whether `stop` has run.
    pub fn stopped(&self) -> (r: bool)
        ensures
            r == self.is_stopped(),
    {
        self.stopped
    }

    /// Marks the launcher stopped and gives the signals still owed: both
    /// `Terminate`s the first time, nothing after.
    pub fn take_stop_signals(&mut self) -> (r: Option<(ExternalEvent<C>, AppHandlerEvent)>)
        ensures
            old(self).is_stopped() ==> r is None,
            !old(self).is_stopped() ==> r == Some((ExternalEvent::<C>::Terminate, AppHandlerEvent::Terminate)),
            final(self).is_stopped(),
            final(self).ipc_sender() == old(self).ipc_sender(),
            final(self).app_sender() == old(self).app_sender(),
    {
        if self.stopped {
            return None;
        }
        self.stopped = true;
        Some((ExternalEvent::Terminate, AppHandlerEvent::Terminate))
    }

    /// Signals `Terminate` to the IPC server and then to the app registry,
    /// once: a later call sends nothing. A failed send (the receiver is
    /// already gone) does not keep the second signal from being sent. Gives
    /// whether the signals were sent by this call.
    pub fn stop(&mut self) -> (r: bool)
        ensures
            r == !old(self).is_stopped(),
            final(self).is_stopped(),
            final(self).ipc_sender() == old(self).ipc_sender(),
            final(self).app_sender() == old(self).app_sender(),
    {
        match self.take_stop_signals() {
            Some((ipc, app)) => {
                signal(&self.ipc_event_sender, ipc);
                signal(&self.app_handler_event_sender, app);
                true
            },
            None => false,
        }
    }
}

} // verus!
