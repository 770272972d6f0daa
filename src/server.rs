//! The IPC server's control plane: the registry of live sessions, the apps
//! they belong to with their drive-access capability, and shutdown.
use vstd::prelude::*;
use crate::events::{AppId, ExternalEvent};

verus! {

/// The abstract content of one registry entry.
pub ghost struct EntryModel {
    pub session_id: u64,
    /// The app of the session, once its handshake completed.
    pub app: Option<Seq<u8>>,
    pub safe_drive_access: bool,
}

/// The abstract content of the server.
pub ghost struct ServerModel {
    /// The live sessions, oldest first.
    pub entries: Seq<EntryModel>,
    pub accepting: bool,
    pub next_id: u64,
    pub max_sessions: nat,
}

/// The entries after every live session of `app` got capability `allowed`.
pub open spec fn with_access(entries: Seq<EntryModel>, app: Seq<u8>, allowed: bool) -> Seq<EntryModel> {
    entries.map_values(|e: EntryModel| if e.app == Some(app) {
        EntryModel { safe_drive_access: allowed, ..e }
    } else {
        e
    })
}

/// The entries after session `id` was bound to `app` with capability `allowed`.
pub open spec fn with_app(entries: Seq<EntryModel>, id: u64, app: Seq<u8>, allowed: bool) -> Seq<EntryModel> {
    entries.map_values(|e: EntryModel| if e.session_id == id {
        EntryModel { app: Some(app), safe_drive_access: allowed, ..e }
    } else {
        e
    })
}

/// Whether session `id` is live.
pub open spec fn is_live(entries: Seq<EntryModel>, id: u64) -> bool {
    exists|i: int| 0 <= i < entries.len() && #[trigger] entries[i].session_id == id
}

/// The server after shutdown: it accepts nothing and has no live session.
pub open spec fn shut_down(m: ServerModel) -> ServerModel {
    ServerModel { entries: Seq::empty(), accepting: false, ..m }
}

/// The sessions that shutdown has to close and join.
pub open spec fn to_join(m: ServerModel) -> Seq<u64> {
    m.entries.map_values(|e: EntryModel| e.session_id)
}

/// The session registry of an IPC server.
pub struct IpcServer {
    ids: Vec<u64>,
    apps: Vec<Option<AppId>>,
    access: Vec<bool>,
    accepting: bool,
    next_id: u64,
    max_sessions: usize,
}

pub open spec fn app_view(a: Option<AppId>) -> Option<Seq<u8>> {
    match a {
        Some(id) => Some(id@),
        None => None,
    }
}

impl View for IpcServer {
    type V = ServerModel;

    closed spec fn view(&self) -> ServerModel {
        ServerModel {
            entries: Seq::new(self.ids@.len(), |i: int| EntryModel {
                session_id: self.ids@[i],
                app: app_view(self.apps@[i]),
                safe_drive_access: self.access@[i],
            }),
            accepting: self.accepting,
            next_id: self.next_id,
            max_sessions: self.max_sessions as nat,
        }
    }
}

impl IpcServer {
    /// Session ids are increasing, so each is live at most once, and below
    /// the next id to hand out.
    pub open spec fn wf(&self) -> bool {
        &&& self.lengths_agree()
        &&& forall|i: int, j: int| 0 <= i < j < self@.entries.len()
            ==> self@.entries[i].session_id < self@.entries[j].session_id
        &&& forall|i: int| 0 <= i < self@.entries.len() ==> self@.entries[i].session_id < self@.next_id
    }

    pub closed spec fn lengths_agree(&self) -> bool {
        self.apps@.len() == self.ids@.len() && self.access@.len() == self.ids@.len()
    }

    /// A server that accepts up to `max_sessions` live sessions.
    pub fn new(max_sessions: usize) -> (r: IpcServer)
        ensures
            r.wf(),
            r@ == (ServerModel { entries: Seq::empty(), accepting: true, next_id: 0, max_sessions: max_sessions as nat }),
    {
        let r = IpcServer {
            ids: Vec::new(),
            apps: Vec::new(),
            access: Vec::new(),
            accepting: true,
            next_id: 0,
            max_sessions,
        };
        assert(r@.entries =~= Seq::empty());
        r
    }

    pub fn is_accepting(&self) -> (r: bool)
        ensures
            r == self@.accepting,
    {
        self.accepting
    }

    pub fn live_sessions(&self) -> (r: usize)
        requires
            self.wf(),
        ensures
            r == self@.entries.len(),
    {
        self.ids.len()
    }

    /// Admits a new session while the server accepts and has room; gives its id.
    pub fn accept_session(&mut self) -> (r: Option<u64>)
        requires
            old(self).wf(),
        ensures
            final(self).wf(),
            ({
                let m = old(self)@;
                if m.accepting && m.entries.len() < m.max_sessions && m.next_id < u64::MAX {
                    &&& r == Some(m.next_id)
                    &&& final(self)@ == (ServerModel {
                        entries: m.entries.push(EntryModel { session_id: m.next_id, app: None, safe_drive_access: false }),
                        next_id: (m.next_id + 1) as u64,
                        ..m
                    })
                } else {
                    r is None && final(self)@ == m
                }
            }),
    {
        if !self.accepting || self.ids.len() >= self.max_sessions || self.next_id == u64::MAX {
            return None;
        }
        let id = self.next_id;
        self.ids.push(id);
        self.apps.push(None);
        self.access.push(false);
        self.next_id = id + 1;
        assert(self@.entries =~= old(self)@.entries.push(EntryModel { session_id: id, app: None, safe_drive_access: false }));
        Some(id)
    }

    /// Where session `id` stands in the registry.
    fn position(&self, id: u64) -> (r: Option<usize>)
        requires
            self.wf(),
        ensures
            match r {
                Some(i) => i < self@.entries.len() && self@.entries[i as int].session_id == id,
                None => !is_live(self@.entries, id),
            },
    {
        let mut i: usize = 0;
        while i < self.ids.len()
            invariant
                self.wf(),
                i <= self.ids@.len(),
                forall|j: int| 0 <= j < i ==> self.ids@[j] != id,
            decreases self.ids@.len() - i,
        {
            if self.ids[i] == id {
                return Some(i);
            }
            i = i + 1;
        }
        proof {
            assert forall|j: int| 0 <= j < self@.entries.len() implies #[trigger] self@.entries[j].session_id != id by {
                assert(self@.entries[j].session_id == self.ids@[j]);
            }
        }
        None
    }

    /// The drive-access capability of session `id`, where it is live.
    pub fn safe_drive_access(&self, id: u64) -> (r: Option<bool>)
        requires
            self.wf(),
        ensures
            match r {
                Some(b) => exists|i: int| 0 <= i < self@.entries.len()
                    && #[trigger] self@.entries[i].session_id == id && self@.entries[i].safe_drive_access == b,
                None => !is_live(self@.entries, id),
            },
    {
        match self.position(id) {
            Some(i) => {
                assert(self@.entries[i as int].safe_drive_access == self.access@[i as int]);
                Some(self.access[i])
            },
            None => None,
        }
    }

    /// Binds a secure session to its app and capability; false where the
    /// session is not live.
    pub fn record_app(&mut self, session_id: u64, app_id: AppId, safe_drive_access: bool) -> (r: bool)
        requires
            old(self).wf(),
        ensures
            final(self).wf(),
            r == is_live(old(self)@.entries, session_id),
            final(self)@ == (ServerModel {
                entries: with_app(old(self)@.entries, session_id, app_id@, safe_drive_access),
                ..old(self)@
            }),
    {
        match self.position(session_id) {
            Some(i) => {
                let ghost app = app_id@;
                proof {
                    assert forall|j: int| 0 <= j < self.ids@.len() && j != i implies
                        #[trigger] self.ids@[j] != session_id by {
                        assert(self@.entries[j].session_id == self.ids@[j]);
                        assert(self@.entries[i as int].session_id == self.ids@[i as int]);
                    }
                }
                self.apps.set(i, Some(app_id));
                self.access.set(i, safe_drive_access);
                assert(self@.entries =~= with_app(old(self)@.entries, session_id, app, safe_drive_access)) by {
                    assert forall|j: int| 0 <= j < self@.entries.len() implies
                        #[trigger] self@.entries[j] == with_app(old(self)@.entries, session_id, app, safe_drive_access)[j] by {
                        assert(old(self)@.entries[j].session_id == self.ids@[j]);
                    }
                }
                true
            },
            None => {
                assert(self@.entries =~= with_app(old(self)@.entries, session_id, app_id@, safe_drive_access));
                false
            },
        }
    }

    /// Sets the drive-access capability of every live session of `app_id`;
    /// the sessions of every other app keep theirs.
    pub fn change_safe_drive_access(&mut self, app_id: &AppId, allowed: bool)
        requires
            old(self).wf(),
        ensures
            final(self).wf(),
            final(self)@ == (ServerModel {
                entries: with_access(old(self)@.entries, app_id@, allowed),
                ..old(self)@
            }),
    {
        let mut i: usize = 0;
        while i < self.ids.len()
            invariant
                self.wf(),
                i <= self.ids@.len(),
                self.ids@ == old(self).ids@,
                self.apps@ == old(self).apps@,
                self.access@.len() == old(self).access@.len(),
                self@.accepting == old(self)@.accepting,
                self@.next_id == old(self)@.next_id,
                self@.max_sessions == old(self)@.max_sessions,
                self@.entries.len() == old(self)@.entries.len(),
                forall|j: int| 0 <= j < i ==> #[trigger] self@.entries[j] == with_access(old(self)@.entries, app_id@, allowed)[j],
                forall|j: int| i <= j < self@.entries.len() ==> #[trigger] self@.entries[j] == old(self)@.entries[j],
            decreases self.ids@.len() - i,
        {
            let ghost before = self@;
            let matches_app = match &self.apps[i] {
                Some(a) => a.same_as(app_id),
                None => false,
            };
            if matches_app {
                self.access.set(i, allowed);
            }
            proof {
                assert(matches_app == (old(self)@.entries[i as int].app == Some(app_id@)));
                assert forall|j: int| 0 <= j < self@.entries.len() implies
                    #[trigger] self@.entries[j].session_id == before.entries[j].session_id
                    && (j != i ==> self@.entries[j] == before.entries[j]) by {}
                assert(self@.entries[i as int] == with_access(old(self)@.entries, app_id@, allowed)[i as int]);
                assert forall|j: int| 0 <= j <= i implies
                    #[trigger] self@.entries[j] == with_access(old(self)@.entries, app_id@, allowed)[j] by {
                    if j < i {
                        assert(before.entries[j] == with_access(old(self)@.entries, app_id@, allowed)[j]);
                    }
                }
                assert forall|j: int| i < j < self@.entries.len() implies
                    #[trigger] self@.entries[j] == old(self)@.entries[j] by {
                    assert(before.entries[j] == old(self)@.entries[j]);
                }
            }
            i = i + 1;
        }
        assert(self@.entries =~= with_access(old(self)@.entries, app_id@, allowed));
    }

    /// Drops session `id` from the registry; false where it was not live.
    pub fn close_session(&mut self, id: u64) -> (r: bool)
        requires
            old(self).wf(),
        ensures
            final(self).wf(),
            r == is_live(old(self)@.entries, id),
            !r ==> final(self)@ == old(self)@,
            r ==> exists|i: int| 0 <= i < old(self)@.entries.len()
                && old(self)@.entries[i].session_id == id
                && final(self)@ == (ServerModel { entries: old(self)@.entries.remove(i), ..old(self)@ }),
    {
        match self.position(id) {
            Some(i) => {
                self.ids.remove(i);
                self.apps.remove(i);
                self.access.remove(i);
                assert(self@.entries =~= old(self)@.entries.remove(i as int));
                true
            },
            None => false,
        }
    }

    /// Stops accepting and closes every live session, giving the ids of the
    /// sessions to signal and join. A second call finds none left.
    pub fn terminate(&mut self) -> (r: Vec<u64>)
        requires
            old(self).wf(),
        ensures
            final(self).wf(),
            r@ == to_join(old(self)@),
            final(self)@ == shut_down(old(self)@),
    {
        let mut ids: Vec<u64> = Vec::new();
        core::mem::swap(&mut ids, &mut self.ids);
        self.apps = Vec::new();
        self.access = Vec::new();
        self.accepting = false;
        assert(self@.entries =~= Seq::empty());
        assert(ids@ =~= to_join(old(self)@));
        ids
    }

    /// Applies a control event that arrived for session `session_id`, giving
    /// the sessions to signal and join.
    pub fn handle_external<C>(&mut self, session_id: u64, ev: ExternalEvent<C>) -> (r: Vec<u64>)
        requires
            old(self).wf(),
        ensures
            final(self).wf(),
            match ev {
                ExternalEvent::AppDetailReceived(d) => {
                    &&& r@.len() == 0
                    &&& final(self)@ == (ServerModel {
                        entries: with_app(old(self)@.entries, session_id, d.app_id@, d.safe_drive_access),
                        ..old(self)@
                    })
                },
                ExternalEvent::ChangeSafeDriveAccess(allowed) => {
                    &&& r@.len() == 0
                    &&& !is_live(old(self)@.entries, session_id) ==> final(self)@ == old(self)@
                    &&& forall|i: int| 0 <= i < old(self)@.entries.len() && #[trigger] old(self)@.entries[i].session_id == session_id
                        ==> final(self)@ == match old(self)@.entries[i].app {
                            Some(a) => ServerModel { entries: with_access(old(self)@.entries, a, allowed), ..old(self)@ },
                            None => old(self)@,
                        }
                },
                ExternalEvent::Terminate => {
                    &&& r@ == to_join(old(self)@)
                    &&& final(self)@ == shut_down(old(self)@)
                },
            },
    {
        match ev {
            ExternalEvent::AppDetailReceived(detail) => {
                let d = *detail;
                self.record_app(session_id, d.app_id, d.safe_drive_access);
                Vec::new()
            },
            ExternalEvent::ChangeSafeDriveAccess(allowed) => {
                match self.position(session_id) {
                    Some(i) => {
                        proof {
                            assert forall|j: int| 0 <= j < self@.entries.len() && #[trigger] self@.entries[j].session_id == session_id
                                implies j == i by {
                                if j < i {
                                    assert(self@.entries[j].session_id < self@.entries[i as int].session_id);
                                } else if j > i {
                                    assert(self@.entries[i as int].session_id < self@.entries[j].session_id);
                                }
                            }
                            assert(self@.entries[i as int].app == app_view(self.apps@[i as int]));
                        }
                        match &self.apps[i] {
                            Some(a) => {
                                let app = a.duplicate();
                                self.change_safe_drive_access(&app, allowed);
                            },
                            None => {},
                        }
                        Vec::new()
                    },
                    None => Vec::new(),
                }
            },
            ExternalEvent::Terminate => self.terminate(),
        }
    }

} // impl IpcServer

/// Terminating twice ends as terminating once, and the second time there is
/// nothing left to join.
pub proof fn lemma_terminate_idempotent(m: ServerModel)
    ensures
        shut_down(shut_down(m)) == shut_down(m),
        to_join(shut_down(m)).len() == 0,
{
    assert(shut_down(shut_down(m)) =~= shut_down(m));
}

/// Changing the drive access of app `x` leaves the capability of every
/// session of another app, and of every session without an app, as it was.
pub proof fn lemma_access_change_is_scoped(entries: Seq<EntryModel>, x: Seq<u8>, allowed: bool, i: int)
    requires
        0 <= i < entries.len(),
        entries[i].app != Some(x),
    ensures
        with_access(entries, x, allowed)[i] == entries[i],
        with_access(entries, x, allowed).len() == entries.len(),
{
}

} // verus!
