//! The server-session handle model.
//!
//! A native session is owned by the engine, which counts its own references
//! to it; application code holds handles whose shared state is counted
//! separately. The two domains interact by one rule: constructing a handle
//! increments the engine-side count by exactly one, and releasing it
//! decrements it by exactly one, so the native session outlives every
//! handle. The engine finds the application-side state again through a
//! back-reference slot in the native session; the slot is an index into a
//! side table rather than an address, is installed exactly once, and is
//! torn down only when the last strong reference to the shared state goes.

use vstd::prelude::*;

use crate::error::SessionLifetimeError;

verus! {

/// Kind of a native session, as the engine reports it.
#[derive(Clone, Copy, Debug, PartialEq, Eq, Structural)]
pub enum CoapSessionKind {
    /// The session has no type yet.
    Unset,
    /// A client-side session; no server handle may be built on it.
    Client,
    /// An established server-side session.
    Server,
    /// A transitional server-side session during connection establishment.
    Hello,
}

/// One native session, as this model sees it: its kind, the engine-side
/// reference count, the back-reference slot, and the identity the engine
/// reports for it (interface index and address pair).
#[derive(Clone, Copy, Debug)]
#[verifier::ext_equal]
pub struct NativeSession {
    pub kind: CoapSessionKind,
    pub ref_count: u64,
    pub app_data: Option<usize>,
    pub if_index: u32,
    pub addr_local: u64,
    pub addr_remote: u64,
}

/// The application-side shared state of one server-session handle: its
/// strong count and the native session it wraps.
#[derive(Clone, Copy, Debug)]
#[verifier::ext_equal]
pub struct SessionShare {
    pub strong: u64,
    pub session: usize,
}

/// The two counting domains side by side: the engine's sessions and the
/// application-side shared states. A share whose strong count fell to zero
/// stays as a tombstone; its slot is never reused.
pub struct SessionTable {
    pub sessions: Vec<NativeSession>,
    pub shares: Vec<SessionShare>,
}

/// A handle on a server-side session: an index into the shared states and
/// the native session it was built on.
#[derive(Clone, Copy, Debug)]
pub struct CoapServerSession {
    share: usize,
    session: usize,
}

impl CoapServerSession {
    /// The shared state this handle counts on.
    pub closed spec fn spec_share(self) -> int {
        self.share as int
    }

    /// The native session this handle was built on.
    pub closed spec fn spec_session(self) -> int {
        self.session as int
    }
}

/// Well-formedness of the table: every live share wraps an existing native
/// session whose back-reference slot names that share, and every installed
/// back-reference names a live share that points back at its session.
pub open spec fn wf(t: SessionTable) -> bool {
    &&& forall|i: int|
        0 <= i < t.shares@.len() && (#[trigger] t.shares@[i]).strong > 0 ==> t.shares@[i].session
            < t.sessions@.len() && t.sessions@[t.shares@[i].session as int].app_data == Some(
            i as usize,
        )
    &&& forall|s: int|
        0 <= s < t.sessions@.len() && (#[trigger] t.sessions@[s]).app_data is Some ==> {
            let i = t.sessions@[s].app_data.unwrap() as int;
            &&& i < t.shares@.len()
            &&& t.shares@[i].strong > 0
            &&& t.shares@[i].session == s
        }
}

/// A handle that counts: it names a live share that wraps the handle's own
/// session.
pub open spec fn valid_handle(t: SessionTable, h: CoapServerSession) -> bool {
    &&& 0 <= h.spec_share() < t.shares@.len()
    &&& t.shares@[h.spec_share()].strong > 0
    &&& t.shares@[h.spec_share()].session == h.spec_session()
}

/// The state transition of a first-time handle construction: a fresh share
/// with one strong reference, the back-reference installed, and the
/// engine-side count up by one.
pub open spec fn initialize_ok(
    pre: SessionTable,
    post: SessionTable,
    sid: int,
    h: CoapServerSession,
) -> bool {
    &&& h.spec_session() == sid
    &&& h.spec_share() == pre.shares@.len()
    &&& post.shares@ == pre.shares@.push(SessionShare { strong: 1, session: sid as usize })
    &&& post.sessions@ == pre.sessions@.update(
        sid,
        NativeSession {
            app_data: Some(pre.shares@.len() as usize),
            ref_count: (pre.sessions@[sid].ref_count + 1) as u64,
            ..pre.sessions@[sid]
        },
    )
}

/// The state transition of re-attaching to an initialized session: the
/// named share gains one strong reference and the engine-side count goes
/// up by one.
pub open spec fn recover_ok(
    pre: SessionTable,
    post: SessionTable,
    sid: int,
    h: CoapServerSession,
) -> bool {
    &&& h.spec_session() == sid
    &&& pre.sessions@[sid].app_data == Some(h.spec_share() as usize)
    &&& post.shares@ == pre.shares@.update(
        h.spec_share(),
        SessionShare {
            strong: (pre.shares@[h.spec_share()].strong + 1) as u64,
            ..pre.shares@[h.spec_share()]
        },
    )
    &&& post.sessions@ == pre.sessions@.update(
        sid,
        NativeSession {
            ref_count: (pre.sessions@[sid].ref_count + 1) as u64,
            ..pre.sessions@[sid]
        },
    )
}

/// The state transition of releasing a handle: its share loses one strong
/// reference, the engine-side count goes down by one, and when the last
/// strong reference went, the back-reference slot is torn down.
pub open spec fn release_ok(pre: SessionTable, post: SessionTable, h: CoapServerSession) -> bool {
    let sid = h.spec_session();
    let sh = h.spec_share();
    let remaining = (pre.shares@[sh].strong - 1) as u64;
    &&& post.shares@ == pre.shares@.update(
        sh,
        SessionShare { strong: remaining, ..pre.shares@[sh] },
    )
    &&& post.sessions@ == pre.sessions@.update(
        sid,
        NativeSession {
            ref_count: (pre.sessions@[sid].ref_count - 1) as u64,
            app_data: if remaining == 0 {
                None
            } else {
                pre.sessions@[sid].app_data
            },
            ..pre.sessions@[sid]
        },
    )
}

/// Whether a session's kind admits a server-side handle.
pub open spec fn server_kind(k: CoapSessionKind) -> bool {
    k == CoapSessionKind::Server || k == CoapSessionKind::Hello
}

impl CoapServerSession {
    /// First-time creation of a handle on a native session. The session
    /// must be of a server-compatible kind and must not carry a
    /// back-reference yet; a violation is a broken lifetime contract,
    /// reported as a fatal error and changing nothing. On success the
    /// back-reference is installed and the engine-side count rises by one,
    /// so the engine cannot free the session while the handle lives.
    pub fn initialize(table: &mut SessionTable, sid: usize) -> (r: Result<
        CoapServerSession,
        SessionLifetimeError,
    >)
        requires
            wf(*old(table)),
            sid < old(table).sessions@.len(),
            old(table).sessions@[sid as int].ref_count < u64::MAX,
            old(table).shares@.len() < usize::MAX,
        ensures
            wf(*final(table)),
            (match r {
                Ok(h) => server_kind(old(table).sessions@[sid as int].kind) && old(
                    table,
                ).sessions@[sid as int].app_data is None && initialize_ok(
                    *old(table),
                    *final(table),
                    sid as int,
                    h,
                ) && valid_handle(*final(table), h),
                Err(e) => *final(table) == *old(table) && (match e {
                    SessionLifetimeError::WrongSessionType => !server_kind(
                        old(table).sessions@[sid as int].kind,
                    ),
                    SessionLifetimeError::BackReferenceAlreadyInstalled => server_kind(
                        old(table).sessions@[sid as int].kind,
                    ) && old(table).sessions@[sid as int].app_data is Some,
                    SessionLifetimeError::MissingBackReference => false,
                }),
            }),
    {
        let sess = table.sessions[sid];
        match sess.kind {
            CoapSessionKind::Unset | CoapSessionKind::Client => {
                return Err(SessionLifetimeError::WrongSessionType);
            },
            CoapSessionKind::Server | CoapSessionKind::Hello => {},
        }
        if sess.app_data.is_some() {
            return Err(SessionLifetimeError::BackReferenceAlreadyInstalled);
        }
        let share = table.shares.len();
        table.shares.push(SessionShare { strong: 1, session: sid });
        table.sessions[sid].app_data = Some(share);
        table.sessions[sid].ref_count = table.sessions[sid].ref_count + 1;
        let h = CoapServerSession { share, session: sid };
        proof {
            assert(table.shares@ =~~= old(table).shares@.push(
                SessionShare { strong: 1, session: sid },
            ));
            assert(table.sessions@ =~~= old(table).sessions@.update(
                sid as int,
                NativeSession {
                    app_data: Some(old(table).shares@.len() as usize),
                    ref_count: (old(table).sessions@[sid as int].ref_count + 1) as u64,
                    ..old(table).sessions@[sid as int]
                },
            ));
            assert forall|i: int|
                0 <= i < table.shares@.len() && (#[trigger] table.shares@[i]).strong > 0 implies
                table.shares@[i].session < table.sessions@.len()
                    && table.sessions@[table.shares@[i].session as int].app_data == Some(
                    i as usize,
                ) by {
                if i < old(table).shares@.len() {
                    assert(old(table).shares@[i].strong > 0);
                }
            }
        }
        Ok(h)
    }

    /// Re-attaches a handle to an already-initialized native session by
    /// reading its back-reference slot. The session must be of a
    /// server-compatible kind and the slot must be filled; a missing slot
    /// is a broken lifetime contract, reported as a fatal error rather
    /// than fabricating a handle. On success both the strong count of the
    /// shared state and the engine-side count rise by one.
    pub fn recover(table: &mut SessionTable, sid: usize) -> (r: Result<
        CoapServerSession,
        SessionLifetimeError,
    >)
        requires
            wf(*old(table)),
            sid < old(table).sessions@.len(),
            old(table).sessions@[sid as int].ref_count < u64::MAX,
            (old(table).sessions@[sid as int].app_data matches Some(i) ==> old(
                table,
            ).shares@[i as int].strong < u64::MAX),
        ensures
            wf(*final(table)),
            (match r {
                Ok(h) => server_kind(old(table).sessions@[sid as int].kind) && recover_ok(
                    *old(table),
                    *final(table),
                    sid as int,
                    h,
                ) && valid_handle(*final(table), h),
                Err(e) => *final(table) == *old(table) && (match e {
                    SessionLifetimeError::WrongSessionType => !server_kind(
                        old(table).sessions@[sid as int].kind,
                    ),
                    SessionLifetimeError::MissingBackReference => server_kind(
                        old(table).sessions@[sid as int].kind,
                    ) && old(table).sessions@[sid as int].app_data is None,
                    SessionLifetimeError::BackReferenceAlreadyInstalled => false,
                }),
            }),
    {
        let sess = table.sessions[sid];
        match sess.kind {
            CoapSessionKind::Unset | CoapSessionKind::Client => {
                return Err(SessionLifetimeError::WrongSessionType);
            },
            CoapSessionKind::Server | CoapSessionKind::Hello => {},
        }
        let share = match sess.app_data {
            Some(i) => i,
            None => {
                return Err(SessionLifetimeError::MissingBackReference);
            },
        };
        table.shares[share].strong = table.shares[share].strong + 1;
        table.sessions[sid].ref_count = table.sessions[sid].ref_count + 1;
        let h = CoapServerSession { share, session: sid };
        proof {
            assert(table.shares@ =~~= old(table).shares@.update(
                share as int,
                SessionShare {
                    strong: (old(table).shares@[share as int].strong + 1) as u64,
                    ..old(table).shares@[share as int]
                },
            ));
            assert(table.sessions@ =~~= old(table).sessions@.update(
                sid as int,
                NativeSession {
                    ref_count: (old(table).sessions@[sid as int].ref_count + 1) as u64,
                    ..old(table).sessions@[sid as int]
                },
            ));
            assert forall|i: int|
                0 <= i < table.shares@.len() && (#[trigger] table.shares@[i]).strong > 0 implies
                table.shares@[i].session < table.sessions@.len()
                    && table.sessions@[table.shares@[i].session as int].app_data == Some(
                    i as usize,
                ) by {
                assert(old(table).shares@[i].strong > 0);
            }
        }
        Ok(h)
    }

    /// Releases this handle: the engine-side count drops by one, and when
    /// the handle's share loses its last strong reference, the
    /// back-reference slot is torn down. Well-formedness guarantees the
    /// slot is still installed at that moment; a missing slot there would
    /// be a lifetime bug, and no such state is reachable.
    pub fn release(self, table: &mut SessionTable)
        requires
            wf(*old(table)),
            valid_handle(*old(table), self),
            old(table).sessions@[self.spec_session()].ref_count >= 1,
        ensures
            wf(*final(table)),
            release_ok(*old(table), *final(table), self),
    {
        let share = self.share;
        let sid = self.session;
        let remaining = table.shares[share].strong - 1;
        table.shares[share].strong = remaining;
        table.sessions[sid].ref_count = table.sessions[sid].ref_count - 1;
        if remaining == 0 {
            table.sessions[sid].app_data = None;
        }
        proof {
            assert(table.shares@ =~~= old(table).shares@.update(
                share as int,
                SessionShare { strong: remaining, ..old(table).shares@[share as int] },
            ));
            assert(table.sessions@ =~~= old(table).sessions@.update(
                sid as int,
                NativeSession {
                    ref_count: (old(table).sessions@[sid as int].ref_count - 1) as u64,
                    app_data: if remaining == 0 {
                        None
                    } else {
                        old(table).sessions@[sid as int].app_data
                    },
                    ..old(table).sessions@[sid as int]
                },
            ));
            assert forall|i: int|
                0 <= i < table.shares@.len() && (#[trigger] table.shares@[i]).strong > 0 implies
                table.shares@[i].session < table.sessions@.len()
                    && table.sessions@[table.shares@[i].session as int].app_data == Some(
                    i as usize,
                ) by {
                assert(old(table).shares@[i].strong > 0);
                if table.shares@[i].session == sid {
                    assert(old(table).shares@[share as int].strong > 0);
                    assert(old(table).sessions@[sid as int].app_data == Some(i as usize));
                    assert(old(table).sessions@[sid as int].app_data == Some(share));
                    assert(i as usize == share);
                    vstd::std_specs::vec::axiom_spec_len(&old(table).shares);
                    assert(i == share as int);
                }
            }
            assert forall|s: int|
                0 <= s < table.sessions@.len() && (#[trigger] table.sessions@[s]).app_data
                    is Some implies {
                let i = table.sessions@[s].app_data.unwrap() as int;
                &&& i < table.shares@.len()
                &&& table.shares@[i].strong > 0
                &&& table.shares@[i].session == s
            } by {
                assert(old(table).sessions@[s].app_data is Some);
                let i = old(table).sessions@[s].app_data.unwrap() as int;
                if s != sid as int {
                    assert(old(table).shares@[i].session == s);
                    assert(i != share as int);
                }
            }
        }
    }

    /// Whether two handles name the same peer: the same underlying network
    /// interface index, the same native session identity, and the same
    /// local and remote addresses.
    pub fn handle_eq(&self, other: &CoapServerSession, table: &SessionTable) -> (r: bool)
        requires
            wf(*table),
            valid_handle(*table, *self),
            valid_handle(*table, *other),
        ensures
            r == {
                let a = table.sessions@[self.spec_session()];
                let b = table.sessions@[other.spec_session()];
                &&& a.if_index == b.if_index
                &&& self.spec_session() == other.spec_session()
                &&& a.addr_local == b.addr_local
                &&& a.addr_remote == b.addr_remote
            },
    {
        let a = table.sessions[self.session];
        let b = table.sessions[other.session];
        a.if_index == b.if_index && self.session == other.session && a.addr_local == b.addr_local
            && a.addr_remote == b.addr_remote
    }
}

/// Handle lifetime: constructing a handle on a session and then releasing
/// it returns the engine-side reference count of that session to its prior
/// value and leaves the back-reference slot cleared; the session itself is
/// otherwise as it was.
pub proof fn lemma_handle_lifetime(
    t0: SessionTable,
    t1: SessionTable,
    t2: SessionTable,
    sid: int,
    h: CoapServerSession,
)
    requires
        wf(t0),
        0 <= sid < t0.sessions@.len(),
        t0.sessions@[sid].ref_count < u64::MAX,
        initialize_ok(t0, t1, sid, h),
        release_ok(t1, t2, h),
    ensures
        t2.sessions@[sid].ref_count == t0.sessions@[sid].ref_count,
        t2.sessions@[sid].app_data is None,
        t2.sessions@[sid].kind == t0.sessions@[sid].kind,
        t2.sessions@[sid].if_index == t0.sessions@[sid].if_index,
        t2.sessions@[sid].addr_local == t0.sessions@[sid].addr_local,
        t2.sessions@[sid].addr_remote == t0.sessions@[sid].addr_remote,
{
}

} // verus!
