//! What the database is asked to do, and what its rows decide.

use vstd::prelude::*;
use vstd::string::*;

use crate::models::RefreshSession;

pub mod salts;

verus! {

/// Microseconds until a refresh session expires: 30 days.
pub const REFRESH_SESSION_MICROS: i64 = 2_592_000_000_000;

/// Another request is within the rate limit, where `count` were made in the window.
pub open spec fn is_within_limit(count: int, max_requests: int) -> bool {
    count < max_requests
}

/// Whether another request is within the rate limit, where `count` were made in the window. Only
/// then it is recorded.
pub fn check_rate_limit(count: i64, max_requests: i32) -> (r: bool)
    ensures
        r == is_within_limit(count as int, max_requests as int),
        r == (count < max_requests),
{
    count < max_requests as i64
}

/// How many of `n` requests in one window are recorded, where the window starts without any.
pub open spec fn recorded(n: nat, max_requests: int) -> nat
    decreases n,
{
    if n == 0 {
        0
    } else {
        let before = recorded((n - 1) as nat, max_requests);
        if is_within_limit(before as int, max_requests) {
            before + 1
        } else {
            before
        }
    }
}

/// Of the requests in one window the rate limiter lets through as many as the limit says, and all
/// where there are no more.
pub proof fn law_rate_limit(n: nat, max_requests: int)
    ensures
        recorded(n, max_requests) <= n,
        max_requests <= 0 ==> recorded(n, max_requests) == 0,
        0 <= max_requests <= n ==> recorded(n, max_requests) == max_requests,
        n <= max_requests ==> recorded(n, max_requests) == n,
    decreases n,
{
    if n > 0 {
        law_rate_limit((n - 1) as nat, max_requests);
    }
}

/// A refresh session that is to be stored.
#[derive(Debug, Clone)]
pub struct NewRefreshSession {
    pub user_identifier: String,
    pub wallet_address: String,
    pub provider: String,
    pub client_id: String,
    pub refresh_token_hash: String,
    pub expires_at: i64,
}

/// What is stored of a refresh session.
pub struct SessionRow {
    pub user_identifier: Seq<char>,
    pub wallet_address: Seq<char>,
    pub provider: Seq<char>,
    pub client_id: Seq<char>,
    pub refresh_token_hash: Seq<char>,
    pub expires_at: int,
}

impl View for NewRefreshSession {
    type V = SessionRow;

    open spec fn view(&self) -> SessionRow {
        SessionRow {
            user_identifier: self.user_identifier@,
            wallet_address: self.wallet_address@,
            provider: self.provider@,
            client_id: self.client_id@,
            refresh_token_hash: self.refresh_token_hash@,
            expires_at: self.expires_at as int,
        }
    }
}

impl View for RefreshSession {
    type V = SessionRow;

    open spec fn view(&self) -> SessionRow {
        SessionRow {
            user_identifier: self.user_identifier@,
            wallet_address: self.wallet_address@,
            provider: self.provider@,
            client_id: self.client_id@,
            refresh_token_hash: self.refresh_token_hash@,
            expires_at: self.expires_at as int,
        }
    }
}

/// A statement that changes the refresh sessions.
#[derive(Debug, Clone)]
pub enum SessionWrite {
    /// Deletes the session with an ID.
    Delete { id: u128 },
    /// Deletes the sessions with a token hash.
    DeleteByHash { refresh_token_hash: String },
    /// Deletes the sessions of a user.
    DeleteByUser { user_identifier: String },
    /// Records a token as revoked, unless it is recorded already.
    RecordRevoked { refresh_token_hash: String, user_identifier: String },
    /// Stores a session.
    Insert(NewRefreshSession),
}

/// What a statement that changes the refresh sessions says.
pub enum SessionWriteView {
    Delete(u128),
    DeleteByHash(Seq<char>),
    DeleteByUser(Seq<char>),
    RecordRevoked(Seq<char>, Seq<char>),
    Insert(SessionRow),
}

impl View for SessionWrite {
    type V = SessionWriteView;

    open spec fn view(&self) -> SessionWriteView {
        match self {
            SessionWrite::Delete { id } => SessionWriteView::Delete(*id),
            SessionWrite::DeleteByHash { refresh_token_hash } => SessionWriteView::DeleteByHash(
                refresh_token_hash@,
            ),
            SessionWrite::DeleteByUser { user_identifier } => SessionWriteView::DeleteByUser(
                user_identifier@,
            ),
            SessionWrite::RecordRevoked { refresh_token_hash, user_identifier } =>
                SessionWriteView::RecordRevoked(refresh_token_hash@, user_identifier@),
            SessionWrite::Insert(row) => SessionWriteView::Insert(row@),
        }
    }
}

/// What a list of statements says.
pub open spec fn write_views(writes: Seq<SessionWrite>) -> Seq<SessionWriteView> {
    writes.map_values(|w: SessionWrite| w@)
}

/// The statements that rotate a session: the old token is consumed and recorded as revoked, and a
/// session with the new token takes its place, with the same owner and the same absolute expiry.
pub open spec fn rotation(id: u128, session: SessionRow, old_hash: Seq<char>, new_hash: Seq<char>) -> Seq<
    SessionWriteView,
> {
    seq![
        SessionWriteView::Delete(id),
        SessionWriteView::RecordRevoked(old_hash, session.user_identifier),
        SessionWriteView::Insert(SessionRow { refresh_token_hash: new_hash, ..session }),
    ]
}

/// What a rotation gives for the session that is active under the old token's hash, if there is
/// one: that session, and the statements.
pub open spec fn rotation_of(
    found: Option<RefreshSession>,
    old_hash: Seq<char>,
    new_hash: Seq<char>,
) -> Option<(RefreshSession, Seq<SessionWriteView>)> {
    match found {
        Some(session) => Some((session, rotation(session.id, session@, old_hash, new_hash))),
        None => None,
    }
}

/// What a rotation gives.
pub open spec fn rotated_view(rotated: Option<(RefreshSession, Vec<SessionWrite>)>) -> Option<
    (RefreshSession, Seq<SessionWriteView>),
> {
    match rotated {
        Some((session, writes)) => Some((session, write_views(writes@))),
        None => None,
    }
}

/// Decides on the rotation of a refresh token, where `found` is the session that is active under
/// the old token's hash. The statements belong into one transaction.
pub fn rotate_refresh_session(
    found: Option<RefreshSession>,
    old_refresh_token_hash: &str,
    new_refresh_token_hash: &str,
) -> (r: Option<(RefreshSession, Vec<SessionWrite>)>)
    ensures
        rotated_view(r) == rotation_of(found, old_refresh_token_hash@, new_refresh_token_hash@),
        match found {
            None => r is None,
            Some(session) => r matches Some(rotated) && rotated.0 == session && write_views(
                rotated.1@,
            ) == rotation(
                session.id,
                session@,
                old_refresh_token_hash@,
                new_refresh_token_hash@,
            ),
        },
{
    let session = match found {
        Some(session) => session,
        None => return None,
    };
    let writes = vec![
        SessionWrite::Delete { id: session.id },
        SessionWrite::RecordRevoked {
            refresh_token_hash: old_refresh_token_hash.to_owned(),
            user_identifier: session.user_identifier.clone(),
        },
        SessionWrite::Insert(
            NewRefreshSession {
                user_identifier: session.user_identifier.clone(),
                wallet_address: session.wallet_address.clone(),
                provider: session.provider.clone(),
                client_id: session.client_id.clone(),
                refresh_token_hash: new_refresh_token_hash.to_owned(),
                expires_at: session.expires_at,
            },
        ),
    ];
    assert(write_views(writes@) =~= rotation(
        session.id,
        session@,
        old_refresh_token_hash@,
        new_refresh_token_hash@,
    ));
    Some((session, writes))
}

/// The statements that revoke a token of `owner`.
pub open spec fn revocation(hash: Seq<char>, owner: Seq<char>) -> Seq<SessionWriteView> {
    seq![SessionWriteView::DeleteByHash(hash), SessionWriteView::RecordRevoked(hash, owner)]
}

/// What a revocation gives for the owner of the session under a token's hash, if there is one: that
/// owner, and the statements.
pub open spec fn revocation_of(owner: Option<String>, hash: Seq<char>) -> Option<
    (Seq<char>, Seq<SessionWriteView>),
> {
    match owner {
        Some(user) => Some((user@, revocation(hash, user@))),
        None => None,
    }
}

/// What a revocation gives.
pub open spec fn revoked_view(revoked: Option<(String, Vec<SessionWrite>)>) -> Option<
    (Seq<char>, Seq<SessionWriteView>),
> {
    match revoked {
        Some((user, writes)) => Some((user@, write_views(writes@))),
        None => None,
    }
}

/// Decides on the revocation of a refresh token, where `owner` is whose session is stored under
/// its hash. A token without a session needs no statement.
pub fn revoke_refresh_session(owner: Option<String>, refresh_token_hash: &str) -> (r: Option<
    (String, Vec<SessionWrite>),
>)
    ensures
        revoked_view(r) == revocation_of(owner, refresh_token_hash@),
        match owner {
            None => r is None,
            Some(user) => r matches Some(revoked) && revoked.0 == user && write_views(revoked.1@)
                == revocation(refresh_token_hash@, user@),
        },
{
    let user = match owner {
        Some(user) => user,
        None => return None,
    };
    let writes = vec![
        SessionWrite::DeleteByHash { refresh_token_hash: refresh_token_hash.to_owned() },
        SessionWrite::RecordRevoked {
            refresh_token_hash: refresh_token_hash.to_owned(),
            user_identifier: user.clone(),
        },
    ];
    assert(write_views(writes@) =~= revocation(refresh_token_hash@, user@));
    Some((user, writes))
}

/// The tables of refresh sessions: the stored sessions by their ID, and the owners of revoked
/// tokens by the token's hash.
#[verifier::ext_equal]
pub struct SessionTables {
    pub sessions: Map<u128, SessionRow>,
    pub revoked: Map<Seq<char>, Seq<char>>,
}

impl SessionTables {
    /// The tables after a statement; a session that it stores gets the ID `new_id`.
    pub open spec fn after(self, write: SessionWriteView, new_id: u128) -> SessionTables {
        match write {
            SessionWriteView::Delete(id) => SessionTables {
                sessions: self.sessions.remove(id),
                ..self
            },
            SessionWriteView::DeleteByHash(hash) => SessionTables {
                sessions: self.sessions.restrict(
                    self.sessions.dom().filter(
                        |id: u128| self.sessions[id].refresh_token_hash != hash,
                    ),
                ),
                ..self
            },
            SessionWriteView::DeleteByUser(user) => SessionTables {
                sessions: self.sessions.restrict(
                    self.sessions.dom().filter(
                        |id: u128| self.sessions[id].user_identifier != user,
                    ),
                ),
                ..self
            },
            SessionWriteView::RecordRevoked(hash, owner) => SessionTables {
                revoked: if self.revoked.dom().contains(hash) {
                    self.revoked
                } else {
                    self.revoked.insert(hash, owner)
                },
                ..self
            },
            SessionWriteView::Insert(row) => SessionTables {
                sessions: self.sessions.insert(new_id, row),
                ..self
            },
        }
    }

    /// The tables after statements, of which at most one stores a session.
    pub open spec fn after_all(self, writes: Seq<SessionWriteView>, new_id: u128) -> SessionTables
        decreases writes.len(),
    {
        if writes.len() == 0 {
            self
        } else {
            self.after_all(writes.drop_last(), new_id).after(writes.last(), new_id)
        }
    }

    /// The tables after any statements, each with the ID that a session it stores gets.
    pub open spec fn after_history(self, history: Seq<(SessionWriteView, u128)>) -> SessionTables
        decreases history.len(),
    {
        if history.len() == 0 {
            self
        } else {
            let (write, new_id) = history.last();
            self.after_history(history.drop_last()).after(write, new_id)
        }
    }

    /// `id` is a session under a token hash that has not expired at `now`.
    pub open spec fn is_active(self, id: u128, hash: Seq<char>, now: int) -> bool {
        &&& self.sessions.dom().contains(id)
        &&& self.sessions[id].refresh_token_hash == hash
        &&& self.sessions[id].expires_at > now
    }

    /// `owner` is what a query for the owner of the sessions under a hash may find.
    pub open spec fn finds_owner(self, hash: Seq<char>, owner: Option<Seq<char>>) -> bool {
        match owner {
            Some(user) => exists|id: u128| #[trigger]
                self.sessions.dom().contains(id) && self.sessions[id].refresh_token_hash == hash
                    && self.sessions[id].user_identifier == user,
            None => forall|id: u128| #[trigger]
                self.sessions.dom().contains(id) ==> self.sessions[id].refresh_token_hash != hash,
        }
    }

    /// The tables after a revocation that found `owner`.
    pub open spec fn after_revocation(self, hash: Seq<char>, owner: Option<Seq<char>>) -> SessionTables {
        match owner {
            Some(user) => self.after_all(revocation(hash, user), 0),
            None => self,
        }
    }
}

/// A rotation replaces the session by one with the new token that keeps the owner, the client and
/// the absolute expiry; the old token is then recorded as revoked, and no other row changes.
pub proof fn law_rotation(
    tables: SessionTables,
    id: u128,
    old_hash: Seq<char>,
    new_hash: Seq<char>,
    now: int,
    new_id: u128,
)
    requires
        tables.is_active(id, old_hash, now),
        !tables.sessions.dom().contains(new_id),
    ensures
        ({
            let session = tables.sessions[id];
            let after = tables.after_all(rotation(id, session, old_hash, new_hash), new_id);
            &&& after.sessions == tables.sessions.remove(id).insert(
                new_id,
                SessionRow { refresh_token_hash: new_hash, ..session },
            )
            &&& after.is_active(new_id, new_hash, now)
            &&& !after.sessions.dom().contains(id)
            &&& after.revoked.dom().contains(old_hash)
            &&& !tables.revoked.dom().contains(old_hash) ==> after.revoked == tables.revoked.insert(
                old_hash,
                session.user_identifier,
            )
            &&& tables.revoked.dom().contains(old_hash) ==> after.revoked == tables.revoked
        }),
{
    let session = tables.sessions[id];
    let writes = rotation(id, session, old_hash, new_hash);
    reveal_with_fuel(SessionTables::after_all, 4);
    assert(writes.drop_last().drop_last().drop_last() =~= Seq::empty());
}

/// A refresh token can be used once: where its hash belongs to one session, nothing is active
/// under it after the rotation.
pub proof fn law_rotated_token_is_consumed(
    tables: SessionTables,
    id: u128,
    old_hash: Seq<char>,
    new_hash: Seq<char>,
    now: int,
    new_id: u128,
    other: u128,
)
    requires
        tables.is_active(id, old_hash, now),
        !tables.sessions.dom().contains(new_id),
        old_hash != new_hash,
        forall|k: u128| #[trigger]
            tables.sessions.dom().contains(k) && tables.sessions[k].refresh_token_hash == old_hash
                ==> k == id,
    ensures
        !tables.after_all(
            rotation(id, tables.sessions[id], old_hash, new_hash),
            new_id,
        ).is_active(other, old_hash, now),
{
    law_rotation(tables, id, old_hash, new_hash, now, new_id);
}

/// A token that is recorded as revoked stays recorded, with the same owner, whatever happens.
pub proof fn law_revoked_token_stays_recorded(
    tables: SessionTables,
    history: Seq<(SessionWriteView, u128)>,
    hash: Seq<char>,
)
    requires
        tables.revoked.dom().contains(hash),
    ensures
        tables.after_history(history).revoked.dom().contains(hash),
        tables.after_history(history).revoked[hash] == tables.revoked[hash],
    decreases history.len(),
{
    if history.len() > 0 {
        law_revoked_token_stays_recorded(tables, history.drop_last(), hash);
    }
}

/// Deleting the sessions of a user leaves none of that user and all of the others.
pub proof fn law_family_is_deleted(tables: SessionTables, user: Seq<char>, id: u128)
    ensures
        ({
            let after = tables.after(SessionWriteView::DeleteByUser(user), 0);
            &&& after.sessions.dom().contains(id) <==> tables.sessions.dom().contains(id)
                && tables.sessions[id].user_identifier != user
            &&& after.sessions.dom().contains(id) ==> after.sessions[id] == tables.sessions[id]
            &&& after.revoked == tables.revoked
        }),
{
}

/// A revocation leaves no session under the token's hash and records the token as revoked.
pub proof fn law_revocation(tables: SessionTables, hash: Seq<char>, user: Seq<char>, id: u128)
    ensures
        ({
            let after = tables.after_revocation(hash, Some(user));
            &&& after.sessions.dom().contains(id) <==> tables.sessions.dom().contains(id)
                && tables.sessions[id].refresh_token_hash != hash
            &&& after.sessions.dom().contains(id) ==> after.sessions[id] == tables.sessions[id]
            &&& after.revoked.dom().contains(hash)
            &&& !tables.revoked.dom().contains(hash) ==> after.revoked == tables.revoked.insert(
                hash,
                user,
            )
            &&& tables.revoked.dom().contains(hash) ==> after.revoked == tables.revoked
        }),
{
    reveal_with_fuel(SessionTables::after_all, 3);
    assert(revocation(hash, user).drop_last().drop_last() =~= Seq::empty());
}

/// Revoking a token a second time finds no session and changes nothing.
pub proof fn law_revocation_is_idempotent(
    tables: SessionTables,
    hash: Seq<char>,
    first: Option<Seq<char>>,
    second: Option<Seq<char>>,
)
    requires
        tables.finds_owner(hash, first),
        tables.after_revocation(hash, first).finds_owner(hash, second),
    ensures
        second is None,
        tables.after_revocation(hash, first).after_revocation(hash, second)
            == tables.after_revocation(hash, first),
{
    if first is Some && second is Some {
        let after = tables.after_revocation(hash, first);
        let id = choose|id: u128| #[trigger]
            after.sessions.dom().contains(id) && after.sessions[id].refresh_token_hash == hash
                && after.sessions[id].user_identifier == second->0;
        law_revocation(tables, hash, first->0, id);
    }
}

/// A rotation takes an active session and gives that very session, and it changes the tables as
/// follows: the session's row gives way to one that differs from it in the token alone, the old
/// token is recorded as the owner's, and every other row stays.
pub proof fn law_rotation_of_found_session(
    tables: SessionTables,
    found: Option<RefreshSession>,
    old_hash: Seq<char>,
    new_hash: Seq<char>,
    new_id: u128,
    other: u128,
)
    requires
        found matches Some(session) ==> tables.sessions.dom().contains(session.id)
            && tables.sessions[session.id] == session@,
        !tables.sessions.dom().contains(new_id),
    ensures
        rotation_of(found, old_hash, new_hash) is Some <==> found is Some,
        rotation_of(found, old_hash, new_hash) matches Some((session, writes)) ==> {
            let after = tables.after_all(writes, new_id);
            &&& Some(session) == found
            &&& !after.sessions.dom().contains(session.id)
            &&& after.sessions.dom().contains(new_id)
            &&& after.sessions[new_id].user_identifier == session.user_identifier@
            &&& after.sessions[new_id].wallet_address == session.wallet_address@
            &&& after.sessions[new_id].provider == session.provider@
            &&& after.sessions[new_id].client_id == session.client_id@
            &&& after.sessions[new_id].expires_at == session.expires_at
            &&& after.sessions[new_id].refresh_token_hash == new_hash
            &&& other != session.id && other != new_id ==> (after.sessions.dom().contains(other)
                <==> tables.sessions.dom().contains(other))
            &&& other != session.id && other != new_id ==> after.sessions[other]
                == tables.sessions[other]
            &&& after.revoked.dom().contains(old_hash)
            &&& !tables.revoked.dom().contains(old_hash) ==> after.revoked[old_hash]
                == session.user_identifier@
        },
{
    if found is Some {
        let session = found->0;
        let writes = rotation(session.id, session@, old_hash, new_hash);
        reveal_with_fuel(SessionTables::after_all, 4);
        assert(writes.drop_last().drop_last().drop_last() =~= Seq::empty());
    }
}

/// A revocation needs a session under the token's hash, names its owner, and then leaves none.
pub proof fn law_revocation_of_found_owner(
    tables: SessionTables,
    owner: Option<String>,
    hash: Seq<char>,
    id: u128,
)
    ensures
        revocation_of(owner, hash) is Some <==> owner is Some,
        revocation_of(owner, hash) matches Some((user, writes)) ==> {
            let after = tables.after_all(writes, 0);
            &&& user == owner->0@
            &&& after.sessions.dom().contains(id) <==> tables.sessions.dom().contains(id)
                && tables.sessions[id].refresh_token_hash != hash
            &&& after.sessions.dom().contains(id) ==> after.sessions[id] == tables.sessions[id]
            &&& after.revoked.dom().contains(hash)
            &&& !tables.revoked.dom().contains(hash) ==> after.revoked[hash] == owner->0@
        },
{
    if owner is Some {
        law_revocation(tables, hash, owner->0@, id);
        assert(tables.after_revocation(hash, Some(owner->0@)) == tables.after_all(
            revocation(hash, owner->0@),
            0,
        ));
    }
}

/// One request more never helps another one, and a higher limit never hurts one.
pub proof fn law_limit_is_monotone(count: int, max_requests: int, fewer: int, higher: int)
    requires
        is_within_limit(count, max_requests),
        fewer <= count,
        max_requests <= higher,
    ensures
        is_within_limit(fewer, higher),
        !is_within_limit(max_requests, max_requests),
        is_within_limit(max_requests - 1, max_requests),
{
}

/// Statements say what they are, each in its place: what they delete, record and store, and of a
/// row every field under its own name.
pub proof fn law_statements_say_what_they_do(
    writes: Seq<SessionWrite>,
    i: int,
    id: u128,
    hash: String,
    user: String,
    row: NewRefreshSession,
    session: RefreshSession,
)
    ensures
        write_views(writes).len() == writes.len(),
        0 <= i < writes.len() ==> write_views(writes)[i] == writes[i]@,
        (SessionWrite::Delete { id })@ == SessionWriteView::Delete(id),
        (SessionWrite::DeleteByHash { refresh_token_hash: hash })@
            == SessionWriteView::DeleteByHash(hash@),
        (SessionWrite::DeleteByUser { user_identifier: user })@ == SessionWriteView::DeleteByUser(
            user@,
        ),
        (SessionWrite::RecordRevoked { refresh_token_hash: hash, user_identifier: user })@
            == SessionWriteView::RecordRevoked(hash@, user@),
        SessionWrite::Insert(row)@ == SessionWriteView::Insert(row@),
        row@.user_identifier == row.user_identifier@,
        row@.wallet_address == row.wallet_address@,
        row@.provider == row.provider@,
        row@.client_id == row.client_id@,
        row@.refresh_token_hash == row.refresh_token_hash@,
        row@.expires_at == row.expires_at,
        session@.user_identifier == session.user_identifier@,
        session@.wallet_address == session.wallet_address@,
        session@.provider == session.provider@,
        session@.client_id == session.client_id@,
        session@.refresh_token_hash == session.refresh_token_hash@,
        session@.expires_at == session.expires_at,
{
}

} // verus!
