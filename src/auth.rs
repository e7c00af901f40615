use vstd::prelude::*;
use crate::error::{OnyxError, StoreError};
use crate::store::{spec_tolerate_missing, tolerate_missing, KeyringAuthStore};

verus! {

/// Where the credentials of a session are kept.
#[derive(Debug, Clone, Copy, PartialEq, Eq, Structural)]
pub enum StoreMethod {
    /// The operating system's secret store.
    Keyring,
    /// A single local file.
    File,
}

/// How a session was obtained.
#[derive(Debug, Clone, Copy, PartialEq, Eq, Structural)]
pub enum AuthMethod {
    /// Delegated authorization in the browser.
    OAuth,
    /// Direct exchange of an identifier and an app password.
    AppPassword,
}

/// The four concrete session kinds: one per pair of authentication and
/// storage method.
#[derive(Debug, Clone, Copy, PartialEq, Eq, Structural)]
pub enum SessionKind {
    KeyringOAuth,
    FileOAuth,
    KeyringPassword,
    FilePassword,
}

impl SessionKind {
    pub open spec fn spec_of(auth: AuthMethod, store: StoreMethod) -> SessionKind {
        match (auth, store) {
            (AuthMethod::OAuth, StoreMethod::Keyring) => SessionKind::KeyringOAuth,
            (AuthMethod::OAuth, StoreMethod::File) => SessionKind::FileOAuth,
            (AuthMethod::AppPassword, StoreMethod::Keyring) => SessionKind::KeyringPassword,
            (AuthMethod::AppPassword, StoreMethod::File) => SessionKind::FilePassword,
        }
    }

    /// The session kind that restores a session made with `auth` and kept in `store`.
    pub fn of(auth: AuthMethod, store: StoreMethod) -> (r: SessionKind)
        ensures
            r == Self::spec_of(auth, store),
    {
        match (auth, store) {
            (AuthMethod::OAuth, StoreMethod::Keyring) => SessionKind::KeyringOAuth,
            (AuthMethod::OAuth, StoreMethod::File) => SessionKind::FileOAuth,
            (AuthMethod::AppPassword, StoreMethod::Keyring) => SessionKind::KeyringPassword,
            (AuthMethod::AppPassword, StoreMethod::File) => SessionKind::FilePassword,
        }
    }

    /// The authentication method of this kind.
    pub fn auth_method(&self) -> (r: AuthMethod)
        ensures
            Self::spec_of(r, self.spec_store()) == *self,
            r == self.spec_auth(),
    {
        match self {
            SessionKind::KeyringOAuth | SessionKind::FileOAuth => AuthMethod::OAuth,
            SessionKind::KeyringPassword | SessionKind::FilePassword => AuthMethod::AppPassword,
        }
    }

    /// The storage method of this kind.
    pub fn store_method(&self) -> (r: StoreMethod)
        ensures
            r == self.spec_store(),
    {
        match self {
            SessionKind::KeyringOAuth | SessionKind::KeyringPassword => StoreMethod::Keyring,
            SessionKind::FileOAuth | SessionKind::FilePassword => StoreMethod::File,
        }
    }

    /// What a failed token refresh is reported with.
    pub open spec fn refresh_context(&self) -> Seq<char> {
        if self.spec_auth() == AuthMethod::OAuth {
            "OAuth token refresh failed: "@
        } else {
            "App password token refresh failed: "@
        }
    }

    pub open spec fn spec_auth(&self) -> AuthMethod {
        match self {
            SessionKind::KeyringOAuth | SessionKind::FileOAuth => AuthMethod::OAuth,
            SessionKind::KeyringPassword | SessionKind::FilePassword => AuthMethod::AppPassword,
        }
    }

    /// A failed token refresh: an authentication error, so that the user is
    /// sent to log in again rather than to retry.
    pub fn refresh_failure(&self, cause: &str) -> (r: OnyxError)
        ensures
            r matches OnyxError::Auth(m) && m@ == self.refresh_context() + cause@,
            r.spec_kind() == crate::error::ErrorKind::Auth,
    {
        let context = match self.auth_method() {
            AuthMethod::OAuth => "OAuth token refresh failed: ",
            AuthMethod::AppPassword => "App password token refresh failed: ",
        };
        let mut cs = crate::text::chars_of(context);
        let mut rest = crate::text::chars_of(cause);
        cs.append(&mut rest);
        OnyxError::Auth(crate::text::string_of(&cs))
    }

    /// A failed request: a transport error, which logging in again does not
    /// mend.
    pub fn transport_failure(cause: &str) -> (r: OnyxError)
        ensures
            r matches OnyxError::ClientError(m) && m@ == cause@,
            r.spec_kind() != crate::error::ErrorKind::Auth,
    {
        OnyxError::ClientError(cause.to_string())
    }

    pub open spec fn spec_store(&self) -> StoreMethod {
        match self {
            SessionKind::KeyringOAuth | SessionKind::KeyringPassword => StoreMethod::Keyring,
            SessionKind::FileOAuth | SessionKind::FilePassword => StoreMethod::File,
        }
    }
}

/// The session pointer: which identity, session, store and method are
/// current.
#[derive(Debug)]
pub struct AuthSession {
    pub did: String,
    pub session_id: String,
    pub store: StoreMethod,
    pub auth: AuthMethod,
}

/// What a session pointer holds.
pub struct SessionModel {
    pub did: Seq<char>,
    pub session_id: Seq<char>,
    pub store: StoreMethod,
    pub auth: AuthMethod,
}

impl View for AuthSession {
    type V = SessionModel;

    open spec fn view(&self) -> SessionModel {
        SessionModel {
            did: self.did@,
            session_id: self.session_id@,
            store: self.store,
            auth: self.auth,
        }
    }
}

impl AuthSession {
    /// A copy of the pointer.
    pub fn copy(&self) -> (r: AuthSession)
        ensures
            r@ == self@,
    {
        AuthSession {
            did: self.did.clone(),
            session_id: self.session_id.clone(),
            store: self.store,
            auth: self.auth,
        }
    }
}

pub open spec fn pointer_view(p: Option<AuthSession>) -> Option<SessionModel> {
    match p {
        Some(s) => Some(s@),
        None => None,
    }
}

/// The stored session pointer, as read from its file when the program
/// starts; at most one exists.
#[derive(Debug)]
pub struct AuthSessionStore {
    pub session: Option<AuthSession>,
}

impl AuthSessionStore {
    pub open spec fn spec_session(&self) -> Option<SessionModel> {
        pointer_view(self.session)
    }

    /// The store as found: with the pointer that was read, or none.
    pub fn new(stored: Option<AuthSession>) -> (r: Self)
        ensures
            r.spec_session() == pointer_view(stored),
    {
        AuthSessionStore { session: stored }
    }

    pub fn get_session(&self) -> (r: Option<AuthSession>)
        ensures
            pointer_view(r) == self.spec_session(),
    {
        match &self.session {
            Some(s) => Some(s.copy()),
            None => None,
        }
    }

    /// Overwrites the pointer.
    pub fn set_session(&mut self, session: AuthSession)
        ensures
            final(self).spec_session() == Some(session@),
    {
        self.session = Some(session);
    }

    /// Removes the pointer; removing an absent one is no error.
    pub fn delete_session(&mut self)
        ensures
            final(self).spec_session() is None,
    {
        self.session = None;
    }
}

/// The session id under which password sessions are filed.
pub open spec fn password_session_id() -> Seq<char> {
    seq!['s', 'e', 's', 's', 'i', 'o', 'n']
}

/// A login as the caller asked for it: with a password the credentials are
/// exchanged directly, without one the delegated flow is used.
#[derive(Debug)]
pub struct LoginRequest {
    pub ident: String,
    pub store: StoreMethod,
    pub password: Option<String>,
}

impl LoginRequest {
    pub open spec fn spec_method(&self) -> AuthMethod {
        if self.password is Some {
            AuthMethod::AppPassword
        } else {
            AuthMethod::OAuth
        }
    }

    pub fn method(&self) -> (r: AuthMethod)
        ensures
            r == self.spec_method(),
    {
        match &self.password {
            Some(_) => AuthMethod::AppPassword,
            None => AuthMethod::OAuth,
        }
    }

    /// The session id that a password login asks for.
    pub fn password_session_id() -> (r: String)
        ensures
            r@ == password_session_id(),
    {
        let cs = vec!['s', 'e', 's', 's', 'i', 'o', 'n'];
        assert(cs@ =~= password_session_id());
        crate::text::string_of(&cs)
    }
}

/// The pointer that a completed login leaves: a password session is filed
/// under its fixed id, a delegated one under the id that the flow granted.
pub open spec fn pointer_after_login(req: LoginRequest, did: Seq<char>, granted: Seq<char>) -> SessionModel {
    SessionModel {
        did,
        session_id: if req.spec_method() == AuthMethod::AppPassword {
            password_session_id()
        } else {
            granted
        },
        store: req.store,
        auth: req.spec_method(),
    }
}

/// The pointer after a completed login: overwritten, whatever it held.
pub open spec fn login_spec(p: Option<SessionModel>, req: LoginRequest, did: Seq<char>, granted: Seq<char>) -> Option<SessionModel> {
    Some(pointer_after_login(req, did, granted))
}

/// What restoring a session takes: the kind of session to rebuild and the
/// key it is filed under.
#[derive(Debug)]
pub struct RestorePlan {
    pub kind: SessionKind,
    pub did: String,
    pub session_id: String,
}

pub open spec fn restore_spec(p: Option<SessionModel>) -> Option<(SessionKind, Seq<char>, Seq<char>)> {
    match p {
        Some(s) => Some((SessionKind::spec_of(s.auth, s.store), s.did, s.session_id)),
        None => None,
    }
}

/// The pointer after a logout, and whether it succeeded: nobody logged in
/// fails, a deletion that failed leaves the pointer, anything else removes it.
pub open spec fn logout_spec(p: Option<SessionModel>, deletion: Result<(), StoreError>) -> (Option<SessionModel>, LogoutOutcome) {
    match p {
        None => (None, LogoutOutcome::NotLoggedIn),
        Some(s) => match spec_tolerate_missing(deletion) {
            Ok(()) => (None, LogoutOutcome::Done),
            Err(_) => (Some(s), LogoutOutcome::StoreFailed),
        },
    }
}

/// How a logout ended.
#[derive(Debug, Clone, Copy, PartialEq, Eq, Structural)]
pub enum LogoutOutcome {
    Done,
    NotLoggedIn,
    StoreFailed,
}

/// Logs in, restores and logs out against the stored session pointer.
#[derive(Debug)]
pub struct Authenticator {
    pub service: String,
    pub auth_store: AuthSessionStore,
}

impl Authenticator {
    /// The pointer as it stands.
    pub open spec fn pointer(&self) -> Option<SessionModel> {
        self.auth_store.spec_session()
    }

    /// An authenticator for `service` over the pointer that was read.
    pub fn try_new(service: &str, stored: Option<AuthSession>) -> (r: Self)
        ensures
            r.service@ == service@,
            r.pointer() == pointer_view(stored),
    {
        Authenticator { service: service.to_string(), auth_store: AuthSessionStore::new(stored) }
    }

    /// Starts a login of `ident` into `store`, by password when one is
    /// given: this only builds the request. The pointer is written by
    /// `finish_login`, once the credential exchange or the browser flow has
    /// succeeded.
    pub fn login(ident: String, store: StoreMethod, password: Option<String>) -> (r: LoginRequest)
        ensures
            r.ident == ident,
            r.store == store,
            r.password == password,
    {
        LoginRequest { ident, store, password }
    }

    /// Records a completed login: the pointer is overwritten, whatever it
    /// held. Returns the new pointer, to be persisted.
    pub fn finish_login(&mut self, request: &LoginRequest, did: String, granted_session_id: String) -> (r: AuthSession)
        ensures
            final(self).pointer() == login_spec(old(self).pointer(), *request, did@, granted_session_id@),
            r@ == pointer_after_login(*request, did@, granted_session_id@),
            final(self).service == old(self).service,
    {
        let auth = request.method();
        let session_id = match auth {
            AuthMethod::AppPassword => LoginRequest::password_session_id(),
            AuthMethod::OAuth => granted_session_id,
        };
        let session = AuthSession { did, session_id, store: request.store, auth };
        let out = session.copy();
        self.auth_store.set_session(session);
        out
    }

    /// The current pointer, without checking that its credentials are
    /// still valid.
    pub fn get_session_info(&self) -> (r: Result<AuthSession, OnyxError>)
        ensures
            match r {
                Ok(s) => self.pointer() == Some(s@),
                Err(e) => self.pointer() is None && e is NotLoggedIn,
            },
    {
        match self.auth_store.get_session() {
            Some(s) => Ok(s),
            None => Err(OnyxError::NotLoggedIn),
        }
    }

    /// Which of the four session kinds to rebuild, and from which key.
    pub fn restore(&self) -> (r: Result<RestorePlan, OnyxError>)
        ensures
            match r {
                Ok(p) => restore_spec(self.pointer()) == Some((p.kind, p.did@, p.session_id@)),
                Err(e) => restore_spec(self.pointer()) is None && e is NotLoggedIn,
            },
    {
        match self.auth_store.get_session() {
            Some(s) => Ok(RestorePlan { kind: SessionKind::of(s.auth, s.store), did: s.did, session_id: s.session_id }),
            None => Err(OnyxError::NotLoggedIn),
        }
    }

    /// The outcome of rebuilding a session from the credentials that a
    /// restore plan names: a store or service that rejects them (expired,
    /// revoked, gone) ends in `RestoreFailed`, never in `NotLoggedIn`, which
    /// only a missing pointer gives.
    pub fn restore_outcome<S>(rebuilt: Result<S, String>) -> (r: Result<S, OnyxError>)
        ensures
            rebuilt matches Ok(s) ==> r == Ok::<S, OnyxError>(s),
            rebuilt matches Err(m) ==> (r matches Err(OnyxError::RestoreFailed(f)) && f == m),
            r matches Err(e) ==> e.spec_kind() == crate::error::ErrorKind::Auth,
    {
        match rebuilt {
            Ok(s) => Ok(s),
            Err(m) => Err(OnyxError::RestoreFailed(m)),
        }
    }

    /// Removes a session's credentials from the secret store.
    pub fn delete_keyring_credential(&self, session: &AuthSession) -> (r: Result<(), StoreError>)
        ensures
            !(r matches Err(StoreError::Missing)),
    {
        let store = KeyringAuthStore::new(self.service.clone());
        store.delete_session(session.did.as_str(), session.session_id.as_str())
    }

    /// Ends the session, given how the deletion of its credentials went: a
    /// key that held nothing counts as deleted; any other failure leaves the
    /// pointer in place, so that logging out again is safe.
    pub fn logout(&mut self, deletion: Result<(), StoreError>) -> (r: Result<(), OnyxError>)
        ensures
            final(self).pointer() == logout_spec(old(self).pointer(), deletion).0,
            final(self).service == old(self).service,
            match logout_spec(old(self).pointer(), deletion).1 {
                LogoutOutcome::Done => r is Ok,
                LogoutOutcome::NotLoggedIn => r matches Err(e) && e is NotLoggedIn,
                LogoutOutcome::StoreFailed => r matches Err(e) && e is SessionStore,
            },
    {
        if self.auth_store.get_session().is_none() {
            return Err(OnyxError::NotLoggedIn);
        }
        match tolerate_missing(deletion) {
            Ok(()) => {
                self.auth_store.delete_session();
                Ok(())
            },
            Err(e) => Err(OnyxError::SessionStore(e.describe())),
        }
    }
}

/// Logging out twice in a row: once a first logout has gone through, or
/// found nobody logged in, a second finds nobody logged in, whatever its
/// store would report, and leaves no pointer.
pub proof fn logout_twice_is_not_logged_in(
    p: Option<SessionModel>,
    first: Result<(), StoreError>,
    second: Result<(), StoreError>,
)
    requires
        logout_spec(p, first).1 != LogoutOutcome::StoreFailed,
    ensures
        logout_spec(logout_spec(p, first).0, second).1 == LogoutOutcome::NotLoggedIn,
        logout_spec(logout_spec(p, first).0, second).0 is None,
{
}

/// A login replaces the pointer: after logins as A and then as B, the
/// pointer names B alone, whatever it held before.
pub proof fn second_login_replaces_first(
    p: Option<SessionModel>,
    a: LoginRequest,
    did_a: Seq<char>,
    granted_a: Seq<char>,
    b: LoginRequest,
    did_b: Seq<char>,
    granted_b: Seq<char>,
)
    ensures
        login_spec(login_spec(p, a, did_a, granted_a), b, did_b, granted_b) == Some(
            pointer_after_login(b, did_b, granted_b),
        ),
        login_spec(login_spec(p, a, did_a, granted_a), b, did_b, granted_b)->0.did == did_b,
        did_a != did_b ==> login_spec(login_spec(p, a, did_a, granted_a), b, did_b, granted_b)->0.did
            != did_a,
        login_spec(login_spec(p, a, did_a, granted_a), b, did_b, granted_b)->0.store == b.store,
        login_spec(login_spec(p, a, did_a, granted_a), b, did_b, granted_b)->0.auth
            == b.spec_method(),
{
}

/// A password login into the file store leaves the pointer
/// `{did, "session", File, AppPassword}`, and restoring from it rebuilds a
/// file-backed password session under the same identity and session id.
pub proof fn password_file_login_restores_same_session(
    p: Option<SessionModel>,
    ident: String,
    password: String,
    did: Seq<char>,
    granted: Seq<char>,
)
    ensures
        ({
            let req = LoginRequest { ident, store: StoreMethod::File, password: Some(password) };
            &&& login_spec(p, req, did, granted) == Some(
                SessionModel {
                    did,
                    session_id: password_session_id(),
                    store: StoreMethod::File,
                    auth: AuthMethod::AppPassword,
                },
            )
            &&& restore_spec(login_spec(p, req, did, granted)) == Some(
                (SessionKind::FilePassword, did, password_session_id()),
            )
        }),
{
}

} // verus!
