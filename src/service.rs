use crate::actors::Verifier;
use crate::natural::Natural;
use crate::system::{ZKPParameters, ZKPSystem};
use rand::Rng;
use vstd::hash_map::StringHashMap;
use vstd::prelude::*;

verus! {

/// Length of a pending-session identifier.
pub const AUTH_ID_LEN: usize = 16;

/// Length of a token minted on successful authentication.
pub const SESSION_TOKEN_LEN: usize = 32;

/// Why an authentication operation failed.
#[derive(Debug, Clone, Copy, PartialEq, Eq, Structural)]
pub enum AuthError {
    /// An identity or integer could not be decoded at the boundary.
    InvalidEncoding,
    /// No public values are registered for the identity.
    UnknownIdentity,
    /// The session was never issued or has already been completed.
    UnknownOrConsumedSession,
    /// The response does not satisfy the verification equations.
    VerificationFailed,
}

/// A pending authentication: the identity, the challenge issued and the
/// prover's commitments.
pub struct PendingSession {
    pub user: String,
    pub challenge: Natural,
    pub r1: Natural,
    pub r2: Natural,
}

/// What a pending session holds: `(identity, c, r1, r2)`.
pub open spec fn session_view(s: PendingSession) -> (Seq<char>, nat, nat, nat) {
    (s.user@, s.challenge@, s.r1@, s.r2@)
}

/// An ASCII letter or digit.
pub open spec fn is_ascii_alphanumeric(ch: char) -> bool {
    ('a' <= ch && ch <= 'z') || ('A' <= ch && ch <= 'Z') || ('0' <= ch && ch <= '9')
}

/// Relies on rand's `Alphanumeric` distribution, sampled from
/// `thread_rng`: a string of `len` ASCII letters and digits.
#[verifier::external_body]
fn random_token(len: usize) -> (r: String)
    ensures
        r@.len() == len,
        forall|i: int| 0 <= i < len ==> is_ascii_alphanumeric(#[trigger] r@[i]),
{
    rand::thread_rng().sample_iter(&rand::distributions::Alphanumeric).take(len).map(char::from).collect()
}

/// The authentication service: a registry of public values per identity,
/// and a registry of pending sessions, each completed at most once.
pub struct AuthService {
    system: ZKPSystem,
    users: StringHashMap<(Natural, Natural)>,
    sessions: StringHashMap<PendingSession>,
}

impl AuthService {
    /// The parameters of the service's proof system.
    pub closed spec fn params(&self) -> ZKPParameters {
        self.system.params()
    }

    /// The registered public values `(y1, y2)` per identity.
    pub closed spec fn users_view(&self) -> Map<Seq<char>, (nat, nat)> {
        Map::new(|k: Seq<char>| self.users@.contains_key(k), |k: Seq<char>| (self.users@[k].0@, self.users@[k].1@))
    }

    /// The pending sessions `(identity, c, r1, r2)` per session identifier.
    pub closed spec fn sessions_view(&self) -> Map<Seq<char>, (Seq<char>, nat, nat, nat)> {
        Map::new(|k: Seq<char>| self.sessions@.contains_key(k), |k: Seq<char>| session_view(self.sessions@[k]))
    }

    /// A service with no user and no pending session.
    pub fn new(system: ZKPSystem) -> (r: Self)
        ensures
            r.params() == system.params(),
            r.users_view() == Map::<Seq<char>, (nat, nat)>::empty(),
            r.sessions_view() == Map::<Seq<char>, (Seq<char>, nat, nat, nat)>::empty(),
    {
        let r = Self { system, users: StringHashMap::new(), sessions: StringHashMap::new() };
        assert(r.users_view() =~= Map::<Seq<char>, (nat, nat)>::empty());
        assert(r.sessions_view() =~= Map::<Seq<char>, (Seq<char>, nat, nat, nat)>::empty());
        r
    }

    /// Stores `(y1, y2)` for `user`, replacing any earlier entry.
    pub fn register(&mut self, user: String, y1: Natural, y2: Natural)
        ensures
            final(self).params() == old(self).params(),
            final(self).users_view() == old(self).users_view().insert(user@, (y1@, y2@)),
            final(self).sessions_view() == old(self).sessions_view(),
    {
        let ghost key = user@;
        let ghost val = (y1@, y2@);
        self.users.insert(user, (y1, y2));
        assert(self.users_view() =~= old(self).users_view().insert(key, val));
        assert(self.sessions_view() =~= old(self).sessions_view());
    }

    /// Records a pending session `auth_id` for `user` with the issued
    /// `challenge` and the commitments `(r1, r2)`, if `user` is registered.
    pub fn open_session(&mut self, user: String, r1: Natural, r2: Natural, challenge: Natural, auth_id: String) -> (r: Result<(), AuthError>)
        ensures
            final(self).params() == old(self).params(),
            final(self).users_view() == old(self).users_view(),
            old(self).users_view().contains_key(user@) ==> r is Ok && final(self).sessions_view()
                == old(self).sessions_view().insert(auth_id@, (user@, challenge@, r1@, r2@)),
            !old(self).users_view().contains_key(user@) ==> r == Err::<(), AuthError>(AuthError::UnknownIdentity)
                && final(self).sessions_view() == old(self).sessions_view(),
    {
        if !self.users.contains_key(user.as_str()) {
            return Err(AuthError::UnknownIdentity);
        }
        let ghost key = auth_id@;
        let ghost val = (user@, challenge@, r1@, r2@);
        self.sessions.insert(auth_id, PendingSession { user, challenge, r1, r2 });
        assert(self.sessions_view() =~= old(self).sessions_view().insert(key, val));
        assert(self.users_view() =~= old(self).users_view());
        Ok(())
    }

    /// Begins an authentication of `user` with the commitments `(r1, r2)`:
    /// draws a challenge below `q` and a session identifier, records the
    /// pending session, and returns `(auth_id, challenge)`. Fails with
    /// `UnknownIdentity`, and changes nothing, if `user` is not registered.
    pub fn create_authentication_challenge(&mut self, user: String, r1: Natural, r2: Natural) -> (r: Result<(String, Natural), AuthError>)
        requires
            old(self).params().q@ > 0,
        ensures
            final(self).params() == old(self).params(),
            final(self).users_view() == old(self).users_view(),
            r is Ok <==> old(self).users_view().contains_key(user@),
            r is Err ==> r == Err::<(String, Natural), AuthError>(AuthError::UnknownIdentity)
                && final(self).sessions_view() == old(self).sessions_view(),
            r matches Ok((auth_id, challenge)) ==> auth_id@.len() == AUTH_ID_LEN
                && (forall|i: int| 0 <= i < AUTH_ID_LEN ==> is_ascii_alphanumeric(#[trigger] auth_id@[i]))
                && challenge@ < old(self).params().q@
                && final(self).sessions_view()
                == old(self).sessions_view().insert(auth_id@, (user@, challenge@, r1@, r2@)),
    {
        if !self.users.contains_key(user.as_str()) {
            return Err(AuthError::UnknownIdentity);
        }
        let verifier = Verifier::new(&self.system);
        let challenge = verifier.generate_challenge();
        let auth_id = random_token(AUTH_ID_LEN);
        let issued = challenge.duplicate();
        let id = auth_id.clone();
        match self.open_session(user, r1, r2, challenge, auth_id) {
            Ok(()) => Ok((id, issued)),
            Err(e) => Err(e),
        }
    }

    /// Completes the pending session `auth_id` with the response `s`. The
    /// session is removed whatever the outcome. Fails with
    /// `UnknownOrConsumedSession` if it is not pending, with
    /// `UnknownIdentity` if its identity has no public values, and with
    /// `VerificationFailed` if the verification equations do not hold;
    /// otherwise returns a fresh session token.
    pub fn verify_authentication(&mut self, auth_id: &str, s: &Natural) -> (r: Result<String, AuthError>)
        requires
            old(self).params().p@ > 0,
        ensures
            final(self).params() == old(self).params(),
            final(self).users_view() == old(self).users_view(),
            final(self).sessions_view() == old(self).sessions_view().remove(auth_id@),
            !old(self).sessions_view().contains_key(auth_id@)
                ==> r == Err::<String, AuthError>(AuthError::UnknownOrConsumedSession),
            old(self).sessions_view().contains_key(auth_id@) ==> ({
                let (user, c, r1, r2) = old(self).sessions_view()[auth_id@];
                if !old(self).users_view().contains_key(user) {
                    r == Err::<String, AuthError>(AuthError::UnknownIdentity)
                } else {
                    let (y1, y2) = old(self).users_view()[user];
                    if old(self).params().accepts(r1, r2, c, s@, y1, y2) {
                        r matches Ok(token) && token@.len() == SESSION_TOKEN_LEN
                            && (forall|i: int| 0 <= i < SESSION_TOKEN_LEN ==> is_ascii_alphanumeric(#[trigger] token@[i]))
                    } else {
                        r == Err::<String, AuthError>(AuthError::VerificationFailed)
                    }
                }
            }),
    {
        let session = match self.sessions.get(auth_id) {
            Some(p) => PendingSession {
                user: p.user.clone(),
                challenge: p.challenge.duplicate(),
                r1: p.r1.duplicate(),
                r2: p.r2.duplicate(),
            },
            None => return Err(AuthError::UnknownOrConsumedSession),
        };
        self.sessions.remove(auth_id);
        assert(self.sessions_view() =~= old(self).sessions_view().remove(auth_id@));
        assert(self.users_view() =~= old(self).users_view());
        let (y1, y2) = match self.users.get(session.user.as_str()) {
            Some(v) => v,
            None => return Err(AuthError::UnknownIdentity),
        };
        let verifier = Verifier::new(&self.system);
        if verifier.verify((&session.r1, &session.r2), &session.challenge, s, (y1, y2)) {
            Ok(random_token(SESSION_TOKEN_LEN))
        } else {
            Err(AuthError::VerificationFailed)
        }
    }
}

} // verus!
