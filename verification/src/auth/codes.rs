//! Authorization-code issuance: a 30-character bearer code bound to a
//! user/client/redirect-URI tuple, expiring ten minutes after issuance, and
//! handed out only once it is durably recorded.

use vstd::prelude::*;
use crate::error::StoreError;
use crate::token::{all_token_chars, generate_token};

verus! {

/// Seconds an authorization code stays valid after issuance: ten minutes.
pub const CODE_TTL_SECONDS: i64 = 600;

/// The expiry instant assigned to a code issued at `now`: ten minutes
/// later, saturated at the largest representable instant.
pub open spec fn expiry_of(now: i64) -> int {
    if now + 600 <= i64::MAX {
        now + 600
    } else {
        i64::MAX as int
    }
}

/// A durably recorded authorization code. The code string doubles as
/// identifier and secret; its entropy is the only thing preventing guessing.
pub struct AuthorizationCode {
    /// Opaque bearer string of exactly 30 alphanumeric characters.
    pub code: String,
    /// The registered client the code was issued to.
    pub client_id: String,
    /// The resource owner on whose behalf the code was issued.
    pub user_id: String,
    /// The callback URI the code is scoped to.
    pub redirect_uri: String,
    /// Absolute expiry instant, seconds since the Unix epoch.
    pub expires_at: i64,
}

/// Generate a 30-character alphanumeric authorization code from the secure
/// random source.
pub fn generate_auth_code() -> (code: String)
    ensures
        code@.len() == 30,
        all_token_chars(code@),
{
    generate_token(30)
}

/// Compute the expiry instant of a code issued at `now`.
pub fn compute_expiry(now: i64) -> (t: i64)
    ensures
        t == expiry_of(now),
{
    if now <= i64::MAX - CODE_TTL_SECONDS {
        now + CODE_TTL_SECONDS
    } else {
        i64::MAX
    }
}

/// The fields of `rec` are exactly those of an issuance requested with the
/// given tuple at instant `now`, carrying a fresh well-formed code.
pub open spec fn prepared_code(
    rec: AuthorizationCode,
    client_id: Seq<char>,
    user_id: Seq<char>,
    redirect_uri: Seq<char>,
    now: i64,
) -> bool {
    &&& rec.code@.len() == 30
    &&& all_token_chars(rec.code@)
    &&& rec.client_id@ == client_id
    &&& rec.user_id@ == user_id
    &&& rec.redirect_uri@ == redirect_uri
    &&& rec.expires_at == expiry_of(now)
}

/// Build the row an issuance at instant `now` will write: a fresh code and
/// the expiry it is bound to. Pure but for the draw of the code itself.
pub fn prepare_auth_code(
    client_id: &str,
    user_id: &str,
    redirect_uri: &str,
    now: i64,
) -> (rec: AuthorizationCode)
    ensures
        prepared_code(rec, client_id@, user_id@, redirect_uri@, now),
{
    AuthorizationCode {
        code: generate_auth_code(),
        client_id: client_id.to_owned(),
        user_id: user_id.to_owned(),
        redirect_uri: redirect_uri.to_owned(),
        expires_at: compute_expiry(now),
    }
}

/// The persistence contract of authorization codes: a code is returned only
/// once it is durably recorded, and every returned code is a fresh
/// 30-character alphanumeric string.
pub trait AuthCodeStore {
    /// Persist a new authorization code bound to the given tuple, issued at
    /// instant `now`, and hand the code out only on a clean single-row
    /// write.
    fn insert_auth_code(
        &mut self,
        client_id: &str,
        user_id: &str,
        redirect_uri: &str,
        now: i64,
    ) -> (r: Result<String, StoreError>)
        ensures
            (r matches Ok(code) ==> code@.len() == 30 && all_token_chars(code@)),
    ;
}

/// In-memory store: the test double of the persistence interface, holding
/// the registered client identifiers (the referential constraint) and every
/// recorded code row.
pub struct MemoryAuthCodeStore {
    /// Identifiers of the registered clients codes may reference.
    pub registered_clients: Vec<String>,
    /// Every durably recorded code row, in order of issuance.
    pub codes: Vec<AuthorizationCode>,
}

impl MemoryAuthCodeStore {
    /// The registered client identifiers, as character sequences.
    pub open spec fn clients_view(&self) -> Seq<Seq<char>> {
        self.registered_clients@.map_values(|s: String| s@)
    }

    /// The code strings of every recorded row, in order of issuance.
    pub open spec fn issued_codes(&self) -> Seq<Seq<char>> {
        self.codes@.map_values(|r: AuthorizationCode| r.code@)
    }

    /// Whether `client_id` references a registered client.
    pub open spec fn client_registered(&self, client_id: Seq<char>) -> bool {
        self.clients_view().contains(client_id)
    }

    /// Whether a row with this code string is already recorded.
    pub open spec fn code_present(&self, code: Seq<char>) -> bool {
        self.issued_codes().contains(code)
    }

    /// The store's invariant: the code column is a primary key, so no two
    /// rows share a code string.
    pub open spec fn wf(&self) -> bool {
        forall|i: int, j: int|
            0 <= i < j < self.codes@.len() ==> self.codes@[i].code@ != self.codes@[j].code@
    }

    /// An empty store: nothing registered, nothing issued.
    pub fn new() -> (s: Self)
        ensures
            s.registered_clients@.len() == 0,
            s.codes@.len() == 0,
            s.wf(),
    {
        MemoryAuthCodeStore { registered_clients: Vec::new(), codes: Vec::new() }
    }

    /// Record `client_id` as a registered client, so that codes issued to it
    /// satisfy the referential constraint.
    pub fn register_client_id(&mut self, client_id: &str)
        ensures
            final(self).codes == old(self).codes,
            final(self).clients_view() == old(self).clients_view().push(client_id@),
            final(self).client_registered(client_id@),
    {
        self.registered_clients.push(client_id.to_owned());
        proof {
            assert(final(self).clients_view() =~= old(self).clients_view().push(client_id@));
            assert(self.clients_view()[old(self).clients_view().len() as int] == client_id@);
        }
    }

    /// Whether `client_id` is among the registered clients.
    fn contains_client(&self, client_id: &String) -> (r: bool)
        ensures
            r == self.client_registered(client_id@),
    {
        let n = self.registered_clients.len();
        let mut i: usize = 0;
        while i < n
            invariant
                i <= n,
                n == self.registered_clients@.len(),
                forall|k: int| 0 <= k < i ==> self.clients_view()[k] != client_id@,
            decreases n - i,
        {
            if self.registered_clients[i] == *client_id {
                proof {
                    assert(self.clients_view()[i as int] == client_id@);
                }
                return true;
            }
            i = i + 1;
        }
        false
    }

    /// Whether a row with this code string is already recorded.
    fn contains_code(&self, code: &String) -> (r: bool)
        ensures
            r == self.code_present(code@),
    {
        let n = self.codes.len();
        let mut i: usize = 0;
        while i < n
            invariant
                i <= n,
                n == self.codes@.len(),
                forall|k: int| 0 <= k < i ==> self.issued_codes()[k] != code@,
            decreases n - i,
        {
            if self.codes[i].code == *code {
                proof {
                    assert(self.issued_codes()[i as int] == code@);
                }
                return true;
            }
            i = i + 1;
        }
        false
    }

    /// Write one prepared row atomically: the row is recorded and its code
    /// returned exactly when its client is registered and its code string is
    /// fresh; otherwise nothing changes and no code is handed out.
    pub fn insert_prepared(&mut self, rec: AuthorizationCode) -> (r: Result<String, StoreError>)
        ensures
            (old(self).client_registered(rec.client_id@) && !old(self).code_present(rec.code@))
                ==> (r matches Ok(c) && c@ == rec.code@
                    && final(self).codes@ == old(self).codes@.push(rec)
                    && final(self).registered_clients == old(self).registered_clients),
            !(old(self).client_registered(rec.client_id@) && !old(self).code_present(rec.code@))
                ==> (r matches Err(e) && e == StoreError::PersistenceFailure
                    && *final(self) == *old(self)),
            old(self).wf() ==> final(self).wf(),
    {
        if !self.contains_client(&rec.client_id) {
            return Err(StoreError::PersistenceFailure);
        }
        if self.contains_code(&rec.code) {
            return Err(StoreError::PersistenceFailure);
        }
        let code = rec.code.clone();
        self.codes.push(rec);
        proof {
            if old(self).wf() {
                assert forall|i: int, j: int|
                    0 <= i < j < self.codes@.len() implies self.codes@[i].code@
                    != self.codes@[j].code@ by {
                    if j == self.codes@.len() - 1 {
                        assert(old(self).issued_codes()[i] == old(self).codes@[i].code@);
                    }
                }
            }
        }
        Ok(code)
    }
}

impl AuthCodeStore for MemoryAuthCodeStore {
    fn insert_auth_code(
        &mut self,
        client_id: &str,
        user_id: &str,
        redirect_uri: &str,
        now: i64,
    ) -> (r: Result<String, StoreError>)
        ensures
            !old(self).client_registered(client_id@)
                ==> (r matches Err(e) && e == StoreError::PersistenceFailure
                    && *final(self) == *old(self)),
            (r matches Ok(code) ==> (final(self).codes@.len() == old(self).codes@.len() + 1
                && final(self).codes@.drop_last() == old(self).codes@
                && prepared_code(
                final(self).codes@.last(),
                client_id@,
                user_id@,
                redirect_uri@,
                now,
            ) && code@ == final(self).codes@.last().code@ && !old(self).code_present(code@)
                && final(self).registered_clients == old(self).registered_clients)),
            (r matches Err(_) ==> *final(self) == *old(self)),
            (r matches Err(_) ==> (!old(self).client_registered(client_id@)
                || old(self).codes@.len() > 0)),
            old(self).wf() ==> final(self).wf(),
    {
        let rec = prepare_auth_code(client_id, user_id, redirect_uri, now);
        let r = self.insert_prepared(rec);
        proof {
            if r is Ok {
                assert(final(self).codes@.drop_last() =~= old(self).codes@);
            }
        }
        r
    }
}

/// Issue an authorization code at the present instant: generate, bind,
/// persist, and return the code only once it is durably recorded.
pub fn issue_authorization_code<S: AuthCodeStore>(
    store: &mut S,
    client_id: &str,
    user_id: &str,
    redirect_uri: &str,
) -> (r: Result<String, StoreError>)
    ensures
        (r matches Ok(code) ==> code@.len() == 30 && all_token_chars(code@)),
{
    let now = crate::clock::current_timestamp();
    store.insert_auth_code(client_id, user_id, redirect_uri, now)
}

/// Law: the code column is a primary key: in a well-formed store any two
/// distinct rows carry distinct code strings, so a recorded code can never
/// be silently overwritten.
pub proof fn lemma_issued_codes_distinct(store: MemoryAuthCodeStore, i: int, j: int)
    requires
        store.wf(),
        0 <= i < store.codes@.len(),
        0 <= j < store.codes@.len(),
        i != j,
    ensures
        store.codes@[i].code@ != store.codes@[j].code@,
{
}

} // verus!
