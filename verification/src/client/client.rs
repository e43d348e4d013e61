//! Client registration: a server-generated identifier, a 32-character
//! secret, its salted irreversible hash, and a durable row holding identity
//! and hash. The plaintext secret exists outside volatile memory exactly
//! once, in the return value of a successful registration; only its hash is
//! ever stored.

use vstd::prelude::*;
use crate::error::StoreError;
use crate::hashing::{hash_secret, lemma_hash_never_plaintext, phc_verifies};
use crate::token::{all_token_chars, generate_token};

verus! {

/// A durably recorded relying-party registration. The plaintext secret is
/// not among the fields: its salted hash is the only durable
/// representation.
pub struct ClientRecord {
    /// Server-generated unique identifier, immutable after registration.
    pub client_id: String,
    /// Caller-supplied display label; not required to be unique.
    pub client_name: String,
    /// Salted, irreversible PHC-format hash of the client secret.
    pub client_secret_hash: String,
    /// Permitted callback URIs, in the order the caller gave them.
    pub redirect_uris: Vec<String>,
    /// Permitted OAuth grant types.
    pub grant_types: Vec<String>,
    /// Instant of registration, seconds since the Unix epoch.
    pub created_at: i64,
    /// Instant of the latest mutation; equals `created_at` at registration.
    pub updated_at: i64,
}

/// Generate a 32-character alphanumeric client-secret candidate from the
/// secure random source, to be hashed before any row is written.
pub fn generate_random_secret() -> (secret: String)
    ensures
        secret@.len() == 32,
        all_token_chars(secret@),
{
    generate_token(32)
}

/// Relies on uuid's `Uuid::new_v4` and its `Display` form: a version-4
/// identifier drawn from the operating-system random source, rendered in the
/// 36-character hyphenated lowercase-hexadecimal form. The draw is random,
/// so nothing relates two calls; only the shape of the result is stated.
#[verifier::external_body]
fn new_client_id() -> (r: String)
    ensures
        r@.len() == 36,
{
    uuid::Uuid::new_v4().to_string()
}

/// The fields of `rec`, together with the returned plaintext `secret`, are
/// exactly those of a registration requested with the given inputs at
/// instant `now`: a fresh identifier, both timestamps set to `now`, and a
/// stored hash that verifies the secret yet never equals it.
pub open spec fn prepared_registration(
    rec: ClientRecord,
    secret: Seq<char>,
    client_name: Seq<char>,
    redirect_uris: Seq<String>,
    grant_types: Seq<String>,
    now: i64,
) -> bool {
    &&& secret.len() == 32
    &&& all_token_chars(secret)
    &&& rec.client_id@.len() == 36
    &&& rec.client_name@ == client_name
    &&& phc_verifies(secret, rec.client_secret_hash@)
    &&& rec.client_secret_hash@ != secret
    &&& rec.redirect_uris@ == redirect_uris
    &&& rec.grant_types@ == grant_types
    &&& rec.created_at == now
    &&& rec.updated_at == now
}

/// Build the row a registration at instant `now` will write, and the
/// plaintext secret to hand back. The hash is computed before any write is
/// attempted; if hashing fails the registration is aborted with
/// `GenerationFailure` and no partial state exists.
pub fn prepare_registration(
    client_name: &str,
    redirect_uris: Vec<String>,
    grant_types: Vec<String>,
    now: i64,
) -> (r: Result<(ClientRecord, String), StoreError>)
    ensures
        (r matches Ok(p) ==> prepared_registration(
            p.0,
            p.1@,
            client_name@,
            redirect_uris@,
            grant_types@,
            now,
        )),
        (r matches Err(e) ==> e == StoreError::GenerationFailure),
{
    let client_id = new_client_id();
    let secret = generate_random_secret();
    let hashed = hash_secret(secret.as_str());
    proof {
        if hashed is Some {
            lemma_hash_never_plaintext(secret@, hashed->Some_0@);
        }
    }
    match hashed {
        Some(hash) => Ok((
            ClientRecord {
                client_id,
                client_name: client_name.to_owned(),
                client_secret_hash: hash,
                redirect_uris,
                grant_types,
                created_at: now,
                updated_at: now,
            },
            secret,
        )),
        None => Err(StoreError::GenerationFailure),
    }
}

/// The persistence contract of client registration: the plaintext secret is
/// returned exactly once, on a clean single-row write, and is a fresh
/// 32-character alphanumeric string.
pub trait ClientStore {
    /// Register a new relying-party application: generate its identifier and
    /// secret, hash the secret, write the row, and return the plaintext
    /// secret only on a clean single-row write.
    fn register_client(
        &mut self,
        client_name: &str,
        redirect_uris: Vec<String>,
        grant_types: Vec<String>,
        now: i64,
    ) -> (r: Result<String, StoreError>)
        ensures
            (r matches Ok(secret) ==> secret@.len() == 32 && all_token_chars(secret@)),
    ;
}

/// In-memory store: the test double of the registration interface, holding
/// every recorded client row.
pub struct MemoryClientStore {
    /// Every durably recorded client row, in order of registration.
    pub clients: Vec<ClientRecord>,
}

impl MemoryClientStore {
    /// The identifiers of every recorded client, in order of registration.
    pub open spec fn client_ids(&self) -> Seq<Seq<char>> {
        self.clients@.map_values(|r: ClientRecord| r.client_id@)
    }

    /// Whether a row with this identifier is already recorded.
    pub open spec fn id_present(&self, client_id: Seq<char>) -> bool {
        self.client_ids().contains(client_id)
    }

    /// The store's invariant: the identifier column is a primary key, so no
    /// two rows share a client identifier.
    pub open spec fn wf(&self) -> bool {
        forall|i: int, j: int|
            0 <= i < j < self.clients@.len() ==> self.clients@[i].client_id@
                != self.clients@[j].client_id@
    }

    /// An empty store: no client registered.
    pub fn new() -> (s: Self)
        ensures
            s.clients@.len() == 0,
            s.wf(),
    {
        MemoryClientStore { clients: Vec::new() }
    }

    /// Whether a row with this identifier is already recorded.
    fn contains_id(&self, client_id: &String) -> (r: bool)
        ensures
            r == self.id_present(client_id@),
    {
        let n = self.clients.len();
        let mut i: usize = 0;
        while i < n
            invariant
                i <= n,
                n == self.clients@.len(),
                forall|k: int| 0 <= k < i ==> self.client_ids()[k] != client_id@,
            decreases n - i,
        {
            if self.clients[i].client_id == *client_id {
                proof {
                    assert(self.client_ids()[i as int] == client_id@);
                }
                return true;
            }
            i = i + 1;
        }
        false
    }

    /// Write one prepared row atomically: the row is recorded and the
    /// plaintext secret returned exactly when its identifier is fresh;
    /// otherwise nothing changes and the secret is not handed out. A
    /// duplicate identifier surfaces as a persistence failure, never as a
    /// silent overwrite.
    pub fn insert_prepared(&mut self, rec: ClientRecord, secret: String) -> (r: Result<
        String,
        StoreError,
    >)
        ensures
            !old(self).id_present(rec.client_id@) ==> (r matches Ok(s) && s@ == secret@
                && final(self).clients@ == old(self).clients@.push(rec)),
            old(self).id_present(rec.client_id@) ==> (r matches Err(e) && e
                == StoreError::PersistenceFailure && *final(self) == *old(self)),
            old(self).wf() ==> final(self).wf(),
    {
        if self.contains_id(&rec.client_id) {
            return Err(StoreError::PersistenceFailure);
        }
        self.clients.push(rec);
        proof {
            if old(self).wf() {
                assert forall|i: int, j: int|
                    0 <= i < j < self.clients@.len() implies self.clients@[i].client_id@
                    != self.clients@[j].client_id@ by {
                    if j == self.clients@.len() - 1 {
                        assert(old(self).client_ids()[i] == old(self).clients@[i].client_id@);
                    }
                }
            }
        }
        Ok(secret)
    }
}

impl ClientStore for MemoryClientStore {
    fn register_client(
        &mut self,
        client_name: &str,
        redirect_uris: Vec<String>,
        grant_types: Vec<String>,
        now: i64,
    ) -> (r: Result<String, StoreError>)
        ensures
            (r matches Ok(secret) ==> (final(self).clients@.len() == old(self).clients@.len() + 1
                && final(self).clients@.drop_last() == old(self).clients@
                && prepared_registration(
                final(self).clients@.last(),
                secret@,
                client_name@,
                redirect_uris@,
                grant_types@,
                now,
            ) && !old(self).id_present(final(self).clients@.last().client_id@))),
            (r matches Err(e) ==> (*final(self) == *old(self) && (e == StoreError::GenerationFailure
                || (e == StoreError::PersistenceFailure && old(self).clients@.len() > 0)))),
            old(self).wf() ==> final(self).wf(),
    {
        let prepared = match prepare_registration(client_name, redirect_uris, grant_types, now) {
            Ok(p) => p,
            Err(e) => {
                return Err(e);
            },
        };
        let r = self.insert_prepared(prepared.0, prepared.1);
        proof {
            if r is Ok {
                assert(final(self).clients@.drop_last() =~= old(self).clients@);
            }
        }
        r
    }
}

/// Register a relying-party application at the present instant: generate
/// identifier and secret, hash the secret before any write, persist the row,
/// and return the plaintext secret exactly once.
pub fn register_client<S: ClientStore>(
    store: &mut S,
    client_name: &str,
    redirect_uris: Vec<String>,
    grant_types: Vec<String>,
) -> (r: Result<String, StoreError>)
    ensures
        (r matches Ok(secret) ==> secret@.len() == 32 && all_token_chars(secret@)),
{
    let now = crate::clock::current_timestamp();
    store.register_client(client_name, redirect_uris, grant_types, now)
}

/// Law: registrations are keyed by `client_id` alone: in a well-formed
/// store any two distinct rows carry distinct identifiers, while their
/// display names are free to coincide — nothing in the store's contract
/// constrains `client_name`.
pub proof fn lemma_client_ids_distinct(store: MemoryClientStore, i: int, j: int)
    requires
        store.wf(),
        0 <= i < store.clients@.len(),
        0 <= j < store.clients@.len(),
        i != j,
    ensures
        store.clients@[i].client_id@ != store.clients@[j].client_id@,
{
}

} // verus!
