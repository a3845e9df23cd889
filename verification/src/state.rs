//! The process-wide HTTP application state: the token-signing secret, the
//! revoked-token set, the public server URL and the mail options. One
//! instance exists per process and is shared by every request; the
//! revocation set is the only part of it that is ever written after
//! construction.

use crate::config::Configuration;
use std::collections::HashSet;
use vstd::prelude::*;
use vstd::string::StringExecFns;

verus! {

broadcast use vstd::std_specs::hash::group_hash_axioms, vstd::seq_lib::lemma_seq_contains_after_push;

/// The set of revoked token identifiers: tokens invalidated by logout that
/// must be rejected even if otherwise cryptographically valid. The interface
/// is deliberately `contains` and `insert` alone — there is no removal, so a
/// token once revoked stays revoked.
pub struct RevocationSet {
    tokens: HashSet<u64>,
}

impl View for RevocationSet {
    type V = Set<u64>;

    closed spec fn view(&self) -> Set<u64> {
        self.tokens@
    }
}

impl RevocationSet {
    /// The empty revocation set.
    pub fn new() -> (s: Self)
        ensures
            s@ == Set::<u64>::empty(),
    {
        RevocationSet { tokens: HashSet::new() }
    }

    /// The revocation set holding exactly the identifiers of `initial` (the
    /// blacklist the backend hands over at startup).
    pub fn from_tokens(initial: &Vec<u64>) -> (s: Self)
        ensures
            forall|t: u64| s@.contains(t) <==> initial@.contains(t),
    {
        let mut tokens: HashSet<u64> = HashSet::new();
        let mut i: usize = 0;
        proof {
            assert(initial@.take(0) =~= Seq::<u64>::empty());
        }
        while i < initial.len()
            invariant
                i <= initial@.len(),
                forall|t: u64|
                    tokens@.contains(t) <==> initial@.take(i as int).contains(t),
            decreases initial@.len() - i,
        {
            tokens.insert(initial[i]);
            proof {
                assert(initial@.take(i as int + 1) =~= initial@.take(i as int).push(
                    initial@[i as int],
                ));
            }
            i = i + 1;
        }
        proof {
            assert(initial@.take(initial@.len() as int) =~= initial@);
        }
        RevocationSet { tokens }
    }

    /// Whether `token` has been revoked. A validity check only reads the
    /// set, so any number of checks may run concurrently.
    pub fn contains(&self, token: u64) -> (revoked: bool)
        ensures
            revoked == self@.contains(token),
    {
        self.tokens.contains(&token)
    }

    /// Revoke `token` (logout). Everything already revoked stays revoked.
    pub fn insert(&mut self, token: u64)
        ensures
            final(self)@ == old(self)@.insert(token),
    {
        self.tokens.insert(token);
    }
}

/// Law: a write to the revocation set is visible to subsequent reads — right
/// after a token is revoked, a validity check on it reports it revoked.
pub proof fn lemma_revocation_read_your_writes(s: Set<u64>, token: u64)
    ensures
        s.insert(token).contains(token),
{
}

/// Law: revocation is monotonic. The set offers no removal, and revoking one
/// token keeps every previously revoked token revoked, so no read can
/// observe a revoked-and-since-reverted intermediate state.
pub proof fn lemma_revocation_monotonic(s: Set<u64>, token: u64, other: u64)
    requires
        s.contains(other),
    ensures
        s.insert(token).contains(other),
{
}

/// The process-wide application state shared by every HTTP request.
pub struct AppState {
    /// The secret the token-signing key is derived from.
    pub jwt_secret: String,
    /// The revoked-token identifiers, guarded by a reader/writer lock in the
    /// unverified rim: reads run concurrently, revocation takes the
    /// exclusive write.
    pub jwt_blacklist: RevocationSet,
    /// The public URL of this server.
    pub server_url: String,
    /// Mail-delivery options.
    pub mail_options: crate::config::MailOptions,
}

/// Build the application state once, when the HTTP endpoint is bound: the
/// signing secret and public URL from the configuration snapshot, the
/// revocation set seeded with the blacklist the backend handed over.
pub fn build_app_state(config: &Configuration, blacklist: &Vec<u64>) -> (state: AppState)
    ensures
        state.jwt_secret@ == config.jwt_secret@,
        state.server_url@ == config.http_url@,
        forall|t: u64| state.jwt_blacklist@.contains(t) <==> blacklist@.contains(t),
        state.mail_options.server@ == config.smtp_options.server@,
        state.mail_options.port == config.smtp_options.port,
        state.mail_options.user@ == config.smtp_options.user@,
        state.mail_options.from@ == config.smtp_options.from@,
{
    AppState {
        jwt_secret: String::from_str(config.jwt_secret.as_str()),
        jwt_blacklist: RevocationSet::from_tokens(blacklist),
        server_url: String::from_str(config.http_url.as_str()),
        mail_options: crate::config::MailOptions {
            server: String::from_str(config.smtp_options.server.as_str()),
            port: config.smtp_options.port,
            user: String::from_str(config.smtp_options.user.as_str()),
            from: String::from_str(config.smtp_options.from.as_str()),
        },
    }
}

} // verus!
