//! The pending-authorization broker: the logins that have been sent to the
//! identity provider and have not come back yet.

use vstd::prelude::*;
use vstd::hash_map::StringHashMap;

verus! {

/// The pending authorizations: for each CSRF token that was issued and not
/// yet redeemed, the PKCE code verifier that belongs to it. An entry leaves
/// only by being redeemed; none expires.
pub struct PendingAuthorizations {
    entries: StringHashMap<String>,
}

impl View for PendingAuthorizations {
    type V = Map<Seq<char>, Seq<char>>;

    closed spec fn view(&self) -> Map<Seq<char>, Seq<char>> {
        self.entries@.map_values(|v: String| v@)
    }
}

/// What redeeming `token` gives and leaves: the verifier that was stored under
/// it, if there was one, and the entries without it.
pub open spec fn redeemed(pending: Map<Seq<char>, Seq<char>>, token: Seq<char>) -> (
    Map<Seq<char>, Seq<char>>,
    Option<Seq<char>>,
) {
    (
        pending.remove(token),
        if pending.contains_key(token) {
            Some(pending[token])
        } else {
            None
        },
    )
}

/// Redemption is at most once: whatever is pending, a token that was issued
/// with a verifier gives that verifier when it is redeemed, and nothing when
/// it is redeemed again; a token that is redeemed twice gives nothing the
/// second time, whether it was pending or not.
pub proof fn lemma_redeem_at_most_once(
    pending: Map<Seq<char>, Seq<char>>,
    token: Seq<char>,
    verifier: Seq<char>,
)
    ensures
        redeemed(pending.insert(token, verifier), token).1 == Some(verifier),
        redeemed(redeemed(pending.insert(token, verifier), token).0, token).1 is None,
        redeemed(redeemed(pending, token).0, token).1 is None,
        pending.contains_key(token) ==> redeemed(pending, token).1 is Some,
{
}

/// Redeeming one token leaves every other entry as it was.
pub proof fn lemma_redeem_leaves_others(
    pending: Map<Seq<char>, Seq<char>>,
    token: Seq<char>,
    other: Seq<char>,
)
    requires
        other != token,
    ensures
        redeemed(pending, token).0.contains_key(other) == pending.contains_key(other),
        pending.contains_key(other) ==> redeemed(pending, token).0[other] == pending[other],
{
}

impl PendingAuthorizations {
    /// No authorization is pending.
    pub fn new() -> (r: Self)
        ensures
            r@ == Map::<Seq<char>, Seq<char>>::empty(),
    {
        let r = PendingAuthorizations { entries: StringHashMap::new() };
        assert(r@ =~= Map::<Seq<char>, Seq<char>>::empty());
        r
    }

    /// Stores the verifier under the token; a verifier that was stored under
    /// the same token before is replaced.
    pub fn insert(&mut self, csrf_token: String, pkce_verifier: String)
        ensures
            final(self)@ == old(self)@.insert(csrf_token@, pkce_verifier@),
    {
        self.entries.insert(csrf_token, pkce_verifier);
        assert(self@ =~= old(self)@.insert(csrf_token@, pkce_verifier@));
    }

    /// Whether the token is pending.
    pub fn contains(&self, csrf_token: &str) -> (r: bool)
        ensures
            r == self@.contains_key(csrf_token@),
    {
        self.entries.contains_key(csrf_token)
    }

    /// Takes the verifier of the token out, if the token is pending: removes
    /// the entry and returns what it held, in one step.
    pub fn redeem(&mut self, csrf_token: &str) -> (r: Option<String>)
        ensures
            final(self)@ == redeemed(old(self)@, csrf_token@).0,
            match r {
                Some(verifier) => redeemed(old(self)@, csrf_token@).1 == Some(verifier@),
                None => redeemed(old(self)@, csrf_token@).1 is None,
            },
            !final(self)@.contains_key(csrf_token@),
    {
        let verifier = match self.entries.get(csrf_token) {
            Some(v) => Some(v.clone()),
            None => None,
        };
        self.entries.remove(csrf_token);
        assert(self@ =~= old(self)@.remove(csrf_token@));
        verifier
    }
}

} // verus!
