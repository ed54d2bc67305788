use vstd::prelude::*;

use crate::error::Error;
use crate::ids::{is_id, new_ulid};

verus! {

/// Nonces that have been claimed so far. Callers share one store between
/// concurrent sends (behind a lock), so each claim is an atomic
/// check-and-insert.
#[derive(Clone, Debug)]
pub struct NonceStore {
    pub claimed: Vec<String>,
}

impl View for NonceStore {
    type V = Seq<Seq<char>>;

    open spec fn view(&self) -> Seq<Seq<char>> {
        self.claimed@.map_values(|s: String| s@)
    }
}

/// Outcome of claiming `nonce` in a store holding `claimed`, and the store
/// afterwards.
pub open spec fn consume_spec(claimed: Seq<Seq<char>>, nonce: Option<Seq<char>>) -> (
    Result<(), Error>,
    Seq<Seq<char>>,
) {
    match nonce {
        None => (Ok(()), claimed),
        Some(n) => if claimed.contains(n) {
            (Err(Error::InvalidOperation), claimed)
        } else {
            (Ok(()), claimed.push(n))
        },
    }
}

impl NonceStore {
    /// An empty store.
    pub fn new() -> (r: NonceStore)
        ensures
            r@ == Seq::<Seq<char>>::empty(),
    {
        let r = NonceStore { claimed: Vec::new() };
        assert(r@ =~= Seq::<Seq<char>>::empty());
        r
    }

    /// Whether `nonce` has been claimed.
    pub fn is_claimed(&self, nonce: &String) -> (r: bool)
        ensures
            r == self@.contains(nonce@),
    {
        let mut i: usize = 0;
        while i < self.claimed.len()
            invariant
                i <= self.claimed@.len(),
                forall|k: int| 0 <= k < i ==> self.claimed@[k]@ != nonce@,
            decreases self.claimed@.len() - i,
        {
            if self.claimed[i] == *nonce {
                assert(self@[i as int] == nonce@);
                return true;
            }
            i = i + 1;
        }
        proof {
            if self@.contains(nonce@) {
                let k = choose|k: int| 0 <= k < self@.len() && self@[k] == nonce@;
                assert(self.claimed@[k]@ == nonce@);
            }
        }
        false
    }
}

/// Per-request deduplication key: the client's nonce once claimed, else a
/// fresh id. Its value is echoed back to the client as the message's nonce.
#[derive(Clone, Debug)]
pub struct IdempotencyKey {
    key: String,
}

impl IdempotencyKey {
    /// The key's current value.
    pub closed spec fn key_view(&self) -> Seq<char> {
        self.key@
    }

    /// A key holding a fresh id, for a request that brings no nonce.
    pub fn new() -> (r: IdempotencyKey)
        ensures
            is_id(r.key_view()),
    {
        IdempotencyKey { key: new_ulid() }
    }

    /// Claims the client's nonce in `store`. Without a nonce nothing is
    /// claimed; a nonce claimed before fails with `InvalidOperation` and
    /// changes nothing; a new one is claimed and becomes this key's value.
    pub fn consume_nonce(&mut self, store: &mut NonceStore, nonce: Option<String>) -> (r: Result<
        (),
        Error,
    >)
        ensures
            (r, final(store)@) == consume_spec(
                old(store)@,
                match nonce {
                    Some(n) => Some(n@),
                    None => None,
                },
            ),
            final(self).key_view() == match nonce {
                Some(n) => if r is Ok {
                    n@
                } else {
                    old(self).key_view()
                },
                None => old(self).key_view(),
            },
    {
        match nonce {
            None => Ok(()),
            Some(n) => {
                if store.is_claimed(&n) {
                    Err(Error::InvalidOperation)
                } else {
                    let ghost prev = store@;
                    store.claimed.push(n.clone());
                    assert(store@ =~= prev.push(n@));
                    self.key = n;
                    Ok(())
                }
            },
        }
    }

    /// The value echoed back to the client.
    pub fn into_key(self) -> (r: String)
        ensures
            r@ == self.key_view(),
    {
        self.key
    }
}

/// A nonce is accepted at most once: after one claim succeeds, every later
/// claim of the same nonce fails with `InvalidOperation` and leaves the
/// store unchanged.
pub proof fn lemma_nonce_claimed_once(claimed: Seq<Seq<char>>, n: Seq<char>)
    ensures
        consume_spec(claimed, Some(n)).0 is Ok ==> ({
            let after = consume_spec(claimed, Some(n)).1;
            consume_spec(after, Some(n)) == (Err::<(), Error>(Error::InvalidOperation), after)
        }),
        consume_spec(claimed, Some(n)).0 is Err ==> consume_spec(claimed, Some(n)).1 == claimed,
{
    if !claimed.contains(n) {
        assert(claimed.push(n)[claimed.len() as int] == n);
    }
}

} // verus!
