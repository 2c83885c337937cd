//! Redirect following: the decision loop the executor runs over a chain of
//! responses.
//!
//! The transport edge fetches one response per hop and hands the chain to
//! [`follow_redirects`]; the policy decides how far to walk it. A capped
//! policy records at most its cap of hops and then fails with the
//! redirect-limit error; with redirects disabled the first response is
//! returned unfollowed.

use vstd::prelude::*;

use crate::config::RedirectPolicy;
use crate::error::Error;
use crate::http::StatusCode;

verus! {

/// One fetched response in a redirect chain, as the redirect logic sees it.
#[derive(Debug)]
pub struct RedirectHop {
    /// The status code of this response.
    pub status: StatusCode,
    /// The URL this response was fetched from.
    pub url: String,
    /// The `Location` target, when the response carries one.
    pub location: Option<String>,
    /// The headers of this response.
    pub headers: Vec<(String, Vec<u8>)>,
}

/// Whether a status code triggers redirect following: the five redirect
/// codes the transport follows.
pub open spec fn spec_is_redirect_status(s: u16) -> bool {
    s == 301 || s == 302 || s == 303 || s == 307 || s == 308
}

/// Whether a hop asks to be followed: a redirect status carrying a
/// `Location` target.
pub open spec fn spec_is_redirect(h: RedirectHop) -> bool {
    spec_is_redirect_status(h.status.0) && h.location is Some
}

/// The index of the first response in the chain that is not a redirect,
/// or the chain length when every response redirects.
pub open spec fn spec_first_final(hops: Seq<RedirectHop>) -> int
    decreases hops.len(),
{
    if hops.len() == 0 {
        0
    } else if !spec_is_redirect(hops[0]) {
        0
    } else {
        1 + spec_first_final(hops.drop_first())
    }
}

/// Walks a fetched redirect chain under a policy.
///
/// `hops[i]` is the response the transport fetched at hop `i`. Let `k` be
/// the number of leading redirects in the chain. With redirects disabled
/// the first response is returned unfollowed and no history is recorded.
/// With a cap `n`: when `k <= n` the first non-redirect response (index
/// `k`) is returned and the history holds exactly the `k` redirect hops
/// that were followed, in order; when `k > n` the call fails with the
/// redirect-limit error and the history holds exactly `n` recorded hops.
/// An uncapped policy returns index `k` with all `k` hops recorded.
///
/// Returns the index of the response to hand back and the recorded
/// history, or the error with the history recorded up to the failure.
pub fn follow_redirects(policy: RedirectPolicy, hops: &Vec<RedirectHop>) -> (r: (
    Result<usize, Error>,
    Vec<usize>,
))
    requires
        hops@.len() > 0,
        spec_first_final(hops@) < hops@.len() || (policy matches RedirectPolicy::Limited(n)
            && (n as int) < hops@.len()) || policy is NoFollow,
    ensures
        ({
            let k = spec_first_final(hops@);
            match policy {
                RedirectPolicy::NoFollow => r.0 == Ok::<usize, Error>(0usize) && r.1@.len() == 0,
                RedirectPolicy::Limited(n) => (if k <= n {
                    &&& r.0 == Ok::<usize, Error>(k as usize)
                    &&& r.1@.len() == k
                    &&& forall|j: int| 0 <= j < k ==> r.1@[j] == j
                } else {
                    &&& r.0 == Err::<usize, Error>(Error::RedirectLimit)
                    &&& r.1@.len() == n
                    &&& forall|j: int| 0 <= j < n ==> r.1@[j] == j
                }),
                RedirectPolicy::Unlimited => {
                    &&& r.0 == Ok::<usize, Error>(k as usize)
                    &&& r.1@.len() == k
                    &&& forall|j: int| 0 <= j < k ==> r.1@[j] == j
                },
            }
        }),
{
    let mut history: Vec<usize> = Vec::new();
    if let RedirectPolicy::NoFollow = policy {
        return (Ok(0), history);
    }
    let mut i: usize = 0;
    proof {
        lemma_first_final_beyond(hops@, 0);
    }
    while i < hops.len()
        invariant
            0 <= i <= hops@.len(),
            !(policy is NoFollow),
            history@.len() == i,
            forall|j: int| 0 <= j < i ==> history@[j] == j,
            forall|j: int| 0 <= j < i ==> spec_is_redirect(hops@[j]),
            spec_first_final(hops@) >= i,
            (policy matches RedirectPolicy::Limited(n) ==> i <= n),
        decreases hops@.len() - i,
    {
        let is_red = {
            let st = hops[i].status.0;
            let redirect_status = st == 301 || st == 302 || st == 303 || st == 307 || st == 308;
            redirect_status && match &hops[i].location {
                Some(_) => true,
                None => false,
            }
        };
        if !is_red {
            proof {
                lemma_first_final_at(hops@, i as int);
            }
            return (Ok(i), history);
        }
        if let RedirectPolicy::Limited(n) = policy {
            if i >= n {
                proof {
                    assert(spec_is_redirect(hops@[i as int]));
                    lemma_first_final_beyond(hops@, i as int + 1);
                }
                return (Err(Error::RedirectLimit), history);
            }
        }
        proof {
            assert(spec_is_redirect(hops@[i as int]));
            lemma_first_final_beyond(hops@, i as int + 1);
        }
        history.push(i);
        i = i + 1;
    }
    proof {
        lemma_first_final_bound(hops@);
        assert(spec_first_final(hops@) == hops@.len());
        assert(false);
    }
    (Ok(0), history)
}

/// When every response before `i` redirects and `hops[i]` does not, `i` is
/// the first final index.
proof fn lemma_first_final_at(hops: Seq<RedirectHop>, i: int)
    requires
        0 <= i < hops.len(),
        forall|j: int| 0 <= j < i ==> spec_is_redirect(hops[j]),
        !spec_is_redirect(hops[i]),
    ensures
        spec_first_final(hops) == i,
    decreases i,
{
    if i == 0 {
    } else {
        assert(spec_is_redirect(hops[0]));
        assert forall|j: int| 0 <= j < i - 1 implies spec_is_redirect(
            #[trigger] hops.drop_first()[j],
        ) by {
            assert(hops.drop_first()[j] == hops[j + 1]);
        }
        assert(!spec_is_redirect(hops.drop_first()[i - 1]));
        lemma_first_final_at(hops.drop_first(), i - 1);
    }
}

/// When every response before `i` redirects, the first final index is at
/// least `i`.
proof fn lemma_first_final_beyond(hops: Seq<RedirectHop>, i: int)
    requires
        0 <= i <= hops.len(),
        forall|j: int| 0 <= j < i ==> spec_is_redirect(hops[j]),
    ensures
        spec_first_final(hops) >= i,
    decreases i,
{
    if i == 0 {
        lemma_first_final_nonneg(hops);
    } else {
        assert(spec_is_redirect(hops[0]));
        assert forall|j: int| 0 <= j < i - 1 implies spec_is_redirect(
            #[trigger] hops.drop_first()[j],
        ) by {
            assert(hops.drop_first()[j] == hops[j + 1]);
        }
        lemma_first_final_beyond(hops.drop_first(), i - 1);
        assert(spec_first_final(hops) == 1 + spec_first_final(hops.drop_first()));
    }
}

/// The first final index is never negative.
proof fn lemma_first_final_nonneg(hops: Seq<RedirectHop>)
    ensures
        spec_first_final(hops) >= 0,
    decreases hops.len(),
{
    if hops.len() > 0 && spec_is_redirect(hops[0]) {
        lemma_first_final_nonneg(hops.drop_first());
    }
}

/// The first final index never exceeds the chain length.
pub proof fn lemma_first_final_bound(hops: Seq<RedirectHop>)
    ensures
        spec_first_final(hops) <= hops.len(),
    decreases hops.len(),
{
    if hops.len() > 0 && spec_is_redirect(hops[0]) {
        lemma_first_final_bound(hops.drop_first());
    }
}

} // verus!
