//! Name-resolution configuration and the static-override lookup.
//!
//! The live resolver is a process-wide, lazily initialized collaborator at
//! the transport edge; the engine decides which strategy it runs under and
//! whether a static override answers a name before live resolution is
//! attempted. A resolution failure is classified as the DNS error,
//! distinguishable from a generic transport error.

use vstd::multiset::Multiset;
use vstd::prelude::*;

use crate::error::Error;
use crate::http::{IpAddr, SocketAddr};

verus! {

/// The strategy an address lookup honours.
#[derive(Clone, Copy, PartialEq, Eq, Structural, Debug)]
pub enum LookupIpStrategy {
    /// Only IPv4 candidates.
    Ipv4Only,
    /// Only IPv6 candidates.
    Ipv6Only,
    /// IPv4 and IPv6 candidates interleaved.
    Ipv4AndIpv6,
    /// IPv6 candidates first, then IPv4.
    Ipv6thenIpv4,
    /// IPv4 candidates first, then IPv6.
    Ipv4thenIpv6,
}

/// Resolver options: the lookup strategy and static domain overrides.
#[derive(Debug)]
pub struct ResolverOptions {
    /// The lookup strategy for live resolution.
    pub lookup_ip_strategy: LookupIpStrategy,
    /// Static overrides, in insertion order; the first matching domain
    /// wins and shadows live resolution.
    pub resolve_to_addrs: Vec<(String, Vec<SocketAddr>)>,
}

impl ResolverOptions {
    /// Options with the given strategy and no overrides.
    pub fn new(lookup_ip_strategy: LookupIpStrategy) -> (r: ResolverOptions)
        ensures
            r.lookup_ip_strategy == lookup_ip_strategy,
            r.resolve_to_addrs@.len() == 0,
    {
        ResolverOptions { lookup_ip_strategy, resolve_to_addrs: Vec::new() }
    }

    /// Adds a static override: the domain resolves to these addresses,
    /// each carrying port zero — the connection supplies the real port.
    pub fn add_resolve(&mut self, domain: String, addrs: Vec<IpAddr>)
        ensures
            final(self).lookup_ip_strategy == old(self).lookup_ip_strategy,
            final(self).resolve_to_addrs@.len() == old(self).resolve_to_addrs@.len() + 1,
            final(self).resolve_to_addrs@.subrange(0, old(self).resolve_to_addrs@.len() as int)
                == old(self).resolve_to_addrs@,
            ({
                let added = final(self).resolve_to_addrs@.last();
                &&& added.0@ == domain@
                &&& added.1@.len() == addrs@.len()
                &&& forall|i: int|
                    0 <= i < addrs@.len() ==> (#[trigger] added.1@[i]).port == 0 && added.1@[i].ip
                        == addrs@[i]
            }),
    {
        let mut socket_addrs: Vec<SocketAddr> = Vec::new();
        let n = addrs.len();
        let mut rest = addrs;
        let ghost model = rest@;
        let mut i: usize = 0;
        while i < n
            invariant
                i <= n,
                rest@.len() == n - i,
                forall|j: int| 0 <= j < n - i ==> #[trigger] rest@[j] == model[i + j],
                socket_addrs@.len() == i,
                forall|j: int|
                    0 <= j < i ==> (#[trigger] socket_addrs@[j]).port == 0 && socket_addrs@[j].ip
                        == model[j],
            decreases n - i,
        {
            let ip = rest.remove(0);
            socket_addrs.push(SocketAddr { ip, port: 0 });
            i = i + 1;
        }
        self.resolve_to_addrs.push((domain, socket_addrs));
    }

    /// Looks a name up among the static overrides: the first override
    /// whose domain equals the name answers it, shadowing live
    /// resolution; with no match the name goes to the live resolver.
    pub fn static_lookup(&self, name: &str) -> (r: Option<&Vec<SocketAddr>>)
        ensures
            match r {
                Some(v) => exists|k: int|
                    {
                        &&& 0 <= k < self.resolve_to_addrs@.len()
                        &&& (#[trigger] self.resolve_to_addrs@[k]).0@ == name@
                        &&& v == self.resolve_to_addrs@[k].1
                        &&& forall|j: int|
                            0 <= j < k ==> (#[trigger] self.resolve_to_addrs@[j]).0@ != name@
                    },
                None => forall|j: int|
                    0 <= j < self.resolve_to_addrs@.len() ==> (
                    #[trigger] self.resolve_to_addrs@[j]).0@ != name@,
            },
    {
        let mut i: usize = 0;
        while i < self.resolve_to_addrs.len()
            invariant
                i <= self.resolve_to_addrs@.len(),
                forall|j: int| 0 <= j < i ==> (#[trigger] self.resolve_to_addrs@[j]).0@ != name@,
            decreases self.resolve_to_addrs@.len() - i,
        {
            if crate::util::str_eq(self.resolve_to_addrs[i].0.as_str(), name) {
                return Some(&self.resolve_to_addrs[i].1);
            }
            i = i + 1;
        }
        None
    }
}

/// Classifies a live-resolution outcome: a failed lookup is the DNS error
/// specifically, never a generic transport error; a successful lookup
/// passes its addresses through unchanged.
pub fn resolution_result(outcome: Option<Vec<SocketAddr>>) -> (r: Result<Vec<SocketAddr>, Error>)
    ensures
        outcome matches Some(v) ==> (r matches Ok(out) && out == v),
        outcome is None ==> r == Result::<Vec<SocketAddr>, Error>::Err(Error::Dns),
{
    match outcome {
        Some(v) => Ok(v),
        None => Err(Error::Dns),
    }
}

/// Two candidate lists interleaved, alternating, starting with the first
/// list; the leftover of the longer list follows at the end.
pub open spec fn spec_interleave(a: Seq<SocketAddr>, b: Seq<SocketAddr>) -> Seq<SocketAddr>
    decreases a.len() + b.len(),
{
    if a.len() == 0 {
        b
    } else {
        seq![a[0]] + spec_interleave(b, a.drop_first())
    }
}

/// Moves every element of `src` to the end of `dst`, keeping order.
fn append_all(dst: &mut Vec<SocketAddr>, src: Vec<SocketAddr>)
    ensures
        final(dst)@ == old(dst)@ + src@,
{
    let n = src.len();
    let ghost model = src@;
    let mut rest = src;
    let mut i: usize = 0;
    while i < n
        invariant
            i <= n,
            model.len() == n,
            rest@.len() == n - i,
            forall|j: int| 0 <= j < n - i ==> #[trigger] rest@[j] == model[i + j],
            dst@ == old(dst)@ + model.subrange(0, i as int),
        decreases n - i,
    {
        let x = rest.remove(0);
        proof {
            assert(x == model[i as int]);
        }
        dst.push(x);
        proof {
            assert(dst@ =~= old(dst)@ + model.subrange(0, i as int + 1));
        }
        i = i + 1;
    }
    proof {
        assert(model.subrange(0, n as int) =~= model);
    }
}

/// Interleaves two candidate lists, alternating, starting with the first.
fn interleave_candidates(a: Vec<SocketAddr>, b: Vec<SocketAddr>) -> (r: Vec<SocketAddr>)
    ensures
        r@ == spec_interleave(a@, b@),
    decreases a@.len() + b@.len(),
{
    let mut a = a;
    if a.len() == 0 {
        b
    } else {
        let first = a.remove(0);
        let ghost ga = a@;
        let ghost gb = b@;
        let rest = interleave_candidates(b, a);
        let mut out: Vec<SocketAddr> = Vec::new();
        out.push(first);
        append_all(&mut out, rest);
        proof {
            assert(out@ =~= seq![first] + spec_interleave(gb, ga));
        }
        out
    }
}

/// Orders resolved candidates under a lookup strategy: a single-family
/// strategy keeps only that family's list, a sequential strategy
/// concatenates in its stated order, and the combined strategy interleaves
/// the families, IPv6 leading, to race both address families.
pub fn order_candidates(
    strategy: LookupIpStrategy,
    v4: Vec<SocketAddr>,
    v6: Vec<SocketAddr>,
) -> (r: Vec<SocketAddr>)
    ensures
        strategy == LookupIpStrategy::Ipv4Only ==> r@ == v4@,
        strategy == LookupIpStrategy::Ipv6Only ==> r@ == v6@,
        strategy == LookupIpStrategy::Ipv4thenIpv6 ==> r@ == v4@ + v6@,
        strategy == LookupIpStrategy::Ipv6thenIpv4 ==> r@ == v6@ + v4@,
        strategy == LookupIpStrategy::Ipv4AndIpv6 ==> r@ == spec_interleave(v6@, v4@),
{
    match strategy {
        LookupIpStrategy::Ipv4Only => v4,
        LookupIpStrategy::Ipv6Only => v6,
        LookupIpStrategy::Ipv4thenIpv6 => {
            let mut out = v4;
            append_all(&mut out, v6);
            out
        },
        LookupIpStrategy::Ipv6thenIpv4 => {
            let mut out = v6;
            append_all(&mut out, v4);
            out
        },
        LookupIpStrategy::Ipv4AndIpv6 => interleave_candidates(v6, v4),
    }
}

/// Interleaving loses no candidate: the result holds exactly the elements
/// of both lists, each family's candidates in their original order.
pub proof fn lemma_interleave_complete(a: Seq<SocketAddr>, b: Seq<SocketAddr>)
    ensures
        spec_interleave(a, b).len() == a.len() + b.len(),
        spec_interleave(a, b).to_multiset() == a.to_multiset().add(b.to_multiset()),
    decreases a.len() + b.len(),
{
    broadcast use vstd::seq_lib::group_to_multiset_ensures;

    if a.len() == 0 {
        assert(a.to_multiset() =~= Multiset::<SocketAddr>::empty());
        assert(spec_interleave(a, b).to_multiset() =~= a.to_multiset().add(b.to_multiset()));
    } else {
        lemma_interleave_complete(b, a.drop_first());
        assert(a =~= seq![a[0]] + a.drop_first());
        vstd::seq_lib::lemma_multiset_commutative(seq![a[0]], spec_interleave(b, a.drop_first()));
        vstd::seq_lib::lemma_multiset_commutative(seq![a[0]], a.drop_first());
        assert(spec_interleave(a, b).to_multiset() =~= a.to_multiset().add(b.to_multiset()));
    }
}

} // verus!
