//! The ordered set of monitored resources, as far as routing needs it: each
//! resource's kind and stable identity.

use vstd::prelude::*;
use crate::ring::{Ring, after_insert, filled, min_nat, lemma_occupancy};

verus! {

/// The kind of a monitored resource.
#[derive(Debug, Clone, Copy, PartialEq, Eq, Structural)]
pub enum ResourceKind {
    CPU,
    Memory,
    GPU,
    Drive,
    Network,
    Battery,
    Process,
}

/// A resource's kind and the identity its sensor responses carry.
#[derive(Debug, Clone)]
pub struct ResourceTag {
    pub kind: ResourceKind,
    pub id: String,
}

/// Whether a response of `kind` with identity `id` belongs to `tag`: same
/// kind and same identity.
pub open spec fn tag_matches(tag: ResourceTag, kind: ResourceKind, id: Seq<char>) -> bool {
    tag.kind == kind && tag.id@ == id
}

/// The index of the first resource that a response belongs to, if any.
pub open spec fn route_target(tags: Seq<ResourceTag>, kind: ResourceKind, id: Seq<char>) -> Option<
    int,
> {
    if exists|i: int| 0 <= i < tags.len() && tag_matches(tags[i], kind, id) {
        Some(
            choose|i: int|
                0 <= i < tags.len() && tag_matches(tags[i], kind, id) && forall|j: int|
                    0 <= j < i ==> !tag_matches(#[trigger] tags[j], kind, id),
        )
    } else {
        None
    }
}

/// Finds the resource a sensor response belongs to: the first in registry
/// order whose kind and identity match. `None` is a benign miss.
pub fn route(tags: &Vec<ResourceTag>, kind: ResourceKind, id: &String) -> (r: Option<usize>)
    ensures
        match r {
            Some(i) => {
                &&& i < tags.len()
                &&& tag_matches(tags@[i as int], kind, id@)
                &&& forall|j: int| 0 <= j < i ==> !tag_matches(#[trigger] tags@[j], kind, id@)
            },
            None => forall|j: int| 0 <= j < tags.len() ==> !tag_matches(#[trigger] tags@[j], kind, id@),
        },
{
    let mut i: usize = 0;
    while i < tags.len()
        invariant
            i <= tags.len(),
            forall|j: int| 0 <= j < i ==> !tag_matches(#[trigger] tags@[j], kind, id@),
        decreases tags.len() - i,
    {
        let t = &tags[i];
        if t.kind == kind && t.id == *id {
            return Some(i);
        }
        i = i + 1;
    }
    None
}

/// Routing is unique: the first resource whose kind and identity match a
/// response (the index `route` returns) is the only target `route_target`
/// names, so every other resource is left alone.
pub proof fn lemma_route_is_unique(tags: Seq<ResourceTag>, kind: ResourceKind, id: Seq<char>, i: int)
    requires
        0 <= i < tags.len(),
        tag_matches(tags[i], kind, id),
        forall|j: int| 0 <= j < i ==> !tag_matches(#[trigger] tags[j], kind, id),
    ensures
        route_target(tags, kind, id) == Some(i),
{
    let k = choose|k: int|
        0 <= k < tags.len() && tag_matches(tags[k], kind, id) && forall|j: int|
            0 <= j < k ==> !tag_matches(#[trigger] tags[j], kind, id);
    assert(0 <= k < tags.len() && tag_matches(tags[k], kind, id));
    if k < i {
        assert(!tag_matches(tags[k], kind, id));
    }
    if i < k {
        assert(!tag_matches(tags[i], kind, id));
    }
}

/// The histories after sample `v` is recorded for resource `i`.
pub open spec fn recorded<T>(hs: Seq<Seq<T>>, caps: Seq<nat>, i: int, v: T) -> Seq<Seq<T>> {
    hs.update(i, after_insert(hs[i], caps[i], v))
}

/// The histories after the samples `ds` (resource index, value) are
/// recorded in order.
pub open spec fn recorded_all<T>(hs: Seq<Seq<T>>, caps: Seq<nat>, ds: Seq<(int, T)>) -> Seq<Seq<T>>
    decreases ds.len(),
{
    if ds.len() == 0 {
        hs
    } else {
        recorded(recorded_all(hs, caps, ds.drop_last()), caps, ds.last().0, ds.last().1)
    }
}

/// Records sample `v` in the history of resource `i`; every other history
/// is left as it was.
pub fn record<T>(rings: &mut Vec<Ring<T>>, i: usize, v: T)
    requires
        i < old(rings).len(),
        forall|j: int| 0 <= j < old(rings).len() ==> (#[trigger] old(rings)[j]).wf(),
    ensures
        final(rings).len() == old(rings).len(),
        forall|j: int| 0 <= j < final(rings).len() ==> (#[trigger] final(rings)[j]).wf(),
        forall|j: int|
            0 <= j < final(rings).len() ==> (#[trigger] final(rings)[j]).capacity() == old(rings)[j].capacity(),
        forall|j: int| 0 <= j < final(rings).len() && j != i ==> #[trigger] final(rings)[j] == old(rings)[j],
        final(rings)[i as int]@ == after_insert(old(rings)[i as int]@, old(rings)[i as int].capacity(), v),
{
    let mut r = rings.remove(i);
    r.insert_at_first(v);
    rings.insert(i, r);
    proof {
        assert forall|j: int| 0 <= j < rings.len() && j != i implies #[trigger] rings[j] == old(rings)[j] by {
            if j < i {
            } else {
                assert(rings[j] == old(rings)[j]);
            }
        }
    }
}

/// Isolation: resource A's fetch fails on every pass, so no response of A
/// is ever delivered, while each of B's `m` responses is routed by B's
/// identity and recorded. Then A's history is untouched and B's, starting
/// empty, holds the last `min(m, capacity)` of its samples, newest first.
pub proof fn lemma_failing_resource_isolated<T>(
    tags: Seq<ResourceTag>,
    hs: Seq<Seq<T>>,
    caps: Seq<nat>,
    a: int,
    b: int,
    vals: Seq<T>,
)
    requires
        hs.len() == tags.len(),
        caps.len() == tags.len(),
        0 <= a < tags.len(),
        0 <= b < tags.len(),
        a != b,
        hs[b] == Seq::<T>::empty(),
        route_target(tags, tags[b].kind, tags[b].id@) == Some(b),
    ensures
        ({
            let ds = vals.map_values(|v: T| (route_target(tags, tags[b].kind, tags[b].id@)->0, v));
            let after = recorded_all(hs, caps, ds);
            &&& after.len() == hs.len()
            &&& after[a] == hs[a]
            &&& after[b] == filled(caps[b], vals)
            &&& after[b].len() == min_nat(vals.len(), caps[b])
        }),
    decreases vals.len(),
{
    let ds = vals.map_values(|v: T| (route_target(tags, tags[b].kind, tags[b].id@)->0, v));
    if vals.len() > 0 {
        lemma_failing_resource_isolated(tags, hs, caps, a, b, vals.drop_last());
        assert(ds.drop_last() =~= vals.drop_last().map_values(
            |v: T| (route_target(tags, tags[b].kind, tags[b].id@)->0, v),
        ));
    } else {
        assert(filled(caps[b], vals) =~= Seq::<T>::empty());
    }
    lemma_occupancy(caps[b], vals);
}

/// `s` without repeats: each value at its first occurrence, in order.
pub open spec fn unique_values(s: Seq<Seq<char>>) -> Seq<Seq<char>>
    decreases s.len(),
{
    if s.len() == 0 {
        Seq::empty()
    } else if s.drop_last().contains(s.last()) {
        unique_values(s.drop_last())
    } else {
        unique_values(s.drop_last()).push(s.last())
    }
}

proof fn lemma_unique_values_contains(s: Seq<Seq<char>>, x: Seq<char>)
    ensures
        unique_values(s).contains(x) <==> s.contains(x),
    decreases s.len(),
{
    if s.len() > 0 {
        let p = s.drop_last();
        let up = unique_values(p);
        lemma_unique_values_contains(p, x);
        // In `s`, `x` is either in `p` or the last value.
        assert(s.contains(x) <==> (p.contains(x) || x == s.last())) by {
            if s.contains(x) {
                let k = choose|k: int| 0 <= k < s.len() && s[k] == x;
                if k < s.len() - 1 {
                    assert(p[k] == x);
                }
            }
            if p.contains(x) {
                let k = choose|k: int| 0 <= k < p.len() && p[k] == x;
                assert(s[k] == x);
            }
            if x == s.last() {
                assert(s[s.len() - 1] == x);
            }
        }
        if !p.contains(s.last()) {
            let u = up.push(s.last());
            assert(u.contains(x) <==> (up.contains(x) || x == s.last())) by {
                if u.contains(x) {
                    let k = choose|k: int| 0 <= k < u.len() && u[k] == x;
                    if k < up.len() {
                        assert(up[k] == x);
                    }
                }
                if up.contains(x) {
                    let k = choose|k: int| 0 <= k < up.len() && up[k] == x;
                    assert(u[k] == x);
                }
                if x == s.last() {
                    assert(u[u.len() - 1] == x);
                }
            }
        }
    }
}

/// The distinct values of `vs`, each at its first occurrence, in order.
pub fn map_all_unique(vs: &Vec<String>) -> (r: Vec<String>)
    ensures
        r@.map_values(|v: String| v@) == unique_values(vs@.map_values(|v: String| v@)),
{
    let ghost all = vs@.map_values(|v: String| v@);
    let mut out: Vec<String> = Vec::new();
    let mut i: usize = 0;
    while i < vs.len()
        invariant
            i <= vs.len(),
            all == vs@.map_values(|v: String| v@),
            out@.map_values(|v: String| v@) == unique_values(all.take(i as int)),
        decreases vs.len() - i,
    {
        let ghost pre = all.take(i as int);
        let ghost cur = all.take(i + 1);
        assert(cur.drop_last() =~= pre);
        assert(cur.last() == vs@[i as int]@);
        let mut seen = false;
        let mut j: usize = 0;
        while j < out.len()
            invariant
                j <= out.len(),
                i < vs.len(),
                seen == (exists|k: int| 0 <= k < j && out@[k]@ == vs@[i as int]@),
            decreases out.len() - j,
        {
            if out[j] == vs[i] {
                seen = true;
            }
            j = j + 1;
        }
        proof {
            let u = out@.map_values(|v: String| v@);
            lemma_unique_values_contains(pre, vs@[i as int]@);
            if seen {
                let k = choose|k: int| 0 <= k < j && out@[k]@ == vs@[i as int]@;
                assert(u[k] == vs@[i as int]@);
            } else {
                assert forall|k: int| 0 <= k < u.len() implies u[k] != vs@[i as int]@ by {
                    assert(out@[k]@ == u[k]);
                }
            }
        }
        if !seen {
            out.push(vs[i].clone());
            proof {
                assert(out@.map_values(|v: String| v@) =~= unique_values(pre).push(vs@[i as int]@));
            }
        }
        i = i + 1;
    }
    assert(all.take(i as int) =~= all);
    out
}

} // verus!
