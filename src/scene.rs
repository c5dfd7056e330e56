use vstd::prelude::*;

verus! {

/// Sign bit of a 64-bit IEEE 754 word.
pub const SIGN_BIT: u64 = 0x8000_0000_0000_0000;

/// The ordering key of the bits of a 64-bit float: the sign bit set on a
/// non-negative number, every bit flipped on a negative one. Among numbers
/// that are not NaN, a smaller float has a smaller key (and -0 sorts just
/// below +0), so the nearest hit can be chosen on integers.
pub open spec fn order_key_spec(bits: u64) -> u64 {
    if bits < SIGN_BIT {
        (bits + SIGN_BIT) as u64
    } else {
        (u64::MAX - bits) as u64
    }
}

/// The ordering key of the bits of a hit distance.
pub fn order_key(bits: u64) -> (r: u64)
    ensures
        r == order_key_spec(bits),
{
    if bits < SIGN_BIT {
        bits + SIGN_BIT
    } else {
        u64::MAX - bits
    }
}

/// `k` is the position of the nearest candidate: a hit whose key is at most
/// every other hit's key and below the key of every earlier hit, so that the
/// first inserted wins a tie.
pub open spec fn is_nearest(keys: Seq<Option<u64>>, k: int) -> bool {
    &&& 0 <= k < keys.len()
    &&& keys[k] is Some
    &&& forall|i: int|
        0 <= i < keys.len() && #[trigger] keys[i] is Some ==> keys[k]->0 <= keys[i]->0 && (i < k
            ==> keys[k]->0 < keys[i]->0)
}

/// No candidate is a hit.
pub open spec fn no_hit(keys: Seq<Option<u64>>) -> bool {
    forall|i: int| 0 <= i < keys.len() ==> #[trigger] keys[i] is None
}

/// The key `x` belongs to some hit among the candidates.
pub open spec fn has_key(keys: Seq<Option<u64>>, x: u64) -> bool {
    exists|i: int| 0 <= i < keys.len() && #[trigger] keys[i] == Some(x)
}

/// Chooses among the objects of a scene, each of which reported for one ray
/// either no hit or a hit whose distance has the given key: the nearest hit,
/// the first inserted among equal keys, or `None` when nothing was hit.
pub fn nearest(keys: &Vec<Option<u64>>) -> (r: Option<usize>)
    ensures
        r is None <==> no_hit(keys@),
        r matches Some(k) ==> is_nearest(keys@, k as int),
{
    let mut best: Option<usize> = None;
    let mut i: usize = 0;
    while i < keys.len()
        invariant
            i <= keys@.len(),
            best is None <==> no_hit(keys@.subrange(0, i as int)),
            best matches Some(k) ==> is_nearest(keys@.subrange(0, i as int), k as int),
        decreases keys@.len() - i,
    {
        let ghost prev = keys@.subrange(0, i as int);
        let ghost next = keys@.subrange(0, i + 1);
        assert(next == prev.push(keys@[i as int]));
        match keys[i] {
            Some(t) => {
                match best {
                    Some(k) => {
                        if t < keys[k].unwrap() {
                            best = Some(i);
                        }
                    },
                    None => {
                        best = Some(i);
                    },
                }
            },
            None => {},
        }
        proof {
            if best is None {
                assert forall|j: int| 0 <= j < next.len() implies #[trigger] next[j] is None by {
                    if j < i {
                        assert(prev[j] is None);
                    }
                }
            } else {
                assert(!no_hit(next)) by {
                    let k = best->0 as int;
                    assert(next[k] is Some);
                }
            }
        }
        i = i + 1;
    }
    assert(keys@.subrange(0, keys@.len() as int) == keys@);
    best
}

/// The nearest hit does not depend on the order in which the objects were
/// inserted: two scenes whose hits have the same keys, in any order, choose
/// hits with the same key.
pub proof fn lemma_nearest_key_order_independent(
    a: Seq<Option<u64>>,
    b: Seq<Option<u64>>,
    i: int,
    j: int,
)
    requires
        forall|x: u64| has_key(a, x) <==> has_key(b, x),
        is_nearest(a, i),
        is_nearest(b, j),
    ensures
        a[i] == b[j],
{
    let x = a[i]->0;
    let y = b[j]->0;
    assert(has_key(a, x));
    assert(has_key(b, y));
    let ib = choose|k: int| 0 <= k < b.len() && #[trigger] b[k] == Some(x);
    let ia = choose|k: int| 0 <= k < a.len() && #[trigger] a[k] == Some(y);
    assert(b[ib] is Some);
    assert(a[ia] is Some);
}

} // verus!
