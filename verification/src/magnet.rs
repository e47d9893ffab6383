//! The magnet-link grammar the engine needs: pulling the info-hash out of a
//! magnet URI's bytes. The hash is the run of bytes after the first
//! `btih:` marker, up to the next `&` or the end of the URI.

use vstd::prelude::*;

verus! {

/// The bytes of the `btih:` marker that precedes the info-hash.
pub open spec fn btih_marker() -> Seq<u8> {
    seq![98u8, 116u8, 105u8, 104u8, 58u8]
}

/// The marker starts at offset `i` of `s`.
pub open spec fn marker_at(s: Seq<u8>, i: int) -> bool {
    &&& 0 <= i
    &&& i + 5 <= s.len()
    &&& s.subrange(i, i + 5) == btih_marker()
}

/// `i` is the first offset of `s` where the marker starts.
pub open spec fn first_marker_at(s: Seq<u8>, i: int) -> bool {
    &&& marker_at(s, i)
    &&& forall|j: int| 0 <= j < i ==> !marker_at(s, j)
}

/// Pulls the info-hash out of a magnet URI: the bytes after the first
/// `btih:` marker, up to the next `&` or the end. `None` exactly when the
/// URI carries no marker, or the marker is followed by an empty hash.
pub fn magnet_info_hash(uri: &Vec<u8>) -> (r: Option<Vec<u8>>)
    ensures
        match r {
            Some(h) => exists|i: int|
                #[trigger] first_marker_at(uri@, i) && h@.len() > 0 && i + 5 + h@.len()
                    <= uri@.len() && h@ == uri@.subrange(i + 5, i + 5 + h@.len()) && (i + 5
                    + h@.len() == uri@.len() || uri@[i + 5 + h@.len()] == 38) && (forall|k: int|
                    i + 5 <= k < i + 5 + h@.len() ==> uri@[k] != 38),
            None => forall|i: int| #[trigger] first_marker_at(uri@, i)
                ==> (i + 5 == uri@.len() || uri@[i + 5] == 38),
        },
{
    let n = uri.len();
    let mut i: usize = 0;
    while n - i >= 5
        invariant
            n == uri@.len(),
            i <= n,
            forall|j: int| 0 <= j < i ==> !marker_at(uri@, j),
        decreases n - i,
    {
        if uri[i] == 98 && uri[i + 1] == 116 && uri[i + 2] == 105 && uri[i + 3] == 104 && uri[i
            + 4] == 58 {
            proof {
                assert(uri@.subrange(i as int, i + 5 as int) =~= btih_marker());
                assert(first_marker_at(uri@, i as int));
            }
            let start = i + 5;
            let mut end = start;
            while end < n && uri[end] != 38
                invariant
                    n == uri@.len(),
                    start <= end <= n,
                    forall|k: int| start <= k < end ==> uri@[k] != 38,
                decreases n - end,
            {
                end = end + 1;
            }
            if end == start {
                proof {
                    assert forall|i2: int| #[trigger] first_marker_at(uri@, i2)
                        implies (i2 + 5 == uri@.len() || uri@[i2 + 5] == 38) by {
                        assert(i2 == i as int);
                    }
                }
                return None;
            }
            let mut h: Vec<u8> = Vec::new();
            let mut k = start;
            while k < end
                invariant
                    n == uri@.len(),
                    start <= k <= end <= n,
                    h@ == uri@.subrange(start as int, k as int),
                decreases end - k,
            {
                h.push(uri[k]);
                proof {
                    assert(h@ =~= uri@.subrange(start as int, k + 1 as int));
                }
                k = k + 1;
            }
            proof {
                assert(h@.len() == end - start);
                assert(h@ == uri@.subrange(i + 5 as int, i + 5 + h@.len() as int));
            }
            return Some(h);
        }
        i = i + 1;
    }
    proof {
        assert forall|i2: int| #[trigger] first_marker_at(uri@, i2)
            implies (i2 + 5 == uri@.len() || uri@[i2 + 5] == 38) by {
            assert(!marker_at(uri@, i2));
        }
    }
    None
}

} // verus!
