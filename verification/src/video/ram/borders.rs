//! Sorted sets of VRAM addresses: the borders between the regions that the
//! background and sprite registers point at.
use vstd::prelude::*;

verus! {

/// End of VRAM (64kB), one past the last address.
pub const VRAM_END_ADDR: u32 = 64 * 1024;

/// A sequence in strictly increasing order.
pub open spec fn strictly_sorted(s: Seq<u16>) -> bool {
    forall|i: int, j: int| 0 <= i < j < s.len() ==> s[i] < s[j]
}

/// Insert `x` into a strictly sorted vector, keeping it sorted and without
/// duplicates.
pub fn insert_sorted(v: &mut Vec<u16>, x: u16)
    requires
        strictly_sorted(old(v)@),
    ensures
        strictly_sorted(final(v)@),
        final(v)@.to_set() == old(v)@.to_set().insert(x),
{
    let mut i: usize = 0;
    while i < v.len() && v[i] < x
        invariant
            i <= v.len(),
            forall|j: int| 0 <= j < i ==> v@[j] < x,
        decreases v.len() - i,
    {
        i = i + 1;
    }
    if i < v.len() && v[i] == x {
        assert(v@.to_set().insert(x) =~= v@.to_set()) by {
            assert(v@.contains(x));
        }
        return;
    }
    let ghost old_v = v@;
    v.insert(i, x);
    proof {
        assert(v@ == old_v.subrange(0, i as int).push(x) + old_v.subrange(i as int, old_v.len() as int));
        assert forall|a: int, b: int| 0 <= a < b < v@.len() implies v@[a] < v@[b] by {
            if a < i && b > i {
                assert(v@[b] == old_v[b - 1]);
                assert(old_v[b - 1] >= x) by {
                    assert(old_v[i as int] > x);
                    if b - 1 > i {
                        assert(old_v[i as int] < old_v[b - 1]);
                    }
                }
            } else if a < i && b == i {
            } else if a == i {
                assert(v@[b] == old_v[b - 1]);
                assert(old_v[b - 1] > x) by {
                    assert(old_v[i as int] > x);
                    if b - 1 > i {
                        assert(old_v[i as int] < old_v[b - 1]);
                    }
                }
            } else if a > i {
                assert(v@[a] == old_v[a - 1]);
                assert(v@[b] == old_v[b - 1]);
            } else {
                assert(v@[a] == old_v[a]);
                assert(v@[b] == old_v[b]);
            }
        }
        assert forall|y: u16| v@.to_set().contains(y) <==> old_v.to_set().insert(x).contains(y) by {
            if v@.contains(y) {
                let k = choose|k: int| 0 <= k < v@.len() && v@[k] == y;
                if k < i {
                    assert(old_v[k] == y);
                } else if k > i {
                    assert(old_v[k - 1] == y);
                }
            }
            if old_v.contains(y) {
                let k = choose|k: int| 0 <= k < old_v.len() && old_v[k] == y;
                if k < i {
                    assert(v@[k] == y);
                } else {
                    assert(v@[k + 1] == y);
                }
            }
            if y == x {
                assert(v@[i as int] == x);
            }
        }
        assert(v@.to_set() =~= old_v.to_set().insert(x));
    }
}

/// The end of the region that starts at `start`: the next border after it,
/// or the end of VRAM when `start` is the last border or not a border.
#[verifier::opaque]
pub open spec fn region_end(borders: Set<u16>, start: u16) -> int {
    if borders.contains(start) && (exists|b: u16| borders.contains(b) && b > start) {
        (choose|b: u16| borders.contains(b) && b > start && (forall|c: u16| #[trigger] borders.contains(c) && c > start ==> b <= c)) as int
    } else {
        VRAM_END_ADDR as int
    }
}

/// The end of the region starting at `start`, read from a strictly sorted
/// vector of borders.
pub fn find_region_end(borders: &Vec<u16>, start: u16) -> (r: u32)
    requires
        strictly_sorted(borders@),
    ensures
        r == region_end(borders@.to_set(), start),
        start < r <= VRAM_END_ADDR,
{
    reveal(region_end);
    let mut i: usize = 0;
    while i < borders.len()
        invariant
            i <= borders.len(),
            strictly_sorted(borders@),
            forall|j: int| 0 <= j < i ==> borders@[j] != start,
        decreases borders.len() - i,
    {
        if borders[i] == start {
            if i + 1 < borders.len() {
                let b = borders[i + 1];
                proof {
                    reveal(region_end);
                    let s = borders@.to_set();
                    assert(borders@[i as int] == start);
                    assert(borders@[i + 1] == b);
                    assert(s.contains(start));
                    assert(s.contains(b) && b > start);
                    assert forall|c: u16| #[trigger] s.contains(c) && c > start implies b <= c by {
                        let k = choose|k: int| 0 <= k < borders@.len() && borders@[k] == c;
                        if k <= i {
                            if k < i {
                                assert(borders@[k] < borders@[i as int]);
                            }
                        } else if k > i + 1 {
                            assert(borders@[i + 1] < borders@[k]);
                        }
                    }
                    let m = choose|m: u16| s.contains(m) && m > start && (forall|c: u16| #[trigger] s.contains(c) && c > start ==> m <= c);
                    assert(m <= b && b <= m);
                }
                return b as u32;
            } else {
                proof {
                    reveal(region_end);
                    let s = borders@.to_set();
                    assert forall|c: u16| s.contains(c) implies c <= start by {
                        let k = choose|k: int| 0 <= k < borders@.len() && borders@[k] == c;
                        if k < i {
                            assert(borders@[k] < borders@[i as int]);
                        }
                    }
                }
                return VRAM_END_ADDR;
            }
        }
        i = i + 1;
    }
    proof {
        assert(!borders@.to_set().contains(start)) by {
            if borders@.contains(start) {
                let k = choose|k: int| 0 <= k < borders@.len() && borders@[k] == start;
                assert(borders@[k] != start);
            }
        }
    }
    VRAM_END_ADDR
}

} // verus!
