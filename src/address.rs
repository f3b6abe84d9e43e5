use vstd::prelude::*;

verus! {

/// An IP address as reported for a network adapter.
///
/// An IPv4 address is held as its 32-bit value with the first octet most
/// significant; an IPv6 address as its 128-bit value, likewise.
#[derive(Clone, Copy, Debug, PartialEq, Eq, Structural)]
pub enum IpAddress {
    V4(u32),
    V6(u128),
}

/// First octet of an IPv4 address.
pub open spec fn first_octet(a: u32) -> u32 {
    a / 0x0100_0000
}

/// 127.0.0.0/8.
pub open spec fn v4_is_loopback(a: u32) -> bool {
    first_octet(a) == 127
}

/// 224.0.0.0/4.
pub open spec fn v4_is_multicast(a: u32) -> bool {
    224 <= first_octet(a) && first_octet(a) <= 239
}

/// An IPv4 address that belongs in a snapshot: neither loopback nor multicast.
pub open spec fn v4_is_kept(a: u32) -> bool {
    !v4_is_loopback(a) && !v4_is_multicast(a)
}

/// `::1`.
pub open spec fn v6_is_loopback(a: u128) -> bool {
    a == 1
}

/// `ff00::/8`.
pub open spec fn v6_is_multicast(a: u128) -> bool {
    a / 0x0100_0000_0000_0000_0000_0000_0000_0000 == 0xff
}

impl IpAddress {
    pub open spec fn spec_is_loopback(self) -> bool {
        match self {
            IpAddress::V4(a) => v4_is_loopback(a),
            IpAddress::V6(a) => v6_is_loopback(a),
        }
    }

    pub open spec fn spec_is_multicast(self) -> bool {
        match self {
            IpAddress::V4(a) => v4_is_multicast(a),
            IpAddress::V6(a) => v6_is_multicast(a),
        }
    }

    /// The IPv4 address `a.b.c.d`.
    pub fn v4(a: u8, b: u8, c: u8, d: u8) -> (r: IpAddress)
        ensures
            r == IpAddress::V4(octets_value(a, b, c, d)),
    {
        assert((a as u32) * 0x0100_0000 + (b as u32) * 0x0001_0000 + (c as u32) * 0x0100 + (d as u32)
            <= 0xffff_ffff) by (nonlinear_arith)
            requires a <= 255, b <= 255, c <= 255, d <= 255;
        IpAddress::V4(
            (a as u32) * 0x0100_0000 + (b as u32) * 0x0001_0000 + (c as u32) * 0x0100 + (d as u32),
        )
    }

    pub fn is_ipv4(&self) -> (r: bool)
        ensures
            r == (*self is V4),
    {
        match self {
            IpAddress::V4(_) => true,
            IpAddress::V6(_) => false,
        }
    }

    pub fn is_loopback(&self) -> (r: bool)
        ensures
            r == self.spec_is_loopback(),
    {
        match self {
            IpAddress::V4(a) => *a / 0x0100_0000 == 127,
            IpAddress::V6(a) => *a == 1,
        }
    }

    pub fn is_multicast(&self) -> (r: bool)
        ensures
            r == self.spec_is_multicast(),
    {
        match self {
            IpAddress::V4(a) => 224 <= *a / 0x0100_0000 && *a / 0x0100_0000 <= 239,
            IpAddress::V6(a) => *a / 0x0100_0000_0000_0000_0000_0000_0000_0000 == 0xff,
        }
    }
}

/// The 32-bit value of the IPv4 address `a.b.c.d`.
pub open spec fn octets_value(a: u8, b: u8, c: u8, d: u8) -> u32 {
    ((a as u32) * 0x0100_0000 + (b as u32) * 0x0001_0000 + (c as u32) * 0x0100 + (d as u32)) as u32
}

/// `v` is reported, as an IPv4 address, somewhere in `addrs`.
pub open spec fn reported(addrs: Seq<IpAddress>, v: u32) -> bool {
    exists|i: int| 0 <= i < addrs.len() && addrs[i] == IpAddress::V4(v)
}

pub open spec fn strictly_increasing(s: Seq<u32>) -> bool {
    forall|i: int, j: int| 0 <= i < j < s.len() ==> s[i] < s[j]
}

/// `s` is the snapshot of `addrs`: the IPv4 addresses among them that are
/// neither loopback nor multicast, each once, in ascending order.
pub open spec fn is_snapshot_of(s: Seq<u32>, addrs: Seq<IpAddress>) -> bool {
    &&& strictly_increasing(s)
    &&& forall|v: u32| #[trigger] s.contains(v) <==> (reported(addrs, v) && v4_is_kept(v))
}

/// Adds `x` to a strictly increasing vector, keeping it so.
fn insert_sorted(v: &mut Vec<u32>, x: u32)
    requires
        strictly_increasing(old(v)@),
    ensures
        strictly_increasing(final(v)@),
        forall|y: u32| final(v)@.contains(y) <==> (old(v)@.contains(y) || y == x),
{
    let mut i: usize = 0;
    while i < v.len() && v[i] < x
        invariant
            0 <= i <= v.len(),
            forall|k: int| 0 <= k < i ==> v@[k] < x,
        decreases v.len() - i,
    {
        i += 1;
    }
    if i < v.len() && v[i] == x {
        return;
    }
    let ghost before = v@;
    v.insert(i, x);
    proof {
        let after = v@;
        assert(after == before.insert(i as int, x));
        assert forall|a: int, b: int| 0 <= a < b < after.len() implies after[a] < after[b] by {
            if b < i {
            } else if b == i {
            } else if a < i {
                assert(before[b - 1] > x || b - 1 == i as int);
            } else if a == i {
                assert(before[i as int] > x);
                assert(before[i as int] <= before[b - 1]);
            } else {
            }
        }
        assert forall|y: u32| after.contains(y) <==> (before.contains(y) || y == x) by {
            if after.contains(y) {
                let k = choose|k: int| 0 <= k < after.len() && after[k] == y;
                if k < i {
                    assert(before[k] == y);
                } else if k > i {
                    assert(before[k - 1] == y);
                }
            }
            if before.contains(y) {
                let k = choose|k: int| 0 <= k < before.len() && before[k] == y;
                if k < i {
                    assert(after[k] == y);
                } else {
                    assert(after[k + 1] == y);
                }
            }
            if y == x {
                assert(after[i as int] == y);
            }
        }
    }
}

/// The snapshot of the addresses reported by all adapters: the IPv4
/// addresses that are neither loopback nor multicast, without duplicates,
/// in ascending order.
pub fn snapshot(addrs: &Vec<IpAddress>) -> (r: Vec<u32>)
    ensures
        is_snapshot_of(r@, addrs@),
{
    let mut r: Vec<u32> = Vec::new();
    let mut i: usize = 0;
    while i < addrs.len()
        invariant
            0 <= i <= addrs.len(),
            strictly_increasing(r@),
            forall|v: u32|
                #[trigger] r@.contains(v) <==> (reported(addrs@.subrange(0, i as int), v)
                    && v4_is_kept(v)),
        decreases addrs.len() - i,
    {
        let a = addrs[i];
        let ghost prev = r@;
        let ghost done = addrs@.subrange(0, i as int);
        let ghost next = addrs@.subrange(0, i + 1);
        proof {
            assert forall|v: u32| #[trigger] reported(next, v) <==> (reported(done, v) || a
                == IpAddress::V4(v)) by {
                if reported(next, v) {
                    let k = choose|k: int| 0 <= k < next.len() && next[k] == IpAddress::V4(v);
                    if k < i {
                        assert(done[k] == IpAddress::V4(v));
                    }
                }
                if reported(done, v) {
                    let k = choose|k: int| 0 <= k < done.len() && done[k] == IpAddress::V4(v);
                    assert(next[k] == IpAddress::V4(v));
                }
                if a == IpAddress::V4(v) {
                    assert(next[i as int] == IpAddress::V4(v));
                }
            }
        }
        if a.is_ipv4() && !a.is_loopback() && !a.is_multicast() {
            if let IpAddress::V4(x) = a {
                insert_sorted(&mut r, x);
                assert forall|v: u32| #[trigger] r@.contains(v) <==> (reported(next, v)
                    && v4_is_kept(v)) by {
                    assert(prev.contains(v) <==> (reported(done, v) && v4_is_kept(v)));
                }
            }
        } else {
            assert forall|v: u32| #[trigger] r@.contains(v) <==> (reported(next, v) && v4_is_kept(
                v,
            )) by {
                assert(prev.contains(v) <==> (reported(done, v) && v4_is_kept(v)));
            }
        }
        i += 1;
    }
    assert(addrs@.subrange(0, addrs.len() as int) == addrs@);
    assert forall|v: u32| #[trigger] r@.contains(v) <==> (reported(addrs@, v) && v4_is_kept(v)) by {
        assert(r@.contains(v) <==> (reported(addrs@.subrange(0, addrs.len() as int), v)
            && v4_is_kept(v)));
    }
    r
}

/// A snapshot holds no address twice, however often the adapters report it.
pub proof fn lemma_snapshot_no_duplicates(addrs: Seq<IpAddress>, s: Seq<u32>)
    requires
        is_snapshot_of(s, addrs),
    ensures
        s.no_duplicates(),
{
    assert forall|i: int, j: int| 0 <= i < s.len() && 0 <= j < s.len() && i != j implies s[i]
        != s[j] by {
        if i < j {
        } else {
        }
    }
}

/// Every address of a snapshot was reported as IPv4 and is neither loopback
/// nor multicast: no loopback, multicast or IPv6 entry gets in.
pub proof fn lemma_snapshot_filtered(addrs: Seq<IpAddress>, s: Seq<u32>)
    requires
        is_snapshot_of(s, addrs),
    ensures
        forall|i: int|
            0 <= i < s.len() ==> !v4_is_loopback(#[trigger] s[i]) && !v4_is_multicast(s[i])
                && reported(addrs, s[i]),
{
    assert forall|i: int| 0 <= i < s.len() implies !v4_is_loopback(#[trigger] s[i])
        && !v4_is_multicast(s[i]) && reported(addrs, s[i]) by {
        assert(s.contains(s[i]));
        assert(reported(addrs, s[i]) && v4_is_kept(s[i]));
    }
}

/// The snapshot of a list of addresses is determined by the list.
pub proof fn lemma_snapshot_unique(addrs: Seq<IpAddress>, s: Seq<u32>, t: Seq<u32>)
    requires
        is_snapshot_of(s, addrs),
        is_snapshot_of(t, addrs),
    ensures
        s == t,
{
    assert forall|v: u32| s.contains(v) <==> t.contains(v) by {
        assert(s.contains(v) <==> (reported(addrs, v) && v4_is_kept(v)));
        assert(t.contains(v) <==> (reported(addrs, v) && v4_is_kept(v)));
    }
    lemma_increasing_equal_sets(s, t);
}

proof fn lemma_increasing_equal_sets(s: Seq<u32>, t: Seq<u32>)
    requires
        strictly_increasing(s),
        strictly_increasing(t),
        forall|v: u32| s.contains(v) <==> t.contains(v),
    ensures
        s == t,
    decreases s.len() + t.len(),
{
    if s.len() == 0 {
        if t.len() > 0 {
            assert(t.contains(t[0]));
        }
        assert(s =~= t);
    } else if t.len() == 0 {
        assert(s.contains(s[0]));
    } else {
        let m = s.last();
        let n = t.last();
        assert(s.contains(m));
        assert(t.contains(n));
        let km = choose|k: int| 0 <= k < t.len() && t[k] == m;
        let kn = choose|k: int| 0 <= k < s.len() && s[k] == n;
        assert(m == n) by {
            if m < n {
                assert(s[kn] <= m);
            } else if n < m {
                assert(t[km] <= n);
            }
        }
        let s2 = s.drop_last();
        let t2 = t.drop_last();
        assert forall|v: u32| s2.contains(v) <==> t2.contains(v) by {
            if s2.contains(v) {
                let k = choose|k: int| 0 <= k < s2.len() && s2[k] == v;
                assert(s[k] < m);
                assert(t.contains(v));
                let j = choose|j: int| 0 <= j < t.len() && t[j] == v;
                assert(j != t.len() - 1);
                assert(t2[j] == v);
            }
            if t2.contains(v) {
                let k = choose|k: int| 0 <= k < t2.len() && t2[k] == v;
                assert(t[k] < n);
                assert(s.contains(v));
                let j = choose|j: int| 0 <= j < s.len() && s[j] == v;
                assert(j != s.len() - 1);
                assert(s2[j] == v);
            }
        }
        lemma_increasing_equal_sets(s2, t2);
        assert(s =~= s2.push(m));
        assert(t =~= t2.push(n));
    }
}

} // verus!
