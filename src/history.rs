use vstd::prelude::*;

verus! {

/// The number of snapshots a history keeps.
pub const HISTORY_LIMIT: usize = 4;

/// The last `HISTORY_LIMIT` entries of `s`, or all of them when there are fewer.
pub open spec fn most_recent<T>(s: Seq<T>) -> Seq<T> {
    if s.len() > HISTORY_LIMIT {
        s.subrange(s.len() - HISTORY_LIMIT, s.len() as int)
    } else {
        s
    }
}

/// The history after recording each snapshot of `ticks` in turn, starting
/// from an empty one.
pub open spec fn replay(ticks: Seq<Seq<u32>>) -> Seq<Seq<u32>>
    decreases ticks.len(),
{
    if ticks.len() == 0 {
        Seq::empty()
    } else {
        most_recent(replay(ticks.drop_last()).push(ticks.last()))
    }
}

/// The most recent address snapshots, oldest first, at most `HISTORY_LIMIT`
/// of them.
pub struct AddressHistory {
    snapshots: Vec<Vec<u32>>,
}

impl View for AddressHistory {
    type V = Seq<Seq<u32>>;

    closed spec fn view(&self) -> Seq<Seq<u32>> {
        self.snapshots@.map_values(|s: Vec<u32>| s@)
    }
}

impl AddressHistory {
    pub open spec fn wf(&self) -> bool {
        self@.len() <= HISTORY_LIMIT
    }

    pub fn new() -> (r: AddressHistory)
        ensures
            r@ == Seq::<Seq<u32>>::empty(),
            r.wf(),
    {
        AddressHistory { snapshots: Vec::new() }
    }

    pub fn len(&self) -> (r: usize)
        ensures
            r == self@.len(),
    {
        self.snapshots.len()
    }

    /// The snapshot recorded `i` places after the oldest one kept.
    pub fn get(&self, i: usize) -> (r: &Vec<u32>)
        requires
            i < self@.len(),
        ensures
            r@ == self@[i as int],
    {
        &self.snapshots[i]
    }

    /// Appends `snapshot` and drops the oldest entries beyond `HISTORY_LIMIT`.
    pub fn record(&mut self, snapshot: Vec<u32>)
        ensures
            final(self)@ == most_recent(old(self)@.push(snapshot@)),
            final(self).wf(),
    {
        let ghost before = self@;
        let ghost s = snapshot@;
        self.snapshots.push(snapshot);
        assert(self@ =~= before.push(s));
        while self.snapshots.len() > HISTORY_LIMIT
            invariant
                before.push(s).len() >= self@.len(),
                most_recent(self@) == most_recent(before.push(s)),
            decreases self.snapshots.len(),
        {
            let ghost cur = self@;
            self.snapshots.remove(0);
            assert(self@ =~= cur.subrange(1, cur.len() as int));
            assert(most_recent(self@) =~= most_recent(cur));
        }
        assert(most_recent(self@) == self@);
    }
}

pub open spec fn spaces(n: nat) -> Seq<u8> {
    Seq::new(n, |_i: int| 32u8)
}

pub open spec fn line_end() -> Seq<u8> {
    seq![44u8, 10u8]
}

/// Decimal digits of `n`, without leading zeros.
pub open spec fn decimal(n: nat) -> Seq<u8>
    decreases n,
{
    if n < 10 {
        seq![(48 + n) as u8]
    } else {
        decimal(n / 10).push((48 + n % 10) as u8)
    }
}

/// The dotted-quad text of an IPv4 address.
pub open spec fn dotted(a: u32) -> Seq<u8> {
    decimal((a / 0x0100_0000) as nat) + seq![46u8] + decimal(((a / 0x0001_0000) % 256) as nat)
        + seq![46u8] + decimal(((a / 0x0100) % 256) as nat) + seq![46u8] + decimal(
        (a % 256) as nat,
    )
}

/// One line per address, each indented by eight spaces and ended by a comma.
pub open spec fn address_lines(s: Seq<u32>) -> Seq<u8>
    decreases s.len(),
{
    if s.len() == 0 {
        Seq::empty()
    } else {
        address_lines(s.drop_last()) + spaces(8) + dotted(s.last()) + line_end()
    }
}

/// A snapshot as an indented list: `[]` when empty.
pub open spec fn snapshot_text(s: Seq<u32>) -> Seq<u8> {
    if s.len() == 0 {
        seq![91u8, 93u8]
    } else {
        seq![91u8, 10u8] + address_lines(s) + spaces(4) + seq![93u8]
    }
}

pub open spec fn snapshot_entries(h: Seq<Seq<u32>>) -> Seq<u8>
    decreases h.len(),
{
    if h.len() == 0 {
        Seq::empty()
    } else {
        snapshot_entries(h.drop_last()) + spaces(4) + snapshot_text(h.last()) + line_end()
    }
}

/// The text written for a history: a list of snapshots, each a list of
/// dotted-quad addresses, one item per line as Rust's alternate debug
/// formatting lays a `Vec<Vec<Ipv4Addr>>` out.
pub open spec fn history_text(h: Seq<Seq<u32>>) -> Seq<u8> {
    if h.len() == 0 {
        seq![91u8, 93u8]
    } else {
        seq![91u8, 10u8] + snapshot_entries(h) + seq![93u8]
    }
}

fn push_spaces(out: &mut Vec<u8>, n: usize)
    ensures
        final(out)@ == old(out)@ + spaces(n as nat),
{
    let ghost start = out@;
    let mut i: usize = 0;
    while i < n
        invariant
            i <= n,
            out@ == start + spaces(i as nat),
        decreases n - i,
    {
        out.push(32u8);
        i += 1;
        assert(out@ =~= start + spaces(i as nat));
    }
}

fn push_line_end(out: &mut Vec<u8>)
    ensures
        final(out)@ == old(out)@ + line_end(),
{
    let ghost start = out@;
    out.push(44u8);
    out.push(10u8);
    assert(out@ =~= start + line_end());
}

fn push_decimal(out: &mut Vec<u8>, n: u32)
    requires
        n < 256,
    ensures
        final(out)@ == old(out)@ + decimal(n as nat),
{
    let ghost start = out@;
    reveal_with_fuel(decimal, 3);
    if n >= 100 {
        out.push((48 + n / 100) as u8);
        out.push((48 + (n / 10) % 10) as u8);
        out.push((48 + n % 10) as u8);
        assert((n / 10) as nat / 10 == n as nat / 100);
        assert(out@ =~= start + decimal(n as nat));
    } else if n >= 10 {
        out.push((48 + n / 10) as u8);
        out.push((48 + n % 10) as u8);
        assert(out@ =~= start + decimal(n as nat));
    } else {
        out.push((48 + n) as u8);
        assert(out@ =~= start + decimal(n as nat));
    }
}

fn push_dotted(out: &mut Vec<u8>, a: u32)
    ensures
        final(out)@ == old(out)@ + dotted(a),
{
    let ghost start = out@;
    push_decimal(out, a / 0x0100_0000);
    out.push(46u8);
    push_decimal(out, (a / 0x0001_0000) % 256);
    out.push(46u8);
    push_decimal(out, (a / 0x0100) % 256);
    out.push(46u8);
    push_decimal(out, a % 256);
    assert(out@ =~= start + dotted(a));
}

fn push_snapshot(out: &mut Vec<u8>, s: &Vec<u32>)
    ensures
        final(out)@ == old(out)@ + snapshot_text(s@),
{
    let ghost start = out@;
    out.push(91u8);
    if s.len() == 0 {
        out.push(93u8);
        assert(out@ =~= start + snapshot_text(s@));
        return;
    }
    out.push(10u8);
    let ghost head = out@;
    let mut i: usize = 0;
    while i < s.len()
        invariant
            i <= s@.len(),
            out@ == head + address_lines(s@.subrange(0, i as int)),
        decreases s.len() - i,
    {
        let ghost before = out@;
        push_spaces(out, 8);
        push_dotted(out, s[i]);
        push_line_end(out);
        assert(s@.subrange(0, i + 1).drop_last() =~= s@.subrange(0, i as int));
        assert(out@ =~= before + spaces(8) + dotted(s@[i as int]) + line_end());
        i += 1;
    }
    assert(s@.subrange(0, s@.len() as int) =~= s@);
    push_spaces(out, 4);
    out.push(93u8);
    assert(out@ =~= start + snapshot_text(s@));
}

impl AddressHistory {
    /// The text written to the output file for this history.
    pub fn render(&self) -> (r: Vec<u8>)
        ensures
            r@ == history_text(self@),
    {
        let mut out: Vec<u8> = Vec::new();
        out.push(91u8);
        if self.snapshots.len() == 0 {
            out.push(93u8);
            assert(out@ =~= history_text(self@));
            return out;
        }
        out.push(10u8);
        let ghost head = out@;
        let mut i: usize = 0;
        while i < self.snapshots.len()
            invariant
                i <= self@.len(),
                out@ == head + snapshot_entries(self@.subrange(0, i as int)),
            decreases self.snapshots.len() - i,
        {
            let ghost before = out@;
            push_spaces(&mut out, 4);
            push_snapshot(&mut out, &self.snapshots[i]);
            push_line_end(&mut out);
            assert(self@.subrange(0, i + 1).drop_last() =~= self@.subrange(0, i as int));
            assert(out@ =~= before + spaces(4) + snapshot_text(self@[i as int]) + line_end());
            i += 1;
        }
        assert(self@.subrange(0, self@.len() as int) =~= self@);
        out.push(93u8);
        assert(out@ =~= history_text(self@));
        out
    }
}

/// Recording snapshots one per tick keeps at most `HISTORY_LIMIT` of them,
/// and exactly the most recent ones: after `HISTORY_LIMIT` or more ticks the
/// history holds the last `HISTORY_LIMIT` snapshots, oldest first.
pub proof fn lemma_history_keeps_most_recent(ticks: Seq<Seq<u32>>)
    ensures
        replay(ticks) == most_recent(ticks),
        replay(ticks).len() <= HISTORY_LIMIT,
        ticks.len() >= HISTORY_LIMIT ==> replay(ticks).len() == HISTORY_LIMIT,
    decreases ticks.len(),
{
    if ticks.len() > 0 {
        let prev = ticks.drop_last();
        lemma_history_keeps_most_recent(prev);
        let grown = replay(prev).push(ticks.last());
        if prev.len() > HISTORY_LIMIT {
            assert(grown =~= ticks.subrange(prev.len() - HISTORY_LIMIT, ticks.len() as int));
            assert(most_recent(grown) =~= most_recent(ticks));
        } else {
            assert(grown =~= ticks);
        }
    } else {
        assert(replay(ticks) =~= most_recent(ticks));
    }
}

} // verus!
