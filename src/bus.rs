use vstd::prelude::*;

verus! {

/// A client's handle on the shared bus. It holds no access of its own: each
/// transaction it issues takes the bus for that transaction only.
#[derive(Clone, Copy, Debug, PartialEq, Eq, Structural)]
pub struct Proxy {
    pub id: u64,
}

/// Where one transaction's bytes lie on the wire: `wire[start..end]`.
#[derive(Clone, Copy, Debug, PartialEq, Eq, Structural)]
pub struct Span {
    pub proxy: u64,
    pub start: usize,
    pub end: usize,
}

/// The shared bus: every byte that went onto the transport, in order, and
/// which transaction of which proxy put it there.
pub struct Bus {
    pub wire: Vec<u8>,
    pub spans: Vec<Span>,
    /// Proxies handed out so far; their ids are `0..issued`.
    pub issued: u64,
}

impl Bus {
    /// Every transaction lies within the wire, after all earlier ones, and
    /// belongs to a proxy that was handed out.
    pub open spec fn wf(self) -> bool {
        &&& forall|k: int| 0 <= k < self.spans@.len() ==> {
            &&& #[trigger] self.spans@[k].start <= self.spans@[k].end
            &&& self.spans@[k].end <= self.wire@.len()
            &&& self.spans@[k].proxy < self.issued
        }
        &&& forall|k: int, l: int| 0 <= k < l < self.spans@.len()
            ==> #[trigger] self.spans@[k].end <= #[trigger] self.spans@[l].start
    }

    /// A bus on which nothing has been sent and no proxy handed out.
    pub fn new() -> (b: Bus)
        ensures
            b.wf(),
            b.wire@.len() == 0,
            b.spans@.len() == 0,
            b.issued == 0,
    {
        Bus { wire: Vec::new(), spans: Vec::new(), issued: 0 }
    }

    /// Hands out a new proxy, or `None` once every id is taken.
    pub fn acquire(&mut self) -> (p: Option<Proxy>)
        requires
            old(self).wf(),
        ensures
            final(self).wf(),
            final(self).wire@ == old(self).wire@,
            final(self).spans@ == old(self).spans@,
            old(self).issued < u64::MAX ==> p == Some(Proxy { id: old(self).issued })
                && final(self).issued == old(self).issued + 1,
            old(self).issued == u64::MAX ==> p.is_none() && final(self).issued == old(self).issued,
    {
        if self.issued < u64::MAX {
            let p = Proxy { id: self.issued };
            self.issued = self.issued + 1;
            Some(p)
        } else {
            None
        }
    }

    /// One transaction of proxy `p`: its bytes go onto the wire as one
    /// unbroken run, after everything sent before.
    pub fn transact(&mut self, p: Proxy, bytes: &Vec<u8>)
        requires
            old(self).wf(),
            p.id < old(self).issued,
            old(self).wire@.len() + bytes@.len() <= usize::MAX,
        ensures
            final(self).wf(),
            final(self).issued == old(self).issued,
            final(self).wire@ == old(self).wire@ + bytes@,
            final(self).spans@ == old(self).spans@.push(Span {
                proxy: p.id,
                start: old(self).wire@.len() as usize,
                end: (old(self).wire@.len() + bytes@.len()) as usize,
            }),
    {
        let start = self.wire.len();
        let mut i: usize = 0;
        while i < bytes.len()
            invariant
                i <= bytes@.len(),
                start == old(self).wire@.len(),
                start + bytes@.len() <= usize::MAX,
                self.wire@ == old(self).wire@ + bytes@.subrange(0, i as int),
                self.spans@ == old(self).spans@,
                self.issued == old(self).issued,
                self.wf(),
            decreases bytes@.len() - i,
        {
            self.wire.push(bytes[i]);
            i = i + 1;
            assert(bytes@.subrange(0, i as int) == bytes@.subrange(0, i - 1).push(bytes@[i - 1]));
        }
        assert(bytes@.subrange(0, bytes@.len() as int) == bytes@);
        let ghost before = self.spans@;
        self.spans.push(Span { proxy: p.id, start, end: self.wire.len() });
        assert forall|k: int, l: int| 0 <= k < l < self.spans@.len()
            implies #[trigger] self.spans@[k].end <= #[trigger] self.spans@[l].start by {
            if l < before.len() {
                assert(before[k].end <= before[l].start);
            } else {
                assert(before[k].start <= before[k].end);
                assert(before[k].end <= start);
            }
        }
    }
}

/// Mutual exclusion: two transactions issued one after the other, from any
/// proxies, leave their bytes on the wire as two whole runs, the first
/// before the second, with no byte of one inside the other.
pub proof fn lemma_no_interleaving(b: Bus, p: Proxy, x: Seq<u8>, q: Proxy, y: Seq<u8>)
    requires
        b.wf(),
    ensures
        ({
            let w = b.wire@ + x + y;
            let n = b.wire@.len() as int;
            &&& w.subrange(n, n + x.len()) == x
            &&& w.subrange(n + x.len(), w.len() as int) == y
            &&& w.subrange(0, n) == b.wire@
        }),
{
    let w = b.wire@ + x + y;
    let n = b.wire@.len() as int;
    assert(w.subrange(n, n + x.len()) =~= x);
    assert(w.subrange(n + x.len(), w.len() as int) =~= y);
    assert(w.subrange(0, n) =~= b.wire@);
}

} // verus!
