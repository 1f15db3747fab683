use vstd::prelude::*;

verus! {

/// Input from the daemon that this client does not understand. It ends the
/// tracking of the object it came with, and nothing else.
#[derive(Clone, Copy, Debug, PartialEq, Eq, Structural)]
pub enum ProtocolError {
    UnknownLinkState(i32),
    UnknownNodeState(i32),
    UnknownDirection(u32),
    UnknownChangeMask(u64),
}

/// The handles left after releasing `h`: all the others, in their order.
pub open spec fn released(s: Seq<u64>, h: u64) -> Seq<u64> {
    if s.contains(h) {
        s.remove(choose|i: int| 0 <= i < s.len() && s[i] == h)
    } else {
        s
    }
}

/// The observers registered on one proxy, by handle. Handles are never
/// reused, so releasing one affects no other.
pub struct ListenerSet {
    handles: Vec<u64>,
    next: u64,
}

impl ListenerSet {
    pub closed spec fn handles(&self) -> Seq<u64> {
        self.handles@
    }

    pub closed spec fn next_handle(&self) -> u64 {
        self.next
    }

    /// Handles in increasing order, all below the next one to hand out.
    pub open spec fn wf(&self) -> bool {
        &&& forall|i: int, j: int|
            0 <= i < j < self.handles().len() ==> self.handles()[i] < self.handles()[j]
        &&& forall|i: int| 0 <= i < self.handles().len() ==> self.handles()[i] < self.next_handle()
    }

    pub fn new() -> (r: ListenerSet)
        ensures
            r.wf(),
            r.handles() == Seq::<u64>::empty(),
            r.next_handle() == 0,
    {
        ListenerSet { handles: Vec::new(), next: 0 }
    }

    pub fn len(&self) -> (r: usize)
        ensures
            r == self.handles().len(),
    {
        self.handles.len()
    }

    /// Registers a new observer and returns its handle, distinct from every
    /// handle given before.
    pub fn add(&mut self) -> (r: u64)
        requires
            old(self).wf(),
            old(self).next_handle() < u64::MAX,
        ensures
            final(self).wf(),
            r == old(self).next_handle(),
            final(self).handles() == old(self).handles().push(r),
            final(self).next_handle() == r + 1,
            !old(self).handles().contains(r),
    {
        let h = self.next;
        self.handles.push(h);
        self.next = h + 1;
        proof {
            let s0 = old(self).handles();
            let s1 = self.handles@;
            assert(s1 == s0.push(h));
            assert forall|a: int, b: int| 0 <= a < b < s1.len() implies s1[a] < s1[b] by {
                assert(s1[a] == s0[a]);
                if b < s0.len() {
                    assert(s1[b] == s0[b]);
                }
            }
            assert forall|a: int| 0 <= a < s1.len() implies s1[a] < self.next by {
                if a < s0.len() {
                    assert(s1[a] == s0[a]);
                }
            }
        }
        h
    }

    pub fn contains(&self, h: u64) -> (r: bool)
        ensures
            r == self.handles().contains(h),
    {
        let mut i: usize = 0;
        while i < self.handles.len()
            invariant
                0 <= i <= self.handles.len(),
                forall|j: int| 0 <= j < i ==> self.handles@[j] != h,
            decreases self.handles.len() - i,
        {
            if self.handles[i] == h {
                return true;
            }
            i = i + 1;
        }
        false
    }

    /// Releases a handle. Returns whether it was registered: a handle is
    /// released at most once, and the others stay registered.
    pub fn remove(&mut self, h: u64) -> (r: bool)
        requires
            old(self).wf(),
        ensures
            final(self).wf(),
            r == old(self).handles().contains(h),
            final(self).handles() == released(old(self).handles(), h),
            !final(self).handles().contains(h),
            final(self).next_handle() == old(self).next_handle(),
            forall|x: u64| x != h ==> (final(self).handles().contains(x) <==> old(self).handles().contains(x)),
    {
        let ghost s0 = self.handles@;
        let mut i: usize = 0;
        while i < self.handles.len()
            invariant
                0 <= i <= self.handles.len(),
                self.handles@ == s0,
                s0 == old(self).handles(),
                old(self).wf(),
                self.next == old(self).next_handle(),
                forall|j: int| 0 <= j < i ==> s0[j] != h,
            decreases self.handles.len() - i,
        {
            if self.handles[i] == h {
                self.handles.remove(i);
                proof {
                    let s1 = self.handles@;
                    assert(s1 == s0.remove(i as int));
                    assert(s0.contains(h)) by {
                        assert(s0[i as int] == h);
                    }
                    let c = choose|c: int| 0 <= c < s0.len() && s0[c] == h;
                    assert(c == i) by {
                        if c < i {
                            assert(s0[c] < s0[i as int]);
                        } else if i < c {
                            assert(s0[i as int] < s0[c]);
                        }
                    }
                    assert forall|x: u64| x != h implies (s1.contains(x) <==> s0.contains(x)) by {
                        if s0.contains(x) {
                            let k = choose|k: int| 0 <= k < s0.len() && s0[k] == x;
                            if k < i {
                                assert(s1[k] == x);
                            } else {
                                assert(k != i);
                                assert(s1[k - 1] == x);
                            }
                        }
                        if s1.contains(x) {
                            let k = choose|k: int| 0 <= k < s1.len() && s1[k] == x;
                            if k < i {
                                assert(s0[k] == x);
                            } else {
                                assert(s0[k + 1] == x);
                            }
                        }
                    }
                    assert(!s1.contains(h)) by {
                        if s1.contains(h) {
                            let k = choose|k: int| 0 <= k < s1.len() && s1[k] == h;
                            if k < i {
                                assert(s0[k] == h);
                            } else {
                                assert(s0[k + 1] == h);
                                assert(s0[i as int] < s0[k + 1]);
                            }
                        }
                    }
                    assert forall|a: int, b: int| 0 <= a < b < s1.len() implies s1[a] < s1[b] by {
                        if a < i && b >= i {
                            assert(s1[b] == s0[b + 1]);
                        } else if a >= i {
                            assert(s1[a] == s0[a + 1]);
                            assert(s1[b] == s0[b + 1]);
                        }
                    }
                    assert forall|a: int| 0 <= a < s1.len() implies s1[a] < self.next by {
                        if a >= i {
                            assert(s1[a] == s0[a + 1]);
                        }
                    }
                }
                return true;
            }
            i = i + 1;
        }
        assert(!s0.contains(h));
        false
    }

    /// The handles to notify, in the order they were registered.
    pub fn snapshot(&self) -> (r: Vec<u64>)
        ensures
            r@ == self.handles(),
    {
        let mut r: Vec<u64> = Vec::new();
        let mut i: usize = 0;
        while i < self.handles.len()
            invariant
                0 <= i <= self.handles.len(),
                r@ == self.handles@.take(i as int),
            decreases self.handles.len() - i,
        {
            r.push(self.handles[i]);
            i = i + 1;
            assert(r@ =~= self.handles@.take(i as int));
        }
        assert(self.handles@.take(i as int) =~= self.handles@);
        r
    }
}

} // verus!
