//! Breakpoints and the address-keyed breakpoint table.
//!
//! A breakpoint is identified by a monotonically increasing id assigned at
//! insertion and is never removed; the table holds at most one breakpoint per
//! address.  The `orig_byte` of an entry is meaningful only once the trap
//! opcode has actually been patched into a live process.

use vstd::prelude::*;

verus! {

/// One breakpoint: its id, target address, and the instruction byte the trap
/// opcode overwrote (zero until the breakpoint has been patched in).
#[derive(Clone, Copy, PartialEq, Eq, Structural, Debug)]
pub struct BreakPoint {
    id: usize,
    addr: usize,
    orig_byte: u8,
}

impl BreakPoint {
    /// The breakpoint's id.
    pub closed spec fn spec_id(self) -> usize {
        self.id
    }

    /// The breakpoint's target address.
    pub closed spec fn spec_addr(self) -> usize {
        self.addr
    }

    /// The recorded original instruction byte.
    pub closed spec fn spec_orig_byte(self) -> u8 {
        self.orig_byte
    }

    /// A breakpoint value with the given fields.
    pub closed spec fn spec_new(id: usize, addr: usize, orig_byte: u8) -> BreakPoint {
        BreakPoint { id, addr, orig_byte }
    }

    /// What `spec_new` builds: a breakpoint with exactly the given fields.
    pub broadcast proof fn lemma_spec_new_fields(id: usize, addr: usize, orig_byte: u8)
        ensures
            (#[trigger] BreakPoint::spec_new(id, addr, orig_byte)).spec_id() == id,
            BreakPoint::spec_new(id, addr, orig_byte).spec_addr() == addr,
            BreakPoint::spec_new(id, addr, orig_byte).spec_orig_byte() == orig_byte,
    {
    }

    /// A fresh breakpoint for `addr`, original byte not yet known.
    pub fn new(id: usize, addr: usize) -> (r: BreakPoint)
        ensures
            r == BreakPoint::spec_new(id, addr, 0),
    {
        BreakPoint { id, addr, orig_byte: 0 }
    }

    /// The breakpoint's id.
    pub fn id(&self) -> (r: usize)
        ensures
            r == self.spec_id(),
    {
        self.id
    }

    /// The breakpoint's target address.
    pub fn addr(&self) -> (r: usize)
        ensures
            r == self.spec_addr(),
    {
        self.addr
    }

    /// The recorded original instruction byte.
    pub fn orig_byte(&self) -> (r: u8)
        ensures
            r == self.spec_orig_byte(),
    {
        self.orig_byte
    }

    /// Records the instruction byte the trap opcode replaced.
    pub fn set_byte(&mut self, orig_byte: u8)
        ensures
            *final(self) == BreakPoint::spec_new(
                old(self).spec_id(),
                old(self).spec_addr(),
                orig_byte,
            ),
    {
        self.orig_byte = orig_byte
    }
}

/// Whether some entry of `s` has address `addr`.
pub open spec fn bps_contain(s: Seq<BreakPoint>, addr: usize) -> bool {
    exists|i: int| 0 <= i < s.len() && s[i].spec_addr() == addr
}

/// The index of the entry with address `addr`.
pub open spec fn bps_index_of(s: Seq<BreakPoint>, addr: usize) -> int {
    choose|i: int| 0 <= i < s.len() && s[i].spec_addr() == addr
}

/// Table well-formedness: ids are the position plus one (so ids count up from
/// one in insertion order) and addresses are distinct.
pub open spec fn bps_wf(s: Seq<BreakPoint>) -> bool {
    &&& forall|i: int| 0 <= i < s.len() ==> (#[trigger] s[i].spec_id()) == i + 1
    &&& forall|i: int, j: int|
        0 <= i < j < s.len() ==> (#[trigger] s[i].spec_addr()) != (#[trigger] s[j].spec_addr())
}

/// Two tables agree on ids and addresses (original bytes may differ).
pub open spec fn bps_same_shape(a: Seq<BreakPoint>, b: Seq<BreakPoint>) -> bool {
    &&& a.len() == b.len()
    &&& forall|i: int|
        0 <= i < a.len() ==> ((#[trigger] a[i]).spec_addr() == b[i].spec_addr() && a[i].spec_id()
            == b[i].spec_id())
}

/// In a well-formed table the entry for an address sits at one position only.
pub proof fn lemma_index_of_unique(s: Seq<BreakPoint>, addr: usize, i: int)
    requires
        bps_wf(s),
        0 <= i < s.len(),
        s[i].spec_addr() == addr,
    ensures
        bps_index_of(s, addr) == i,
{
    assert(bps_contain(s, addr));
    let j = bps_index_of(s, addr);
    if j < i {
        assert(s[j].spec_addr() != s[i].spec_addr());
    } else if j > i {
        assert(s[i].spec_addr() != s[j].spec_addr());
    }
}

/// The table after a breakpoint request for `addr` resolved: an existing
/// entry is kept as is, otherwise a fresh entry is appended with the next id.
pub open spec fn spec_break_insert(s: Seq<BreakPoint>, addr: usize) -> Seq<BreakPoint> {
    if bps_contain(s, addr) {
        s
    } else {
        s.push(BreakPoint::spec_new((s.len() + 1) as usize, addr, 0))
    }
}

/// The id a breakpoint request for `addr` reports: the existing entry's id,
/// or the next free id.
pub open spec fn spec_break_id(s: Seq<BreakPoint>, addr: usize) -> usize {
    if bps_contain(s, addr) {
        s[bps_index_of(s, addr)].spec_id()
    } else {
        (s.len() + 1) as usize
    }
}

/// Requesting a breakpoint at an address twice leaves exactly the table the
/// first request produced, and the second request reports the same id as the
/// first.
pub proof fn lemma_break_insert_idempotent(s: Seq<BreakPoint>, addr: usize)
    requires
        bps_wf(s),
    ensures
        spec_break_insert(spec_break_insert(s, addr), addr) == spec_break_insert(s, addr),
        spec_break_id(spec_break_insert(s, addr), addr) == spec_break_id(s, addr),
{
    if !bps_contain(s, addr) {
        let t = spec_break_insert(s, addr);
        assert(t[s.len() as int].spec_addr() == addr);
        assert(bps_contain(t, addr));
        let i = bps_index_of(t, addr);
        assert(forall|j: int| 0 <= j < s.len() ==> t[j] == s[j]);
        assert(t[i].spec_addr() == addr);
        if i < s.len() {
            assert(s[i].spec_addr() == addr);
            assert(false);
        }
        assert(t[i].spec_id() == (s.len() + 1) as usize);
    }
}

/// The breakpoint table: one entry per address, ids assigned in insertion
/// order starting at one.
pub struct BreakpointTable {
    bps: Vec<BreakPoint>,
}

impl View for BreakpointTable {
    type V = Seq<BreakPoint>;

    closed spec fn view(&self) -> Seq<BreakPoint> {
        self.bps@
    }
}

impl BreakpointTable {
    /// Table well-formedness.
    pub open spec fn wf(self) -> bool {
        bps_wf(self@)
    }

    /// An empty table.
    pub fn new() -> (r: BreakpointTable)
        ensures
            r@ =~= Seq::<BreakPoint>::empty(),
            r.wf(),
    {
        BreakpointTable { bps: Vec::new() }
    }

    /// Number of breakpoints ever created.
    pub fn len(&self) -> (r: usize)
        ensures
            r == self@.len(),
    {
        self.bps.len()
    }

    /// The entry at position `i`.
    pub fn get(&self, i: usize) -> (r: &BreakPoint)
        requires
            i < self@.len(),
        ensures
            *r == self@[i as int],
    {
        &self.bps[i]
    }

    /// Finds the position of the entry for `addr`, if there is one.
    pub fn find_index(&self, addr: usize) -> (r: Option<usize>)
        ensures
            match r {
                Some(i) => i < self@.len() && self@[i as int].spec_addr() == addr && bps_contain(
                    self@,
                    addr,
                ),
                None => !bps_contain(self@, addr),
            },
    {
        let mut i: usize = 0;
        while i < self.bps.len()
            invariant
                i <= self@.len(),
                forall|j: int| 0 <= j < i ==> self@[j].spec_addr() != addr,
            decreases self@.len() - i,
        {
            if self.bps[i].addr() == addr {
                return Some(i);
            }
            i = i + 1;
        }
        None
    }

    /// Appends a fresh entry for `addr` with the next id.
    pub fn insert(&mut self, addr: usize)
        requires
            old(self).wf(),
            !bps_contain(old(self)@, addr),
            old(self)@.len() < usize::MAX,
        ensures
            final(self)@ =~= spec_break_insert(old(self)@, addr),
            final(self).wf(),
    {
        let id = self.bps.len() + 1;
        self.bps.push(BreakPoint::new(id, addr));
    }

    /// Records the original byte of the entry at position `i`.
    pub fn record_byte(&mut self, i: usize, byte: u8)
        requires
            i < old(self)@.len(),
        ensures
            final(self)@ =~= old(self)@.update(
                i as int,
                BreakPoint::spec_new(
                    old(self)@[i as int].spec_id(),
                    old(self)@[i as int].spec_addr(),
                    byte,
                ),
            ),
            old(self).wf() ==> final(self).wf(),
    {
        let mut entry = self.bps[i];
        entry.set_byte(byte);
        self.bps.set(i, entry);
    }
}

} // verus!
