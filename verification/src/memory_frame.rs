//! The guest-memory facade consumed by the loads and stores the lowerer
//! emits: a page table of fixed-size pages, and a cursor —
//! [`MemoryFrame`] — giving little-endian, byte-granular reads and writes
//! at a guest address.  Accesses that straddle page boundaries are
//! serviced transparently; an access to an unmapped byte faults without
//! touching memory or the buffer.

use crate::error::{AccessKind, MMUError};
use vstd::bytes::{
    spec_u16_from_le_bytes, spec_u16_to_le_bytes, spec_u32_from_le_bytes, spec_u32_to_le_bytes,
    spec_u64_from_le_bytes, spec_u64_to_le_bytes, u16_from_le_bytes, u16_to_le_bytes,
    u32_from_le_bytes, u32_to_le_bytes, u64_from_le_bytes, u64_to_le_bytes,
};
use vstd::prelude::*;

verus! {

/// One mapped guest page: its base guest address and its bytes.
#[derive(Debug, PartialEq, Eq)]
pub struct Page {
    pub vaddr: usize,
    pub data: Vec<u8>,
}

/// Whether the page of size `ps` at `p.vaddr` holds guest address `addr`.
pub open spec fn page_contains(p: Page, ps: int, addr: int) -> bool {
    p.vaddr <= addr < p.vaddr + ps
}

/// The index of the first page holding `addr`, in mapping order.
pub open spec fn spec_find_page(pages: Seq<Page>, ps: int, addr: int) -> Option<int>
    decreases pages.len(),
{
    if pages.len() == 0 {
        Option::None
    } else if page_contains(pages[0], ps, addr) {
        Some(0int)
    } else {
        match spec_find_page(pages.drop_first(), ps, addr) {
            Some(i) => Some(i + 1),
            Option::None => Option::None,
        }
    }
}

/// The page-table invariant over a page sequence: every page spans
/// exactly `ps` bytes, stays within the address space, and no two pages
/// overlap.
pub open spec fn pages_wf(pages: Seq<Page>, ps: int) -> bool {
    &&& forall|i: int|
        0 <= i < pages.len() ==> {
            let p = #[trigger] pages[i];
            p.data@.len() == ps && p.vaddr + ps <= usize::MAX
        }
    &&& forall|i: int, j: int|
        0 <= i < j < pages.len() ==> ((#[trigger] pages[i]).vaddr + ps <= (#[trigger] pages[j]).vaddr
            || pages[j].vaddr + ps <= pages[i].vaddr)
}

/// The page table: a page size and the pages mapped so far.
pub struct MmuData {
    page_size: usize,
    pages: Vec<Page>,
}

impl MmuData {
    /// The size of every page, in bytes.
    pub closed spec fn spec_page_size(self) -> usize {
        self.page_size
    }

    /// The mapped pages, in mapping order.
    pub closed spec fn spec_pages(self) -> Seq<Page> {
        self.pages@
    }

    /// The page table is well formed.
    pub open spec fn wf(self) -> bool {
        self.spec_page_size() >= 1 && pages_wf(self.spec_pages(), self.spec_page_size() as int)
    }

    /// The byte mapped at a guest address, if any.
    pub open spec fn spec_byte(self, addr: int) -> Option<u8> {
        match spec_find_page(self.spec_pages(), self.spec_page_size() as int, addr) {
            Some(i) => Some(
                self.spec_pages()[i].data@[addr - self.spec_pages()[i].vaddr],
            ),
            Option::None => Option::None,
        }
    }

    /// Every byte of `[lo, lo + n)` is mapped.
    pub open spec fn range_mapped(self, lo: int, n: int) -> bool {
        forall|a: int| lo <= a < lo + n ==> (#[trigger] self.spec_byte(a)) is Some
    }

    /// The mapped bytes of `[lo, lo + n)`, unmapped bytes reading as zero.
    pub open spec fn mem_bytes(self, lo: int, n: nat) -> Seq<u8> {
        Seq::new(
            n,
            |i: int|
                match self.spec_byte(lo + i) {
                    Some(b) => b,
                    Option::None => 0u8,
                },
        )
    }

    /// Creates an empty page table with the given page size.
    pub fn new(page_size: usize) -> (r: MmuData)
        requires
            page_size >= 1,
        ensures
            r.wf(),
            r.spec_page_size() == page_size,
            r.spec_pages() =~= Seq::<Page>::empty(),
            forall|a: int| r.spec_byte(a) is None,
    {
        MmuData { page_size, pages: Vec::new() }
    }

    /// Maps one page of bytes at a guest base address.  Fails, mapping
    /// nothing, when the data is not exactly one page, the page would
    /// leave the address space, or it would overlap a mapped page.
    pub fn map_page(&mut self, vaddr: usize, data: Vec<u8>) -> (ok: bool)
        requires
            old(self).wf(),
        ensures
            final(self).wf(),
            final(self).spec_page_size() == old(self).spec_page_size(),
            ok <==> (data@.len() == old(self).spec_page_size() && vaddr + old(
                self,
            ).spec_page_size() <= usize::MAX && (forall|i: int|
                0 <= i < old(self).spec_pages().len() ==> ((#[trigger] old(
                    self,
                ).spec_pages()[i]).vaddr + old(self).spec_page_size() <= vaddr || vaddr + old(
                    self,
                ).spec_page_size() <= old(self).spec_pages()[i].vaddr))),
            ok ==> forall|a: int|
                #[trigger] final(self).spec_byte(a) == (if vaddr <= a < vaddr + old(
                    self,
                ).spec_page_size() {
                    Some(data@[a - vaddr])
                } else {
                    old(self).spec_byte(a)
                }),
            !ok ==> *final(self) == *old(self),
    {
        let ps = self.page_size;
        if data.len() != ps || vaddr > usize::MAX - ps {
            return false;
        }
        let n = self.pages.len();
        let mut i: usize = 0;
        while i < n
            invariant
                i <= n,
                *self == *old(self),
                self.wf(),
                n == self.spec_pages().len(),
                ps == self.spec_page_size(),
                vaddr + ps <= usize::MAX,
                forall|j: int|
                    0 <= j < i ==> ((#[trigger] self.spec_pages()[j]).vaddr + ps <= vaddr || vaddr
                        + ps <= self.spec_pages()[j].vaddr),
            decreases n - i,
        {
            let p_vaddr = self.pages[i].vaddr;
            if vaddr < p_vaddr + ps && p_vaddr < vaddr + ps {
                return false;
            }
            i = i + 1;
        }
        let ghost pages0 = self.spec_pages();
        let ghost psi = ps as int;
        let ghost data0 = data@;
        let page = Page { vaddr, data };
        let ghost newp = page;
        self.pages.push(page);
        proof {
            assert(self.spec_pages() =~= pages0.push(newp));
            assert forall|a: int| #[trigger] self.spec_byte(a) == (if vaddr <= a < vaddr + psi {
                Some(data0[a - vaddr])
            } else {
                old(self).spec_byte(a)
            }) by {
                lemma_find_push(pages0, psi, newp, a);
                lemma_find_props(pages0, psi, a);
                if vaddr <= a < vaddr + psi {
                    lemma_find_none(pages0, psi, a);
                }
            }
        }
        true
    }

    /// Finds the index of the page holding `addr`.
    fn find_index(&self, addr: usize) -> (r: Option<usize>)
        ensures
            match spec_find_page(self.spec_pages(), self.spec_page_size() as int, addr as int) {
                Some(i) => r matches Some(j) && j == i && 0 <= i < self.spec_pages().len()
                    && page_contains(
                    self.spec_pages()[i],
                    self.spec_page_size() as int,
                    addr as int,
                ),
                Option::None => r is None,
            },
    {
        let ps = self.page_size;
        let n = self.pages.len();
        let mut i: usize = 0;
        while i < n
            invariant
                i <= n,
                n == self.spec_pages().len(),
                ps == self.spec_page_size(),
                forall|j: int|
                    0 <= j < i ==> !page_contains(
                        #[trigger] self.spec_pages()[j],
                        ps as int,
                        addr as int,
                    ),
            decreases n - i,
        {
            let p_vaddr = self.pages[i].vaddr;
            if p_vaddr <= addr && (addr - p_vaddr) < ps {
                proof {
                    lemma_find_first(self.spec_pages(), ps as int, addr as int, i as int);
                }
                return Some(i);
            }
            i = i + 1;
        }
        proof {
            lemma_find_none(self.spec_pages(), ps as int, addr as int);
        }
        Option::None
    }

    /// Looks up the page holding a guest address, or reports a page fault.
    pub fn query(&self, addr: usize) -> (r: Result<&Page, MMUError>)
        ensures
            (r is Ok) == (self.spec_byte(addr as int) is Some),
            r matches Ok(p) ==> page_contains(*p, self.spec_page_size() as int, addr as int)
                && (spec_find_page(
                self.spec_pages(),
                self.spec_page_size() as int,
                addr as int,
            ) matches Some(i) && *p == self.spec_pages()[i]),
            r matches Err(e) ==> e == MMUError::PageFault(addr, AccessKind::Read),
    {
        match self.find_index(addr) {
            Some(i) => Ok(&self.pages[i]),
            Option::None => Err(MMUError::PageFault(addr, AccessKind::Read)),
        }
    }

    /// Reads the byte at a guest address, if it is mapped.
    fn byte_at(&self, addr: usize) -> (r: Option<u8>)
        requires
            self.wf(),
        ensures
            r == self.spec_byte(addr as int),
    {
        match self.find_index(addr) {
            Some(i) => Some(self.pages[i].data[addr - self.pages[i].vaddr]),
            Option::None => Option::None,
        }
    }

    /// Overwrites the byte at a guest address; fails, changing nothing,
    /// when the address is unmapped.
    fn set_byte(&mut self, addr: usize, b: u8) -> (ok: bool)
        requires
            old(self).wf(),
        ensures
            final(self).wf(),
            final(self).spec_page_size() == old(self).spec_page_size(),
            ok == (old(self).spec_byte(addr as int) is Some),
            ok ==> forall|a: int|
                #[trigger] final(self).spec_byte(a) == (if a == addr {
                    Some(b)
                } else {
                    old(self).spec_byte(a)
                }),
            !ok ==> *final(self) == *old(self),
    {
        let ghost old_pages = self.spec_pages();
        let ghost psi = self.spec_page_size() as int;
        match self.find_index(addr) {
            Some(i) => {
                let page = &mut self.pages[i];
                let j = addr - page.vaddr;
                page.data[j] = b;
                proof {
                    let new_pages = self.spec_pages();
                    let ii = i as int;
                    assert(new_pages =~= old_pages.update(ii, new_pages[ii]));
                    assert(new_pages[ii].vaddr == old_pages[ii].vaddr);
                    assert(new_pages[ii].data@ =~= old_pages[ii].data@.update(
                        addr - old_pages[ii].vaddr,
                        b,
                    ));
                    assert forall|a: int| #[trigger] self.spec_byte(a) == (if a == addr {
                        Some(b)
                    } else {
                        old(self).spec_byte(a)
                    }) by {
                        lemma_find_update(old_pages, psi, ii, new_pages[ii], a);
                        lemma_find_props(old_pages, psi, a);
                        match spec_find_page(old_pages, psi, a) {
                            Some(k) => {
                                if k != ii {
                                    assert(new_pages[k] == old_pages[k]);
                                }
                            },
                            Option::None => {},
                        }
                    }
                }
                true
            },
            Option::None => false,
        }
    }
}

impl MemoryFrame {
    /// Collects `n` bytes at the cursor into a vector and advances it, or
    /// faults at the first unmapped address, changing nothing.
    fn read_bytes(&mut self, n: usize) -> (r: Result<Vec<u8>, MMUError>)
        requires
            old(self).wf(),
            old(self).spec_addr() + n <= usize::MAX,
        ensures
            final(self).spec_mmu() == old(self).spec_mmu(),
            (r is Ok) == old(self).spec_mmu().range_mapped(old(self).spec_addr() as int, n as int),
            r matches Ok(v) ==> v@ =~= old(self).spec_mmu().mem_bytes(
                old(self).spec_addr() as int,
                n as nat,
            ) && final(self).spec_addr() == old(self).spec_addr() + n,
            r matches Err(e) ==> final(self).spec_addr() == old(self).spec_addr() && (e matches
                MMUError::PageFault(fa, kind) && kind == AccessKind::Read && old(self).spec_addr()
                <= fa < old(self).spec_addr() + n && old(self).mem_byte(fa as int) is None && old(
                self,
            ).spec_mmu().range_mapped(old(self).spec_addr() as int, fa - old(self).spec_addr())),
    {
        let base = self.addr;
        let mut i: usize = 0;
        while i < n
            invariant
                i <= n,
                *self == *old(self),
                self.wf(),
                base == self.spec_addr(),
                base + n <= usize::MAX,
                self.spec_mmu().range_mapped(base as int, i as int),
            decreases n - i,
        {
            if self.mmu.byte_at(base + i).is_none() {
                proof {
                    assert(!old(self).spec_mmu().range_mapped(base as int, n as int)) by {
                        assert(old(self).spec_mmu().spec_byte((base + i) as int) is None);
                    }
                    assert(old(self).spec_mmu().range_mapped(base as int, i as int));
                }
                return Err(MMUError::PageFault(base + i, AccessKind::Read));
            }
            proof {
                assert forall|b: int|
                    base <= b < base + i + 1 implies (#[trigger] self.spec_mmu().spec_byte(
                    b,
                )) is Some by {}
            }
            i = i + 1;
        }
        let mut v: Vec<u8> = Vec::new();
        let mut j: usize = 0;
        while j < n
            invariant
                j <= n,
                *self == *old(self),
                self.wf(),
                base == self.spec_addr(),
                base + n <= usize::MAX,
                self.spec_mmu().range_mapped(base as int, n as int),
                v@.len() == j,
                forall|k: int|
                    0 <= k < j ==> #[trigger] v@[k] == self.spec_mmu().mem_bytes(
                        base as int,
                        n as nat,
                    )[k],
            decreases n - j,
        {
            let b = match self.mmu.byte_at(base + j) {
                Some(b) => b,
                Option::None => 0,
            };
            v.push(b);
            j = j + 1;
        }
        self.addr = base + n;
        Ok(v)
    }

    /// Reads the byte at the cursor and advances it by one.
    pub fn read_u8(&mut self) -> (r: Result<u8, MMUError>)
        requires
            old(self).wf(),
            old(self).spec_addr() + 1 <= usize::MAX,
        ensures
            final(self).spec_mmu() == old(self).spec_mmu(),
            (r is Ok) == (old(self).mem_byte(old(self).spec_addr() as int) is Some),
            r matches Ok(x) ==> old(self).mem_byte(old(self).spec_addr() as int) == Some(x)
                && final(self).spec_addr() == old(self).spec_addr() + 1,
            r matches Err(e) ==> final(self).spec_addr() == old(self).spec_addr() && e
                == MMUError::PageFault(old(self).spec_addr(), AccessKind::Read),
    {
        proof {
            if old(self).mem_byte(old(self).spec_addr() as int) is Some {
                assert(old(self).spec_mmu().range_mapped(old(self).spec_addr() as int, 1));
            } else {
                assert(!old(self).spec_mmu().range_mapped(old(self).spec_addr() as int, 1));
            }
        }
        match self.read_bytes(1) {
            Ok(v) => Ok(v[0]),
            Err(e) => Err(e),
        }
    }

    /// Reads the two bytes at the cursor as a little-endian 16-bit value
    /// and advances it.
    pub fn read_u16(&mut self) -> (r: Result<u16, MMUError>)
        requires
            old(self).wf(),
            old(self).spec_addr() + 2 <= usize::MAX,
        ensures
            final(self).spec_mmu() == old(self).spec_mmu(),
            (r is Ok) == old(self).spec_mmu().range_mapped(old(self).spec_addr() as int, 2),
            r matches Ok(x) ==> x == spec_u16_from_le_bytes(
                old(self).spec_mmu().mem_bytes(old(self).spec_addr() as int, 2),
            ) && final(self).spec_addr() == old(self).spec_addr() + 2,
            r matches Err(e) ==> final(self).spec_addr() == old(self).spec_addr() && (e matches
                MMUError::PageFault(fa, kind) && kind == AccessKind::Read && old(self).spec_addr()
                <= fa < old(self).spec_addr() + 2 && old(self).mem_byte(fa as int) is None && old(
                self,
            ).spec_mmu().range_mapped(old(self).spec_addr() as int, fa - old(self).spec_addr())),
    {
        match self.read_bytes(2) {
            Ok(v) => Ok(u16_from_le_bytes(v.as_slice())),
            Err(e) => Err(e),
        }
    }

    /// Reads the four bytes at the cursor as a little-endian 32-bit value
    /// and advances it.
    pub fn read_u32(&mut self) -> (r: Result<u32, MMUError>)
        requires
            old(self).wf(),
            old(self).spec_addr() + 4 <= usize::MAX,
        ensures
            final(self).spec_mmu() == old(self).spec_mmu(),
            (r is Ok) == old(self).spec_mmu().range_mapped(old(self).spec_addr() as int, 4),
            r matches Ok(x) ==> x == spec_u32_from_le_bytes(
                old(self).spec_mmu().mem_bytes(old(self).spec_addr() as int, 4),
            ) && final(self).spec_addr() == old(self).spec_addr() + 4,
            r matches Err(e) ==> final(self).spec_addr() == old(self).spec_addr() && (e matches
                MMUError::PageFault(fa, kind) && kind == AccessKind::Read && old(self).spec_addr()
                <= fa < old(self).spec_addr() + 4 && old(self).mem_byte(fa as int) is None && old(
                self,
            ).spec_mmu().range_mapped(old(self).spec_addr() as int, fa - old(self).spec_addr())),
    {
        match self.read_bytes(4) {
            Ok(v) => Ok(u32_from_le_bytes(v.as_slice())),
            Err(e) => Err(e),
        }
    }

    /// Reads the eight bytes at the cursor as a little-endian 64-bit value
    /// and advances it.
    pub fn read_u64(&mut self) -> (r: Result<u64, MMUError>)
        requires
            old(self).wf(),
            old(self).spec_addr() + 8 <= usize::MAX,
        ensures
            final(self).spec_mmu() == old(self).spec_mmu(),
            (r is Ok) == old(self).spec_mmu().range_mapped(old(self).spec_addr() as int, 8),
            r matches Ok(x) ==> x == spec_u64_from_le_bytes(
                old(self).spec_mmu().mem_bytes(old(self).spec_addr() as int, 8),
            ) && final(self).spec_addr() == old(self).spec_addr() + 8,
            r matches Err(e) ==> final(self).spec_addr() == old(self).spec_addr() && (e matches
                MMUError::PageFault(fa, kind) && kind == AccessKind::Read && old(self).spec_addr()
                <= fa < old(self).spec_addr() + 8 && old(self).mem_byte(fa as int) is None && old(
                self,
            ).spec_mmu().range_mapped(old(self).spec_addr() as int, fa - old(self).spec_addr())),
    {
        match self.read_bytes(8) {
            Ok(v) => Ok(u64_from_le_bytes(v.as_slice())),
            Err(e) => Err(e),
        }
    }

    /// Stores one byte at the cursor and advances it.
    pub fn write_u8(&mut self, val: u8) -> (r: Result<(), MMUError>)
        requires
            old(self).wf(),
            old(self).spec_addr() + 1 <= usize::MAX,
        ensures
            final(self).wf(),
            final(self).spec_mmu().spec_page_size() == old(self).spec_mmu().spec_page_size(),
            (r is Ok) == (old(self).mem_byte(old(self).spec_addr() as int) is Some),
            r is Ok ==> final(self).spec_addr() == old(self).spec_addr() + 1 && (forall|a: int|
                #[trigger] final(self).mem_byte(a) == (if a == old(self).spec_addr() {
                    Some(val)
                } else {
                    old(self).mem_byte(a)
                })),
            r matches Err(e) ==> *final(self) == *old(self) && e == MMUError::PageFault(
                old(self).spec_addr(),
                AccessKind::Write,
            ),
    {
        let mut v: Vec<u8> = Vec::new();
        v.push(val);
        proof {
            if old(self).mem_byte(old(self).spec_addr() as int) is Some {
                assert(old(self).spec_mmu().range_mapped(old(self).spec_addr() as int, 1));
            } else {
                assert(!old(self).spec_mmu().range_mapped(old(self).spec_addr() as int, 1));
            }
        }
        self.write(v.as_slice())
    }

    /// Stores a 16-bit value at the cursor as little-endian bytes and
    /// advances it.
    pub fn write_u16(&mut self, val: u16) -> (r: Result<(), MMUError>)
        requires
            old(self).wf(),
            old(self).spec_addr() + 2 <= usize::MAX,
        ensures
            final(self).wf(),
            final(self).spec_mmu().spec_page_size() == old(self).spec_mmu().spec_page_size(),
            (r is Ok) == old(self).spec_mmu().range_mapped(old(self).spec_addr() as int, 2),
            r is Ok ==> final(self).spec_addr() == old(self).spec_addr() + 2 && (forall|a: int|
                #[trigger] final(self).mem_byte(a) == (if old(self).spec_addr() <= a < old(
                    self,
                ).spec_addr() + 2 {
                    Some(spec_u16_to_le_bytes(val)[a - old(self).spec_addr()])
                } else {
                    old(self).mem_byte(a)
                })),
            r is Err ==> *final(self) == *old(self),
    {
        let v = u16_to_le_bytes(val);
        self.write(v.as_slice())
    }

    /// Stores a 32-bit value at the cursor as little-endian bytes and
    /// advances it.
    pub fn write_u32(&mut self, val: u32) -> (r: Result<(), MMUError>)
        requires
            old(self).wf(),
            old(self).spec_addr() + 4 <= usize::MAX,
        ensures
            final(self).wf(),
            final(self).spec_mmu().spec_page_size() == old(self).spec_mmu().spec_page_size(),
            (r is Ok) == old(self).spec_mmu().range_mapped(old(self).spec_addr() as int, 4),
            r is Ok ==> final(self).spec_addr() == old(self).spec_addr() + 4 && (forall|a: int|
                #[trigger] final(self).mem_byte(a) == (if old(self).spec_addr() <= a < old(
                    self,
                ).spec_addr() + 4 {
                    Some(spec_u32_to_le_bytes(val)[a - old(self).spec_addr()])
                } else {
                    old(self).mem_byte(a)
                })),
            r is Err ==> *final(self) == *old(self),
    {
        let v = u32_to_le_bytes(val);
        self.write(v.as_slice())
    }

    /// Stores a 64-bit value at the cursor as little-endian bytes and
    /// advances it.
    pub fn write_u64(&mut self, val: u64) -> (r: Result<(), MMUError>)
        requires
            old(self).wf(),
            old(self).spec_addr() + 8 <= usize::MAX,
        ensures
            final(self).wf(),
            final(self).spec_mmu().spec_page_size() == old(self).spec_mmu().spec_page_size(),
            (r is Ok) == old(self).spec_mmu().range_mapped(old(self).spec_addr() as int, 8),
            r is Ok ==> final(self).spec_addr() == old(self).spec_addr() + 8 && (forall|a: int|
                #[trigger] final(self).mem_byte(a) == (if old(self).spec_addr() <= a < old(
                    self,
                ).spec_addr() + 8 {
                    Some(spec_u64_to_le_bytes(val)[a - old(self).spec_addr()])
                } else {
                    old(self).mem_byte(a)
                })),
            r is Err ==> *final(self) == *old(self),
    {
        let v = u64_to_le_bytes(val);
        self.write(v.as_slice())
    }
}

/// A successful lookup returns an in-range index of a page holding the
/// address.
proof fn lemma_find_props(pages: Seq<Page>, ps: int, addr: int)
    ensures
        spec_find_page(pages, ps, addr) matches Some(i) ==> 0 <= i < pages.len()
            && page_contains(pages[i], ps, addr),
    decreases pages.len(),
{
    if pages.len() > 0 && !page_contains(pages[0], ps, addr) {
        lemma_find_props(pages.drop_first(), ps, addr);
    }
}

/// When a prefix of the table misses an address that page `k` holds, the
/// lookup finds `k`.
proof fn lemma_find_first(pages: Seq<Page>, ps: int, addr: int, k: int)
    requires
        0 <= k < pages.len(),
        page_contains(pages[k], ps, addr),
        forall|j: int| 0 <= j < k ==> !page_contains(#[trigger] pages[j], ps, addr),
    ensures
        spec_find_page(pages, ps, addr) == Some(k),
    decreases k,
{
    if k > 0 {
        assert(forall|j: int|
            0 <= j < k - 1 ==> !page_contains(#[trigger] pages.drop_first()[j], ps, addr));
        lemma_find_first(pages.drop_first(), ps, addr, k - 1);
    }
}

/// When no page holds an address, the lookup finds nothing.
proof fn lemma_find_none(pages: Seq<Page>, ps: int, addr: int)
    requires
        forall|j: int| 0 <= j < pages.len() ==> !page_contains(#[trigger] pages[j], ps, addr),
    ensures
        spec_find_page(pages, ps, addr) is None,
    decreases pages.len(),
{
    if pages.len() > 0 {
        assert(forall|j: int|
            0 <= j < pages.len() - 1 ==> pages.drop_first()[j] == pages[j + 1]);
        lemma_find_none(pages.drop_first(), ps, addr);
    }
}

/// Appending a page leaves every earlier lookup result unchanged and
/// serves the new page's range last.
proof fn lemma_find_push(pages: Seq<Page>, ps: int, p: Page, addr: int)
    ensures
        spec_find_page(pages.push(p), ps, addr) == (match spec_find_page(pages, ps, addr) {
            Some(k) => Some(k),
            Option::None => if page_contains(p, ps, addr) {
                Some(pages.len() as int)
            } else {
                Option::None
            },
        }),
    decreases pages.len(),
{
    if pages.len() == 0 {
        assert(pages.push(p)[0] == p);
        assert(pages.push(p).drop_first() =~= Seq::<Page>::empty());
        assert(spec_find_page(Seq::<Page>::empty(), ps, addr) is None);
        if page_contains(p, ps, addr) {
            assert(spec_find_page(pages.push(p), ps, addr) == Some(0int));
        } else {
            assert(spec_find_page(pages.push(p), ps, addr) is None);
        }
        assert(spec_find_page(pages, ps, addr) is None);
    } else {
        assert(pages.push(p)[0] == pages[0]);
        assert(pages.push(p).drop_first() =~= pages.drop_first().push(p));
        lemma_find_push(pages.drop_first(), ps, p, addr);
        assert(pages.drop_first().len() == pages.len() - 1);
    }
}

/// A byte-granular cursor over the page table: reads and writes start at
/// the current guest address and advance it on success.
pub struct MemoryFrame {
    mmu: MmuData,
    addr: usize,
}

impl MemoryFrame {
    /// The page table behind this frame.
    pub closed spec fn spec_mmu(self) -> MmuData {
        self.mmu
    }

    /// The guest address the next access starts at.
    pub closed spec fn spec_addr(self) -> usize {
        self.addr
    }

    /// The frame's page table is well formed.
    pub open spec fn wf(self) -> bool {
        self.spec_mmu().wf()
    }

    /// The byte mapped at a guest address, if any.
    pub open spec fn mem_byte(self, a: int) -> Option<u8> {
        self.spec_mmu().spec_byte(a)
    }

    /// Creates a frame over a page table, positioned at a guest address.
    pub fn new(mmu: MmuData, addr: usize) -> (r: MemoryFrame)
        ensures
            r.spec_mmu() == mmu,
            r.spec_addr() == addr,
    {
        MemoryFrame { mmu, addr }
    }

    /// Releases the frame, handing its page table back.
    pub fn into_mmu(self) -> (r: MmuData)
        ensures
            r == self.spec_mmu(),
    {
        self.mmu
    }

    /// Fills `buf` with the bytes at the cursor and advances it, or
    /// faults at the first unmapped address, changing nothing.
    pub fn read(&mut self, buf: &mut [u8]) -> (r: Result<usize, MMUError>)
        requires
            old(self).wf(),
            old(self).spec_addr() + old(buf)@.len() <= usize::MAX,
        ensures
            final(self).spec_mmu() == old(self).spec_mmu(),
            final(buf)@.len() == old(buf)@.len(),
            (r is Ok) == old(self).spec_mmu().range_mapped(
                old(self).spec_addr() as int,
                old(buf)@.len() as int,
            ),
            r matches Ok(n) ==> n == old(buf)@.len() && final(self).spec_addr() == old(
                self,
            ).spec_addr() + old(buf)@.len() && final(buf)@ =~= old(self).spec_mmu().mem_bytes(
                old(self).spec_addr() as int,
                old(buf)@.len() as nat,
            ),
            r matches Err(e) ==> final(buf)@ =~= old(buf)@ && final(self).spec_addr() == old(
                self,
            ).spec_addr() && (e matches MMUError::PageFault(fa, kind) && kind == AccessKind::Read
                && old(self).spec_addr() <= fa < old(self).spec_addr() + old(buf)@.len() && old(
                self,
            ).mem_byte(fa as int) is None && old(self).spec_mmu().range_mapped(
                old(self).spec_addr() as int,
                fa - old(self).spec_addr(),
            )),
    {
        let base = self.addr;
        let len = buf.len();
        let mut i: usize = 0;
        while i < len
            invariant
                i <= len,
                *self == *old(self),
                self.wf(),
                base == self.spec_addr(),
                base + len <= usize::MAX,
                buf@ == old(buf)@,
                len == buf@.len(),
                self.spec_mmu().range_mapped(base as int, i as int),
            decreases len - i,
        {
            if self.mmu.byte_at(base + i).is_none() {
                proof {
                    assert(!old(self).spec_mmu().range_mapped(base as int, len as int)) by {
                        assert(old(self).spec_mmu().spec_byte((base + i) as int) is None);
                    }
                    assert(old(self).spec_mmu().range_mapped(base as int, i as int));
                }
                return Err(MMUError::PageFault(base + i, AccessKind::Read));
            }
            proof {
                assert forall|b: int|
                    base <= b < base + i + 1 implies (#[trigger] self.spec_mmu().spec_byte(
                    b,
                )) is Some by {}
            }
            i = i + 1;
        }
        let mut j: usize = 0;
        while j < len
            invariant
                j <= len,
                *self == *old(self),
                self.wf(),
                base == self.spec_addr(),
                base + len <= usize::MAX,
                len == buf@.len(),
                len == old(buf)@.len(),
                self.spec_mmu().range_mapped(base as int, len as int),
                forall|k: int|
                    0 <= k < j ==> #[trigger] buf@[k] == self.spec_mmu().mem_bytes(
                        base as int,
                        len as nat,
                    )[k],
            decreases len - j,
        {
            let b = match self.mmu.byte_at(base + j) {
                Some(b) => b,
                Option::None => 0,
            };
            buf[j] = b;
            j = j + 1;
        }
        self.addr = base + len;
        Ok(len)
    }

    /// Stores `buf` at the cursor and advances it, or faults at the first
    /// unmapped address, changing nothing.
    pub fn write(&mut self, buf: &[u8]) -> (r: Result<(), MMUError>)
        requires
            old(self).wf(),
            old(self).spec_addr() + buf@.len() <= usize::MAX,
        ensures
            final(self).wf(),
            final(self).spec_mmu().spec_page_size() == old(self).spec_mmu().spec_page_size(),
            (r is Ok) == old(self).spec_mmu().range_mapped(
                old(self).spec_addr() as int,
                buf@.len() as int,
            ),
            r is Ok ==> final(self).spec_addr() == old(self).spec_addr() + buf@.len() && (forall|
                a: int,
            |
                #[trigger] final(self).mem_byte(a) == (if old(self).spec_addr() <= a < old(
                    self,
                ).spec_addr() + buf@.len() {
                    Some(buf@[a - old(self).spec_addr()])
                } else {
                    old(self).mem_byte(a)
                })),
            r matches Err(e) ==> *final(self) == *old(self) && (e matches MMUError::PageFault(
                fa,
                kind,
            ) && kind == AccessKind::Write && old(self).spec_addr() <= fa < old(self).spec_addr()
                + buf@.len() && old(self).mem_byte(fa as int) is None && old(
                self,
            ).spec_mmu().range_mapped(old(self).spec_addr() as int, fa - old(self).spec_addr())),
    {
        let base = self.addr;
        let len = buf.len();
        let mut i: usize = 0;
        while i < len
            invariant
                i <= len,
                *self == *old(self),
                self.wf(),
                base == self.spec_addr(),
                base + len <= usize::MAX,
                len == buf@.len(),
                self.spec_mmu().range_mapped(base as int, i as int),
            decreases len - i,
        {
            if self.mmu.byte_at(base + i).is_none() {
                proof {
                    assert(!old(self).spec_mmu().range_mapped(base as int, len as int)) by {
                        assert(old(self).spec_mmu().spec_byte((base + i) as int) is None);
                    }
                    assert(old(self).spec_mmu().range_mapped(base as int, i as int));
                }
                return Err(MMUError::PageFault(base + i, AccessKind::Write));
            }
            proof {
                assert forall|b: int|
                    base <= b < base + i + 1 implies (#[trigger] self.spec_mmu().spec_byte(
                    b,
                )) is Some by {}
            }
            i = i + 1;
        }
        let mut j: usize = 0;
        while j < len
            invariant
                j <= len,
                self.wf(),
                self.spec_mmu().spec_page_size() == old(self).spec_mmu().spec_page_size(),
                self.spec_addr() == old(self).spec_addr(),
                base == self.spec_addr(),
                base + len <= usize::MAX,
                len == buf@.len(),
                old(self).spec_mmu().range_mapped(base as int, len as int),
                forall|a: int|
                    #[trigger] self.spec_mmu().spec_byte(a) == (if base <= a < base + j {
                        Some(buf@[a - base])
                    } else {
                        old(self).mem_byte(a)
                    }),
            decreases len - j,
        {
            proof {
                assert(old(self).spec_mmu().spec_byte((base + j) as int) is Some);
                assert(self.spec_mmu().spec_byte((base + j) as int) is Some);
            }
            let ok = self.mmu.set_byte(base + j, buf[j]);
            proof {
                assert(ok);
            }
            j = j + 1;
        }
        self.addr = base + len;
        Ok(())
    }
}

/// Replacing a page's bytes, at the same base address, leaves every
/// lookup result unchanged.
proof fn lemma_find_update(pages: Seq<Page>, ps: int, i: int, p2: Page, addr: int)
    requires
        0 <= i < pages.len(),
        p2.vaddr == pages[i].vaddr,
    ensures
        spec_find_page(pages.update(i, p2), ps, addr) == spec_find_page(pages, ps, addr),
    decreases pages.len(),
{
    if i == 0 {
        assert(pages.update(i, p2)[0] == p2);
        assert(pages.update(i, p2).drop_first() =~= pages.drop_first());
    } else {
        assert(pages.update(i, p2)[0] == pages[0]);
        assert(pages.update(i, p2).drop_first() =~= pages.drop_first().update(i - 1, p2));
        lemma_find_update(pages.drop_first(), ps, i - 1, p2, addr);
    }
}

} // verus!
