//! The extended-page-table (EPT) subsystem.
//!
//! An [`Ept`] is one "view" of physical memory: an identity-mapped
//! page-table hierarchy covering every mapped page at 4 KiB granularity,
//! each page carrying its own access policy. The hierarchy is represented
//! as an arena of per-page descriptors indexed by page frame number, with
//! typed accessors enforcing bounds; index `i` describes the page whose
//! physical addresses are `i * 4096 .. (i + 1) * 4096`.
//!
//! Two structurally identical views exist per hypervisor: the primary
//! (clean) view and the secondary (hooked) view. Keeping them identical
//! except at hooked frames is what makes switching views on a violation
//! free of side effects elsewhere.

use vstd::prelude::*;

use crate::error::HypervisorError;

verus! {

/// Bytes per page, the granularity of every mapping and every patch.
pub const PAGE_SIZE: u64 = 4096;

/// A per-page access policy: any combination of read, write and execute.
#[derive(Clone, Copy, PartialEq, Eq, Structural, Debug)]
pub struct AccessType {
    pub read: bool,
    pub write: bool,
    pub execute: bool,
}

impl AccessType {
    /// The fully permissive policy both views start from.
    pub fn read_write_execute() -> (r: AccessType)
        ensures
            r == (AccessType { read: true, write: true, execute: true }),
    {
        AccessType { read: true, write: true, execute: true }
    }

    /// The policy the primary view gives a hooked page: data access
    /// succeeds against the clean bytes, execution faults.
    pub fn read_write() -> (r: AccessType)
        ensures
            r == (AccessType { read: true, write: true, execute: false }),
    {
        AccessType { read: true, write: true, execute: false }
    }

    /// The policy the secondary view gives a hooked page: execution runs
    /// the patched bytes, any attempt to read them faults.
    pub fn execute_only() -> (r: AccessType)
        ensures
            r == (AccessType { read: false, write: false, execute: true }),
    {
        AccessType { read: false, write: false, execute: true }
    }
}

/// Which of the two views currently backs the guest's translation. The
/// selector is what a processor's control structure binds and what the
/// violation dispatcher toggles; the table contents themselves are never
/// mutated on that path.
#[derive(Clone, Copy, PartialEq, Eq, Structural, Debug)]
pub enum EptViewKind {
    Primary,
    Secondary,
}

/// One page's descriptor: the physical frame backing the page and the
/// access policy the view grants it. Under pure identity mapping the
/// descriptor's index equals its frame; only hooked pages are repointed.
#[derive(Clone, Copy, PartialEq, Eq, Structural, Debug)]
pub struct PageTableEntry {
    pub frame: u64,
    pub access: AccessType,
}

/// One EPT view: the arena of page descriptors.
pub struct Ept {
    entries: Vec<PageTableEntry>,
}

impl View for Ept {
    type V = Seq<PageTableEntry>;

    closed spec fn view(&self) -> Seq<PageTableEntry> {
        self.entries@
    }
}

/// The page holding physical address `pa`.
pub open spec fn page_of(pa: u64) -> int {
    pa as int / PAGE_SIZE as int
}

/// The descriptor sequence of a freshly built view: `page_count` pages,
/// each identity-mapped and carrying `access`.
pub open spec fn identity_view(page_count: nat, access: AccessType) -> Seq<PageTableEntry> {
    Seq::new(page_count, |i: int| PageTableEntry { frame: i as u64, access })
}

/// Every mapped page is identity-mapped and carries `access`: the state a
/// freshly built view is in.
pub open spec fn identity_mapped(s: Seq<PageTableEntry>, access: AccessType) -> bool {
    forall|i: int|
        0 <= i < s.len() ==> s[i] == (PageTableEntry { frame: i as u64, access })
}

impl Ept {
    /// Builds a fresh view identity-mapping `page_count` pages at 4 KiB
    /// granularity, every page carrying `default_access`.
    ///
    /// In this model the descriptor arena always allocates; an exhausted
    /// host allocator surfaces in the shell around the library, before a
    /// view reaches any processor.
    pub fn identity_4kb(page_count: usize, default_access: AccessType) -> (ept: Ept)
        ensures
            ept@.len() == page_count,
            identity_mapped(ept@, default_access),
    {
        let mut entries: Vec<PageTableEntry> = Vec::new();
        let mut i: usize = 0;
        while i < page_count
            invariant
                i <= page_count,
                entries@.len() == i,
                identity_mapped(entries@, default_access),
            decreases page_count - i,
        {
            entries.push(PageTableEntry { frame: i as u64, access: default_access });
            i = i + 1;
        }
        Ept { entries }
    }

    /// How many pages the view maps.
    pub fn page_count(&self) -> (n: usize)
        ensures
            n == self@.len(),
    {
        self.entries.len()
    }

    /// Looks up the descriptor for the page holding physical address `pa`.
    /// An address outside the mapped range cannot be resolved.
    pub fn entry_for(&self, pa: u64) -> (r: Result<PageTableEntry, HypervisorError>)
        ensures
            page_of(pa) < self@.len() ==> r == Ok::<PageTableEntry, HypervisorError>(
                self@[page_of(pa)],
            ),
            page_of(pa) >= self@.len() ==> r == Err::<PageTableEntry, HypervisorError>(
                HypervisorError::Resolution,
            ),
    {
        let page = pa / PAGE_SIZE;
        if page < self.entries.len() as u64 {
            Ok(self.entries[page as usize])
        } else {
            Err(HypervisorError::Resolution)
        }
    }

    /// Replaces the access policy of the page holding `pa`, leaving its
    /// frame untouched. Fails, mutating nothing, if `pa` is unmapped.
    pub fn set_page_access(&mut self, pa: u64, access: AccessType) -> (r: Result<
        (),
        HypervisorError,
    >)
        ensures
            page_of(pa) < old(self)@.len() ==> r == Ok::<(), HypervisorError>(()) && final(self)@
                == old(self)@.update(
                page_of(pa),
                (PageTableEntry { frame: old(self)@[page_of(pa)].frame, access }),
            ),
            page_of(pa) >= old(self)@.len() ==> r == Err::<(), HypervisorError>(
                HypervisorError::Resolution,
            ) && final(self)@ == old(self)@,
    {
        let page = pa / PAGE_SIZE;
        if page < self.entries.len() as u64 {
            let frame = self.entries[page as usize].frame;
            self.entries[page as usize] = PageTableEntry { frame, access };
            Ok(())
        } else {
            Err(HypervisorError::Resolution)
        }
    }

    /// Repoints the page holding `pa` at `frame` and replaces its access
    /// policy in the same step: the mutation `enable_hooks` performs on
    /// the secondary view. Fails, mutating nothing, if `pa` is unmapped.
    pub fn remap_page(&mut self, pa: u64, frame: u64, access: AccessType) -> (r: Result<
        (),
        HypervisorError,
    >)
        ensures
            page_of(pa) < old(self)@.len() ==> r == Ok::<(), HypervisorError>(()) && final(self)@
                == old(self)@.update(page_of(pa), (PageTableEntry { frame, access })),
            page_of(pa) >= old(self)@.len() ==> r == Err::<(), HypervisorError>(
                HypervisorError::Resolution,
            ) && final(self)@ == old(self)@,
    {
        let page = pa / PAGE_SIZE;
        if page < self.entries.len() as u64 {
            self.entries[page as usize] = PageTableEntry { frame, access };
            Ok(())
        } else {
            Err(HypervisorError::Resolution)
        }
    }
}

} // verus!
