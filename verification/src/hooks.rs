//! The hook manager and its trampoline mechanism.
//!
//! A [`Hook`] describes one intercepted routine: the original bytes its
//! patch overwrites, a trampoline that replays those bytes and jumps back
//! to the first unpatched instruction, and a shadow copy of the target's
//! page whose only difference from the original is the detour written over
//! the patch range. [`HookManager::enable_hooks`] programs the two EPT
//! views so that executing the page runs the shadow copy while reading it
//! returns the clean original, and its view-selection policy decides, on
//! an EPT violation, which view services the next access.

use vstd::prelude::*;

use crate::ept::AccessType;
use crate::ept::Ept;
use crate::ept::EptViewKind;
use crate::ept::PAGE_SIZE;
use crate::ept::PageTableEntry;
use crate::ept::page_of;
use crate::error::HypervisorError;

verus! {

/// Length of the detour and of the trampoline's return jump: an absolute
/// indirect jump (`ff 25 00 00 00 00`) followed by its 8-byte
/// little-endian destination.
pub const DETOUR_LEN: usize = 14;

/// The single-byte no-op that pads a patch past the detour up to the next
/// whole instruction.
pub const NOP: u8 = 0x90;

/// The longest encoding the instruction set permits for one instruction;
/// a reported instruction length outside `1..=MAX_INSTR_LEN` marks a
/// corrupt length run and fails resolution.
pub const MAX_INSTR_LEN: usize = 15;

/// The 14 bytes of an absolute jump to `dest`.
pub open spec fn jmp_abs_bytes(dest: u64) -> Seq<u8> {
    seq![
        0xffu8,
        0x25u8,
        0x00u8,
        0x00u8,
        0x00u8,
        0x00u8,
        (dest & 0xff) as u8,
        ((dest >> 8) & 0xff) as u8,
        ((dest >> 16) & 0xff) as u8,
        ((dest >> 24) & 0xff) as u8,
        ((dest >> 32) & 0xff) as u8,
        ((dest >> 40) & 0xff) as u8,
        ((dest >> 48) & 0xff) as u8,
        ((dest >> 56) & 0xff) as u8,
    ]
}

/// Appends the encoding of an absolute jump to `dest`.
fn push_jmp_abs(buf: &mut Vec<u8>, dest: u64)
    ensures
        final(buf)@ == old(buf)@ + jmp_abs_bytes(dest),
{
    buf.push(0xff);
    buf.push(0x25);
    buf.push(0x00);
    buf.push(0x00);
    buf.push(0x00);
    buf.push(0x00);
    buf.push((dest & 0xff) as u8);
    buf.push(((dest >> 8) & 0xff) as u8);
    buf.push(((dest >> 16) & 0xff) as u8);
    buf.push(((dest >> 24) & 0xff) as u8);
    buf.push(((dest >> 32) & 0xff) as u8);
    buf.push(((dest >> 40) & 0xff) as u8);
    buf.push(((dest >> 48) & 0xff) as u8);
    buf.push(((dest >> 56) & 0xff) as u8);
    proof {
        assert(buf@ =~= old(buf)@ + jmp_abs_bytes(dest));
    }
}

/// The length of the shortest run of whole instructions covering `need`
/// bytes, or `None` if the run is exhausted first or holds a length no
/// real instruction can have.
pub open spec fn patch_run_len(lens: Seq<usize>, need: int) -> Option<int>
    decreases lens.len(),
{
    if need <= 0 {
        Some(0int)
    } else if lens.len() == 0 {
        None
    } else if lens[0] < 1 || lens[0] > MAX_INSTR_LEN {
        None
    } else {
        match patch_run_len(lens.drop_first(), need - lens[0]) {
            Some(rest) => Some(lens[0] + rest),
            None => None,
        }
    }
}

/// Walks the instruction-length run from position `i` until `need` bytes
/// are covered by whole instructions.
fn patch_len_from(lens: &Vec<usize>, i: usize, need: usize) -> (r: Option<usize>)
    requires
        i <= lens@.len(),
        need <= DETOUR_LEN,
    ensures
        r is Some <==> patch_run_len(lens@.skip(i as int), need as int) is Some,
        r matches Some(v) ==> patch_run_len(lens@.skip(i as int), need as int) == Some(v as int)
            && need <= v <= need + MAX_INSTR_LEN,
    decreases lens@.len() - i,
{
    if need == 0 {
        return Some(0);
    }
    if i == lens.len() {
        return None;
    }
    let len = lens[i];
    if len < 1 || len > MAX_INSTR_LEN {
        return None;
    }
    proof {
        assert(lens@.skip(i as int)[0] == lens@[i as int]);
        assert(lens@.skip(i as int).drop_first() =~= lens@.skip(i as int + 1));
    }
    if len >= need {
        proof {
            assert(patch_run_len(lens@.skip(i as int + 1), need - len) == Some(0int));
        }
        Some(len)
    } else {
        match patch_len_from(lens, i + 1, need - len) {
            Some(rest) => Some(len + rest),
            None => None,
        }
    }
}

/// Copies a byte buffer one element at a time.
fn copy_page(page_bytes: &Vec<u8>) -> (r: Vec<u8>)
    ensures
        r@ == page_bytes@,
{
    let n = page_bytes.len();
    let mut r: Vec<u8> = Vec::new();
    let mut k: usize = 0;
    while k < n
        invariant
            k <= n,
            n == page_bytes@.len(),
            r@ == page_bytes@.subrange(0, k as int),
        decreases n - k,
    {
        r.push(page_bytes[k]);
        k = k + 1;
        proof {
            assert(page_bytes@.subrange(0, k as int) =~= page_bytes@.subrange(
                0,
                k as int - 1,
            ).push(page_bytes@[k as int - 1]));
        }
    }
    proof {
        assert(page_bytes@.subrange(0, n as int) =~= page_bytes@);
    }
    r
}

/// Copies `len` bytes of a buffer starting at `start`.
fn copy_range(page_bytes: &Vec<u8>, start: usize, len: usize) -> (r: Vec<u8>)
    requires
        start + len <= page_bytes@.len(),
    ensures
        r@ == page_bytes@.subrange(start as int, start as int + len as int),
{
    let n = page_bytes.len();
    let mut r: Vec<u8> = Vec::new();
    let mut k: usize = 0;
    while k < len
        invariant
            k <= len,
            start + len <= n,
            n == page_bytes@.len(),
            r@ == page_bytes@.subrange(start as int, start as int + k as int),
        decreases len - k,
    {
        r.push(page_bytes[start + k]);
        k = k + 1;
        proof {
            assert(page_bytes@.subrange(start as int, start as int + k) =~= page_bytes@.subrange(
                start as int,
                start as int + k - 1,
            ).push(page_bytes@[start as int + k - 1]));
        }
    }
    r
}

/// The in-place patch of one hooked routine: the bytes the patch
/// overwrote and the trampoline that replays them.
pub struct InlineHook {
    /// Physical address of the patched routine's first byte.
    pub target_pa: u64,
    /// Where the detour transfers control.
    pub handler: u64,
    /// How many bytes the patch covers: the shortest whole-instruction
    /// run of at least [`DETOUR_LEN`] bytes.
    pub patch_len: usize,
    /// The original bytes the patch overwrote.
    pub original_bytes: Vec<u8>,
    /// The generated code buffer: the original bytes followed by an
    /// absolute jump back to the first unpatched instruction.
    pub trampoline: Vec<u8>,
    /// The instruction-length run the patch boundary was derived from.
    pub instr_run: Ghost<Seq<usize>>,
}

/// The strategy a hook intercepts with. Function hooks patch the routine
/// in place; the enum leaves room for other strategies.
pub enum HookType {
    Function { inline_hook: InlineHook },
}

/// One registered hook: an immutable descriptor owned by the manager for
/// its whole lifetime, only ever enabled or disabled as a whole.
pub struct Hook {
    /// Physical address of the hooked routine's first byte.
    pub target_pa: u64,
    /// Where the detour transfers control.
    pub handler: u64,
    /// The freshly allocated physical frame holding the shadow copy.
    pub shadow_frame: u64,
    /// A byte-exact copy of the target's page before patching.
    pub original_page: Vec<u8>,
    /// The patched copy: the original page with the detour written over
    /// the patch range. The secondary view maps the hooked page here.
    pub shadow_page: Vec<u8>,
    /// The patching strategy and its artifacts.
    pub hook_type: HookType,
}

impl Hook {
    /// The page the hooked routine starts in.
    pub open spec fn page(self) -> int {
        page_of(self.target_pa)
    }

    /// The routine's offset inside its page.
    pub open spec fn offset(self) -> int {
        self.target_pa as int % PAGE_SIZE as int
    }

    /// The inline patch behind this hook.
    pub open spec fn inline(self) -> InlineHook {
        match self.hook_type {
            HookType::Function { inline_hook } => inline_hook,
        }
    }

    /// Bytes the patch covers.
    pub open spec fn patch_len(self) -> int {
        self.inline().patch_len as int
    }

    /// Everything registration establishes and the manager preserves.
    pub open spec fn wf(self) -> bool {
        &&& self.inline().target_pa == self.target_pa
        &&& self.inline().handler == self.handler
        &&& self.shadow_frame != self.page()
        &&& self.original_page@.len() == PAGE_SIZE
        &&& self.shadow_page@.len() == PAGE_SIZE
        &&& DETOUR_LEN <= self.patch_len()
        &&& self.offset() + self.patch_len() <= PAGE_SIZE
        &&& self.target_pa + self.patch_len() <= u64::MAX
        &&& patch_run_len(self.inline().instr_run@, DETOUR_LEN as int) == Some(self.patch_len())
        &&& self.inline().original_bytes@ == self.original_page@.subrange(
            self.offset(),
            self.offset() + self.patch_len(),
        )
        &&& self.inline().trampoline@ == self.inline().original_bytes@ + jmp_abs_bytes(
            (self.target_pa + self.patch_len()) as u64,
        )
        &&& self.shadow_page@.subrange(self.offset(), self.offset() + DETOUR_LEN) == jmp_abs_bytes(
            self.handler,
        )
        &&& forall|k: int|
            self.offset() + DETOUR_LEN <= k < self.offset() + self.patch_len()
                ==> self.shadow_page@[k] == NOP
        &&& forall|k: int|
            0 <= k < PAGE_SIZE && !(self.offset() <= k < self.offset() + self.patch_len())
                ==> self.shadow_page@[k] == self.original_page@[k]
    }

    /// Registers a function hook on the routine at physical address
    /// `target_pa`.
    ///
    /// `page_bytes` is a byte-exact copy of the routine's page, read
    /// before any patching; `instr_lens` is the run of instruction
    /// lengths starting at the routine's first byte, as the disassembly
    /// collaborator reported it; `shadow_frame` is the physical frame of
    /// a freshly allocated page, so never the target's own frame. The
    /// last page of the address space cannot host a hooked routine: its
    /// patch would have no instruction to return to.
    ///
    /// Registration fails with a resolution error — and only then — when
    /// the length run cannot cover the detour with whole instructions, or
    /// when fewer bytes remain before the page boundary than the patch
    /// needs.
    pub fn hook_function(
        target_pa: u64,
        page_bytes: &Vec<u8>,
        instr_lens: &Vec<usize>,
        handler: u64,
        shadow_frame: u64,
    ) -> (r: Result<Hook, HypervisorError>)
        requires
            page_bytes@.len() == PAGE_SIZE,
            shadow_frame as int != page_of(target_pa),
            target_pa <= u64::MAX - PAGE_SIZE,
        ensures
            (r is Ok <==> (patch_run_len(instr_lens@, DETOUR_LEN as int) matches Some(l)
                && target_pa as int % PAGE_SIZE as int + l <= PAGE_SIZE)),
            r is Err ==> r == Err::<Hook, HypervisorError>(HypervisorError::Resolution),
            r matches Ok(h) ==> h.wf() && h.target_pa == target_pa && h.handler == handler
                && h.shadow_frame == shadow_frame && h.original_page@ == page_bytes@
                && patch_run_len(instr_lens@, DETOUR_LEN as int) == Some(h.patch_len()),
    {
        proof {
            assert(instr_lens@.skip(0) =~= instr_lens@);
        }
        let patch_len = match patch_len_from(instr_lens, 0, DETOUR_LEN) {
            Some(l) => l,
            None => { return Err(HypervisorError::Resolution) },
        };
        let offset = (target_pa % PAGE_SIZE) as usize;
        if offset + patch_len > PAGE_SIZE as usize {
            return Err(HypervisorError::Resolution);
        }

        let original_bytes = copy_range(page_bytes, offset, patch_len);

        let mut trampoline = copy_range(page_bytes, offset, patch_len);
        push_jmp_abs(&mut trampoline, target_pa + patch_len as u64);

        let mut detour: Vec<u8> = Vec::new();
        push_jmp_abs(&mut detour, handler);
        proof {
            assert(jmp_abs_bytes(handler).len() == DETOUR_LEN);
        }

        let mut shadow_page = copy_page(page_bytes);
        let mut k: usize = 0;
        while k < DETOUR_LEN
            invariant
                k <= DETOUR_LEN,
                DETOUR_LEN <= patch_len,
                offset + patch_len <= PAGE_SIZE,
                page_bytes@.len() == PAGE_SIZE,
                detour@ == jmp_abs_bytes(handler),
                detour@.len() == DETOUR_LEN,
                shadow_page@.len() == PAGE_SIZE,
                forall|j: int|
                    0 <= j < PAGE_SIZE && !(offset <= j < offset + k) ==> shadow_page@[j]
                        == page_bytes@[j],
                forall|j: int|
                    offset <= j < offset + k ==> shadow_page@[j] == jmp_abs_bytes(handler)[j
                        - offset],
            decreases DETOUR_LEN - k,
        {
            shadow_page[offset + k] = detour[k];
            k = k + 1;
        }
        let mut k: usize = DETOUR_LEN;
        while k < patch_len
            invariant
                DETOUR_LEN <= k <= patch_len,
                offset + patch_len <= PAGE_SIZE,
                page_bytes@.len() == PAGE_SIZE,
                shadow_page@.len() == PAGE_SIZE,
                forall|j: int|
                    0 <= j < PAGE_SIZE && !(offset <= j < offset + k) ==> shadow_page@[j]
                        == page_bytes@[j],
                forall|j: int|
                    offset <= j < offset + DETOUR_LEN ==> shadow_page@[j] == jmp_abs_bytes(
                        handler,
                    )[j - offset],
                forall|j: int| offset + DETOUR_LEN <= j < offset + k ==> shadow_page@[j] == NOP,
            decreases patch_len - k,
        {
            shadow_page[offset + k] = NOP;
            k = k + 1;
        }
        proof {
            assert(shadow_page@.subrange(offset as int, offset as int + DETOUR_LEN as int)
                =~= jmp_abs_bytes(handler));
        }

        let hook = Hook {
            target_pa,
            handler,
            shadow_frame,
            original_page: copy_page(page_bytes),
            shadow_page,
            hook_type: HookType::Function {
                inline_hook: InlineHook {
                    target_pa,
                    handler,
                    patch_len,
                    original_bytes,
                    trampoline,
                    instr_run: Ghost(instr_lens@),
                },
            },
        };
        Ok(hook)
    }
}

/// Owner of every hook and of the shadow pages backing them, and the
/// single authority deciding which view services the next access to a
/// hooked frame.
pub struct HookManager {
    hooks: Vec<Hook>,
}

impl View for HookManager {
    type V = Seq<Hook>;

    closed spec fn view(&self) -> Seq<Hook> {
        self.hooks@
    }
}

/// What enabling the hooks did to the two views, relating the views
/// before (`p0`, `s0`) and after (`p1`, `s1`): every page outside the
/// hooked set kept its descriptor in both views; each hooked page was
/// made read/write-only over its clean frame in the primary view and
/// execute-only over its shadow frame in the secondary view.
pub open spec fn hooks_enabled(
    hm: HookManager,
    p0: Seq<PageTableEntry>,
    s0: Seq<PageTableEntry>,
    p1: Seq<PageTableEntry>,
    s1: Seq<PageTableEntry>,
) -> bool {
    &&& p1.len() == p0.len()
    &&& s1.len() == s0.len()
    &&& forall|p: int|
        0 <= p < p0.len() && !hm.is_hooked_page(p) ==> p1[p] == p0[p]
    &&& forall|p: int|
        0 <= p < s0.len() && !hm.is_hooked_page(p) ==> s1[p] == s0[p]
    &&& forall|i: int|
        0 <= i < hm@.len() ==> p1[hm@[i].page()] == (PageTableEntry {
            frame: p0[hm@[i].page()].frame,
            access: AccessType { read: true, write: true, execute: false },
        })
    &&& forall|i: int|
        0 <= i < hm@.len() ==> s1[hm@[i].page()] == (PageTableEntry {
            frame: hm@[i].shadow_frame,
            access: AccessType { read: false, write: false, execute: true },
        })
}

impl HookManager {
    /// Every hook is well formed and no two hooks share a page: the
    /// manager's invariant, established at construction. (A page carries
    /// at most one patch; the shadow page of a second hook on the same
    /// page would discard the first one's.)
    pub open spec fn wf(self) -> bool {
        &&& forall|i: int| 0 <= i < self@.len() ==> self@[i].wf()
        &&& forall|i: int, j: int|
            0 <= i < j < self@.len() ==> self@[i].page() != self@[j].page()
    }

    /// Whether some hook owns `page`.
    pub open spec fn is_hooked_page(self, page: int) -> bool {
        exists|i: int| 0 <= i < self@.len() && self@[i].page() == page
    }

    /// Takes ownership of the registered hooks. The caller hands over
    /// well-formed hooks on pairwise distinct pages.
    pub fn new(hooks: Vec<Hook>) -> (hm: HookManager)
        requires
            forall|i: int| 0 <= i < hooks@.len() ==> hooks@[i].wf(),
            forall|i: int, j: int|
                0 <= i < j < hooks@.len() ==> hooks@[i].page() != hooks@[j].page(),
        ensures
            hm@ == hooks@,
            hm.wf(),
    {
        HookManager { hooks }
    }

    /// How many hooks are registered.
    pub fn hook_count(&self) -> (n: usize)
        ensures
            n == self@.len(),
    {
        self.hooks.len()
    }

    /// The hook at `index`.
    pub fn hook_at(&self, index: usize) -> (h: &Hook)
        requires
            index < self@.len(),
        ensures
            *h == self@[index as int],
    {
        &self.hooks[index]
    }

    /// Finds the hook owning the page of physical address `pa`.
    pub fn hook_index_for(&self, pa: u64) -> (r: Option<usize>)
        ensures
            r matches Some(i) ==> i < self@.len() && self@[i as int].page() == page_of(pa),
            r is None ==> !self.is_hooked_page(page_of(pa)),
    {
        let page = pa / PAGE_SIZE;
        let n = self.hooks.len();
        let mut i: usize = 0;
        while i < n
            invariant
                i <= n,
                n == self@.len(),
                page as int == page_of(pa),
                forall|j: int| 0 <= j < i ==> self@[j].page() != page_of(pa),
            decreases n - i,
        {
            let hooked_page = self.hooks[i].target_pa / PAGE_SIZE;
            if hooked_page == page {
                return Some(i);
            }
            i = i + 1;
        }
        None
    }

    /// Programs both views for every registered hook: the hooked page
    /// becomes read/write-only over its clean frame in the primary view
    /// and execute-only over the shadow frame in the secondary view, so
    /// that at launch (under the secondary view) execution runs the
    /// detour while any read of the page's bytes faults into the
    /// view-selection policy.
    ///
    /// Fails, mutating neither view, if some hooked page lies outside
    /// the mapped range of the (equally sized) views.
    pub fn enable_hooks(&self, primary: &mut Ept, secondary: &mut Ept) -> (r: Result<
        (),
        HypervisorError,
    >)
        requires
            self.wf(),
            old(primary)@.len() == old(secondary)@.len(),
        ensures
            (r is Ok <==> forall|i: int|
                0 <= i < self@.len() ==> self@[i].page() < old(primary)@.len()),
            r is Err ==> r == Err::<(), HypervisorError>(HypervisorError::Resolution)
                && final(primary)@ == old(primary)@ && final(secondary)@ == old(secondary)@,
            r is Ok ==> hooks_enabled(
                *self,
                old(primary)@,
                old(secondary)@,
                final(primary)@,
                final(secondary)@,
            ),
    {
        let n = self.hooks.len();
        let count = primary.page_count();
        let mut i: usize = 0;
        while i < n
            invariant
                i <= n,
                n == self@.len(),
                count == primary@.len(),
                forall|j: int| 0 <= j < i ==> self@[j].page() < count,
            decreases n - i,
        {
            if self.hooks[i].target_pa / PAGE_SIZE >= count as u64 {
                return Err(HypervisorError::Resolution);
            }
            i = i + 1;
        }

        let ghost p0 = primary@;
        let ghost s0 = secondary@;
        let mut i: usize = 0;
        while i < n
            invariant
                i <= n,
                n == self@.len(),
                self.wf(),
                forall|j: int| 0 <= j < n ==> self@[j].page() < p0.len(),
                p0.len() == s0.len(),
                primary@.len() == p0.len(),
                secondary@.len() == s0.len(),
                forall|p: int|
                    0 <= p < p0.len() && !self.is_hooked_page(p) ==> primary@[p] == p0[p],
                forall|p: int|
                    0 <= p < s0.len() && !self.is_hooked_page(p) ==> secondary@[p] == s0[p],
                forall|j: int|
                    0 <= j < i ==> primary@[self@[j].page()] == (PageTableEntry {
                        frame: p0[self@[j].page()].frame,
                        access: AccessType { read: true, write: true, execute: false },
                    }),
                forall|j: int|
                    0 <= j < i ==> secondary@[self@[j].page()] == (PageTableEntry {
                        frame: self@[j].shadow_frame,
                        access: AccessType { read: false, write: false, execute: true },
                    }),
                forall|j: int|
                    i <= j < n ==> primary@[self@[j].page()] == p0[self@[j].page()]
                        && secondary@[self@[j].page()] == s0[self@[j].page()],
            decreases n - i,
        {
            let pa = self.hooks[i].target_pa;
            let shadow_frame = self.hooks[i].shadow_frame;
            proof {
                assert(self.is_hooked_page(self@[i as int].page()));
            }
            let _primary_done = primary.set_page_access(pa, AccessType::read_write());
            let _secondary_done = secondary.remap_page(
                pa,
                shadow_frame,
                AccessType::execute_only(),
            );
            i = i + 1;
        }
        Ok(())
    }

    /// The view-selection policy as a value: which view the manager
    /// binds next for a violation of `pa` with access `attempted` under
    /// `current`, or the error that makes the violation fatal.
    pub open spec fn violation_verdict_of(
        self,
        current: EptViewKind,
        pa: u64,
        attempted: AccessType,
    ) -> Result<EptViewKind, HypervisorError> {
        if !self.is_hooked_page(page_of(pa)) {
            Err(HypervisorError::UnhandledExit)
        } else if current is Secondary && (attempted.read || attempted.write) {
            Ok(EptViewKind::Primary)
        } else if current is Primary && attempted.execute {
            Ok(EptViewKind::Secondary)
        } else {
            Err(HypervisorError::UnhandledExit)
        }
    }

    /// The view-selection policy applied on an EPT violation: the single
    /// decision point resolving which view backs the faulting access
    /// next.
    ///
    /// A read or write that faulted under the secondary view switches to
    /// the primary view, whose clean page satisfies it; an execute that
    /// faulted under the primary view switches back to the secondary
    /// view. Any other violation — in particular one on a page no hook
    /// owns, which the uniformly permissive policy of both views never
    /// produces — has no defined handling and is fatal.
    pub fn handle_ept_violation(
        &self,
        current: EptViewKind,
        pa: u64,
        attempted: AccessType,
    ) -> (r: Result<EptViewKind, HypervisorError>)
        ensures
            r == self.violation_verdict_of(current, pa, attempted),
    {
        if self.hook_index_for(pa).is_none() {
            return Err(HypervisorError::UnhandledExit);
        }
        match current {
            EptViewKind::Secondary => {
                if attempted.read || attempted.write {
                    Ok(EptViewKind::Primary)
                } else {
                    Err(HypervisorError::UnhandledExit)
                }
            },
            EptViewKind::Primary => {
                if attempted.execute {
                    Ok(EptViewKind::Secondary)
                } else {
                    Err(HypervisorError::UnhandledExit)
                }
            },
        }
    }
}

/// Law: outside the hooked set the two views stay structurally
/// identical. Views that were equal before the hooks were enabled — as
/// two freshly built identity maps with one default policy are — resolve
/// the same frame with the same access policy for every page no hook
/// owns, so switching the whole view on a violation starves no unrelated
/// page of a required access.
pub proof fn lemma_views_agree_outside_hooks(
    hm: HookManager,
    p0: Seq<PageTableEntry>,
    s0: Seq<PageTableEntry>,
    p1: Seq<PageTableEntry>,
    s1: Seq<PageTableEntry>,
    page: int,
)
    requires
        hm.wf(),
        p0 == s0,
        hooks_enabled(hm, p0, s0, p1, s1),
        0 <= page < p1.len(),
        !hm.is_hooked_page(page),
    ensures
        p1[page] == s1[page],
{
}

/// Law: at every enabled hook the two views really diverge. Over views
/// that started identity-mapped, the secondary view backs the hook's
/// page with a different physical frame than the primary view, and that
/// shadow frame's content equals the original page's content everywhere
/// outside the patched byte range.
pub proof fn lemma_hooked_page_differs(
    hm: HookManager,
    default_access: AccessType,
    p0: Seq<PageTableEntry>,
    s0: Seq<PageTableEntry>,
    p1: Seq<PageTableEntry>,
    s1: Seq<PageTableEntry>,
    i: int,
)
    requires
        hm.wf(),
        crate::ept::identity_mapped(p0, default_access),
        hooks_enabled(hm, p0, s0, p1, s1),
        0 <= i < hm@.len(),
        hm@[i].page() < p0.len(),
    ensures
        s1[hm@[i].page()].frame != p1[hm@[i].page()].frame,
        forall|k: int|
            0 <= k < PAGE_SIZE && !(hm@[i].offset() <= k < hm@[i].offset() + hm@[i].patch_len())
                ==> hm@[i].shadow_page@[k] == hm@[i].original_page@[k],
{
    assert(p1[hm@[i].page()].frame == hm@[i].page());
    assert(s1[hm@[i].page()].frame == hm@[i].shadow_frame);
}

/// Law: the trampoline replays exactly the bytes the patch overwrote and
/// then continues at the first unpatched instruction. Its buffer is the
/// original prologue — a whole-instruction run, so the patch split no
/// instruction — followed by an absolute jump back to the byte right
/// after the patch; executing it therefore reproduces the side effects
/// of the original, unpatched prologue and resumes normal execution.
pub proof fn lemma_trampoline_round_trip(h: Hook)
    requires
        h.wf(),
    ensures
        h.inline().trampoline@.len() == h.patch_len() + DETOUR_LEN,
        h.inline().trampoline@.subrange(0, h.patch_len()) == h.original_page@.subrange(
            h.offset(),
            h.offset() + h.patch_len(),
        ),
        h.inline().trampoline@.subrange(
            h.patch_len(),
            h.patch_len() + DETOUR_LEN as int,
        ) == jmp_abs_bytes((h.target_pa + h.patch_len()) as u64),
        patch_run_len(h.inline().instr_run@, DETOUR_LEN as int) == Some(h.patch_len()),
{
    assert(jmp_abs_bytes((h.target_pa + h.patch_len()) as u64).len() == DETOUR_LEN);
    assert(h.inline().trampoline@.subrange(0, h.patch_len()) =~= h.inline().original_bytes@);
    assert(h.inline().trampoline@.subrange(h.patch_len(), h.patch_len() + DETOUR_LEN as int)
        =~= jmp_abs_bytes((h.target_pa + h.patch_len()) as u64));
}

} // verus!
