//! Trampoline construction and hook installation: a three-word,
//! position-independent instruction sequence that redirects execution at one
//! hook site to a handler, written under a writable-code scope; and the
//! explicit mapping from a recognized caller address to its handler, with
//! pass-through for every other caller.

use vstd::prelude::*;

use crate::memory::{apply_writes_seq, MemoryImage, PatchWrite};
use crate::privilege::{scope_result, with_writable_code, Os};
use crate::PatchError;

verus! {

/// "Load the literal two words ahead into the scratch register": the first
/// word of the trampoline.
pub const LOAD_LITERAL_WORD: u32 = 0xE59F_C000;

/// "Branch-exchange through the scratch register": the second word.
pub const BRANCH_EXCHANGE_WORD: u32 = 0xE12F_FF1C;

/// A three-word, position-independent hook sequence: load the literal that
/// follows into a scratch register, branch-exchange through that register,
/// and the literal itself, the handler's address. It needs no
/// relative-addressing fixups, so it can be written to any hook site as is.
#[derive(Clone, Copy, Debug, PartialEq, Eq, Structural)]
pub struct TrampolineBlock {
    pub load_literal: u32,
    pub branch_exchange: u32,
    pub handler_addr: u32,
}

impl TrampolineBlock {
    /// The block as the word sequence written to the hook site.
    pub open spec fn words(self) -> Seq<u32> {
        seq![self.load_literal, self.branch_exchange, self.handler_addr]
    }
}

/// Synthesizes the trampoline that redirects execution to `handler_addr`.
pub fn build_trampoline(handler_addr: u32) -> (t: TrampolineBlock)
    ensures
        t == (TrampolineBlock {
            load_literal: LOAD_LITERAL_WORD,
            branch_exchange: BRANCH_EXCHANGE_WORD,
            handler_addr,
        }),
{
    TrampolineBlock {
        load_literal: LOAD_LITERAL_WORD,
        branch_exchange: BRANCH_EXCHANGE_WORD,
        handler_addr,
    }
}

/// The three word writes that place the trampoline for `handler_addr` at
/// `hook_site`.
pub open spec fn trampoline_write_seq(hook_site: u32, handler_addr: u32) -> Seq<PatchWrite> {
    seq![
        PatchWrite { addr: hook_site, word: LOAD_LITERAL_WORD },
        PatchWrite { addr: (hook_site + 4) as u32, word: BRANCH_EXCHANGE_WORD },
        PatchWrite { addr: (hook_site + 8) as u32, word: handler_addr },
    ]
}

/// Builds the write list that places the trampoline for `handler_addr` at
/// `hook_site`.
pub fn trampoline_writes(hook_site: u32, handler_addr: u32) -> (ws: Vec<PatchWrite>)
    requires
        hook_site + 8 <= u32::MAX,
    ensures
        ws@ == trampoline_write_seq(hook_site, handler_addr),
{
    let t = build_trampoline(handler_addr);
    let mut ws: Vec<PatchWrite> = Vec::new();
    ws.push(PatchWrite { addr: hook_site, word: t.load_literal });
    ws.push(PatchWrite { addr: hook_site + 4, word: t.branch_exchange });
    ws.push(PatchWrite { addr: hook_site + 8, word: t.handler_addr });
    proof {
        assert(ws@ =~= trampoline_write_seq(hook_site, handler_addr));
    }
    ws
}

/// Installs the hook that redirects execution at `hook_site` to
/// `handler_addr`: builds the trampoline and writes it under a writable-code
/// scope. Once written, the trampoline permanently replaces the original
/// instructions at the site. A site too close to the top of the address
/// space, whose three words cannot all be addressed, is rejected before any
/// OS call is made.
pub fn install_hook(
    os: &mut Os,
    region: &mut MemoryImage,
    hook_site: u32,
    handler_addr: u32,
) -> (r: Result<(), PatchError>)
    requires
        old(os).wf(),
        old(os).pending().len() >= 5,
    ensures
        hook_site > u32::MAX - 8 ==> r == Err::<(), PatchError>(PatchError::OutOfRange)
            && *final(os) == *old(os) && *final(region) == *old(region),
        hook_site <= u32::MAX - 8 ==> scope_result(
            *old(os),
            *old(region),
            trampoline_write_seq(hook_site, handler_addr),
            *final(os),
            *final(region),
            r,
        ),
{
    if hook_site > u32::MAX - 8 {
        return Err(PatchError::OutOfRange);
    }
    let ws = trampoline_writes(hook_site, handler_addr);
    with_writable_code(os, region, &ws)
}

/// Law: installing the same hook twice produces a region byte-identical to
/// installing it once.
pub proof fn lemma_install_hook_idempotent(
    s: Seq<u32>,
    base: u32,
    hook_site: u32,
    handler_addr: u32,
)
    ensures
        apply_writes_seq(
            apply_writes_seq(s, base, trampoline_write_seq(hook_site, handler_addr)),
            base,
            trampoline_write_seq(hook_site, handler_addr),
        ) == apply_writes_seq(s, base, trampoline_write_seq(hook_site, handler_addr)),
{
    crate::memory::lemma_apply_writes_idempotent(
        s,
        base,
        trampoline_write_seq(hook_site, handler_addr),
    );
}

/// One recognized caller address bound to the handler that serves it.
#[derive(Clone, Copy, Debug, PartialEq, Eq, Structural)]
pub struct HookBinding {
    pub caller_addr: u32,
    pub handler_addr: u32,
}

/// The handler of the first binding at `caller_addr` in `bindings` from
/// position `i` on, if a binding recognizes that caller.
pub open spec fn lookup_from(bindings: Seq<HookBinding>, caller_addr: u32, i: int) -> Option<u32>
    decreases bindings.len() - i,
{
    if i < 0 || i >= bindings.len() {
        None
    } else if bindings[i].caller_addr == caller_addr {
        Some(bindings[i].handler_addr)
    } else {
        lookup_from(bindings, caller_addr, i + 1)
    }
}

/// The explicit dispatch of an installed hook: a mapping from a recognized
/// caller address to its handler. Any caller not on the list falls through to
/// the unmodified original behavior.
pub struct HookMap {
    pub bindings: Vec<HookBinding>,
}

impl HookMap {
    /// The handler bound to `caller_addr`, if the map recognizes it.
    pub open spec fn lookup_spec(self, caller_addr: u32) -> Option<u32> {
        lookup_from(self.bindings@, caller_addr, 0)
    }

    /// Builds the dispatch map from its bindings.
    pub fn new(bindings: Vec<HookBinding>) -> (m: HookMap)
        ensures
            m.bindings@ == bindings@,
    {
        HookMap { bindings }
    }

    /// The handler that serves `caller_addr`, or nothing when the caller is
    /// not recognized and control must fall through unmodified.
    pub fn dispatch(&self, caller_addr: u32) -> (r: Option<u32>)
        ensures
            r == self.lookup_spec(caller_addr),
    {
        let mut i: usize = 0;
        while i < self.bindings.len()
            invariant
                i <= self.bindings@.len(),
                lookup_from(self.bindings@, caller_addr, 0) == lookup_from(
                    self.bindings@,
                    caller_addr,
                    i as int,
                ),
            decreases self.bindings@.len() - i,
        {
            if self.bindings[i].caller_addr == caller_addr {
                return Some(self.bindings[i].handler_addr);
            }
            i = i + 1;
        }
        None
    }
}

} // verus!
