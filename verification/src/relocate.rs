//! Repointing the fixed set of known pointer slots at a new, larger row
//! table, and rewriting every known bound-check instruction site to the new
//! table length. The site lists are enumerated once, up front, and must be
//! exhaustive by construction: a slot or site left off a list silently keeps
//! the old table or bound, which is why the contracts here say exactly which
//! words change and that no other word does.

use vstd::prelude::*;

use crate::encoder::{
    cmp_imm_word, encode_compare_immediate, IMMEDIATE_LIMIT, REGISTER_LIMIT,
};
use crate::memory::{
    apply_writes_seq, lemma_apply_writes_distinct, region_word_addr, region_word_index,
    MemoryImage, PatchWrite,
};
use crate::privilege::{scope_result, with_writable_code, Os};
use crate::PatchError;

verus! {

/// One location of an immediate-comparison instruction that limits a loop
/// index to the row-table length: its address, and the register the
/// comparison reads.
#[derive(Clone, Copy, Debug, PartialEq, Eq, Structural)]
pub struct BoundsCheckSite {
    pub addr: u32,
    pub register: u32,
}

/// The writes that overwrite every listed pointer slot with the address of
/// the new table.
pub open spec fn relocation_write_seq(slots: Seq<u32>, new_table_addr: u32) -> Seq<PatchWrite> {
    Seq::new(slots.len(), |i: int| PatchWrite { addr: slots[i], word: new_table_addr })
}

/// The writes that place the comparison word for the new count at every
/// listed bound-check site.
pub open spec fn bounds_check_write_seq(sites: Seq<BoundsCheckSite>, new_count: u32) -> Seq<
    PatchWrite,
> {
    Seq::new(
        sites.len(),
        |i: int| PatchWrite { addr: sites[i].addr, word: cmp_imm_word(sites[i].register, new_count) },
    )
}

/// True when every listed site's register and the new count fit their
/// instruction fields.
pub open spec fn bounds_check_encodable(sites: Seq<BoundsCheckSite>, new_count: u32) -> bool {
    &&& new_count < IMMEDIATE_LIMIT
    &&& forall|i: int| 0 <= i < sites.len() ==> (#[trigger] sites[i]).register < REGISTER_LIMIT
}

/// Builds the write list that repoints every listed pointer slot at
/// `new_table_addr`. Slots are independent and the write order is irrelevant;
/// consumers of the old table observe the new one by pointer indirection.
pub fn relocation_writes(slots: &Vec<u32>, new_table_addr: u32) -> (ws: Vec<PatchWrite>)
    ensures
        ws@ == relocation_write_seq(slots@, new_table_addr),
{
    let mut ws: Vec<PatchWrite> = Vec::new();
    let mut i: usize = 0;
    while i < slots.len()
        invariant
            i <= slots@.len(),
            ws@.len() == i,
            forall|k: int|
                0 <= k < i ==> ws@[k] == (PatchWrite { addr: slots@[k], word: new_table_addr }),
        decreases slots@.len() - i,
    {
        ws.push(PatchWrite { addr: slots[i], word: new_table_addr });
        i = i + 1;
    }
    proof {
        assert(ws@ =~= relocation_write_seq(slots@, new_table_addr));
    }
    ws
}

/// Builds the write list that places the comparison word for `new_count` at
/// every listed bound-check site, synthesizing each word with
/// `encode_compare_immediate`; reports `EncodingOverflow`, and builds
/// nothing, as soon as one operand exceeds its field width.
pub fn bounds_check_writes(sites: &Vec<BoundsCheckSite>, new_count: u32) -> (r: Result<
    Vec<PatchWrite>,
    PatchError,
>)
    ensures
        bounds_check_encodable(sites@, new_count) ==> (r matches Ok(ws) && ws@
            == bounds_check_write_seq(sites@, new_count)),
        !bounds_check_encodable(sites@, new_count) ==> r == Err::<Vec<PatchWrite>, PatchError>(
            PatchError::EncodingOverflow,
        ),
{
    if new_count >= IMMEDIATE_LIMIT {
        return Err(PatchError::EncodingOverflow);
    }
    let mut ws: Vec<PatchWrite> = Vec::new();
    let mut i: usize = 0;
    while i < sites.len()
        invariant
            new_count < IMMEDIATE_LIMIT,
            i <= sites@.len(),
            ws@.len() == i,
            forall|k: int| 0 <= k < i ==> (#[trigger] sites@[k]).register < REGISTER_LIMIT,
            forall|k: int|
                0 <= k < i ==> ws@[k] == (PatchWrite {
                    addr: sites@[k].addr,
                    word: cmp_imm_word(sites@[k].register, new_count),
                }),
        decreases sites@.len() - i,
    {
        let site = sites[i];
        let word = match encode_compare_immediate(site.register, new_count) {
            Ok(w) => w,
            Err(e) => {
                return Err(e);
            },
        };
        ws.push(PatchWrite { addr: site.addr, word });
        i = i + 1;
    }
    proof {
        assert(ws@ =~= bounds_check_write_seq(sites@, new_count));
    }
    Ok(ws)
}

/// Overwrites every listed pointer slot with the address of the new table,
/// under a writable-code scope.
pub fn relocate(
    os: &mut Os,
    region: &mut MemoryImage,
    pointer_slots: &Vec<u32>,
    new_table_addr: u32,
) -> (r: Result<(), PatchError>)
    requires
        old(os).wf(),
        old(os).pending().len() >= 5,
    ensures
        scope_result(
            *old(os),
            *old(region),
            relocation_write_seq(pointer_slots@, new_table_addr),
            *final(os),
            *final(region),
            r,
        ),
{
    let ws = relocation_writes(pointer_slots, new_table_addr);
    with_writable_code(os, region, &ws)
}

/// Rewrites every listed bound-check site to compare against `new_count`,
/// under a writable-code scope. An operand that does not fit its instruction
/// field is rejected before any OS call is made.
pub fn patch_bounds_checks(
    os: &mut Os,
    region: &mut MemoryImage,
    sites: &Vec<BoundsCheckSite>,
    new_count: u32,
) -> (r: Result<(), PatchError>)
    requires
        old(os).wf(),
        old(os).pending().len() >= 5,
    ensures
        !bounds_check_encodable(sites@, new_count) ==> r == Err::<(), PatchError>(
            PatchError::EncodingOverflow,
        ) && *final(os) == *old(os) && *final(region) == *old(region),
        bounds_check_encodable(sites@, new_count) ==> scope_result(
            *old(os),
            *old(region),
            bounds_check_write_seq(sites@, new_count),
            *final(os),
            *final(region),
            r,
        ),
{
    let ws = match bounds_check_writes(sites, new_count) {
        Ok(ws) => ws,
        Err(e) => {
            return Err(e);
        },
    };
    with_writable_code(os, region, &ws)
}

/// Law of exhaustive bound-check patching: over pairwise distinct in-range
/// sites, the patch leaves the comparison word for the new count at every
/// listed site, and every other word of the region exactly as it was. A site
/// left off the list silently keeps the old bound, which is why the list must
/// be exhaustive by construction.
pub proof fn lemma_patch_bounds_checks_exact(
    s: Seq<u32>,
    base: u32,
    sites: Seq<BoundsCheckSite>,
    new_count: u32,
)
    requires
        forall|k: int|
            0 <= k < sites.len() ==> region_word_addr(base, s.len(), (#[trigger] sites[k]).addr),
        forall|k: int, m: int| 0 <= k < m < sites.len() ==> sites[k].addr != sites[m].addr,
    ensures
        apply_writes_seq(s, base, bounds_check_write_seq(sites, new_count)).len() == s.len(),
        forall|k: int|
            0 <= k < sites.len() ==> apply_writes_seq(s, base, bounds_check_write_seq(
                sites,
                new_count,
            ))[region_word_index(base, (#[trigger] sites[k]).addr)] == cmp_imm_word(
                sites[k].register,
                new_count,
            ),
        forall|j: int|
            0 <= j < s.len() && (forall|k: int|
                0 <= k < sites.len() ==> region_word_index(base, (#[trigger] sites[k]).addr) != j)
                ==> apply_writes_seq(s, base, bounds_check_write_seq(sites, new_count))[j] == s[j],
{
    let ws = bounds_check_write_seq(sites, new_count);
    assert(forall|k: int| 0 <= k < ws.len() ==> (#[trigger] ws[k]).addr == sites[k].addr);
    lemma_apply_writes_distinct(s, base, ws);
    assert forall|k: int|
        0 <= k < sites.len() implies apply_writes_seq(s, base, ws)[region_word_index(
        base,
        (#[trigger] sites[k]).addr,
    )] == cmp_imm_word(sites[k].register, new_count) by {
        assert(ws[k].addr == sites[k].addr);
        assert(ws[k].word == cmp_imm_word(sites[k].register, new_count));
    }
}

/// Law of exhaustive relocation: over pairwise distinct in-range slots, the
/// relocation leaves the new table's address in every listed slot, and every
/// other word of the region exactly as it was.
pub proof fn lemma_relocate_exact(s: Seq<u32>, base: u32, slots: Seq<u32>, new_table_addr: u32)
    requires
        forall|k: int| 0 <= k < slots.len() ==> region_word_addr(base, s.len(), #[trigger] slots[k]),
        forall|k: int, m: int| 0 <= k < m < slots.len() ==> slots[k] != slots[m],
    ensures
        apply_writes_seq(s, base, relocation_write_seq(slots, new_table_addr)).len() == s.len(),
        forall|k: int|
            0 <= k < slots.len() ==> apply_writes_seq(s, base, relocation_write_seq(
                slots,
                new_table_addr,
            ))[region_word_index(base, #[trigger] slots[k])] == new_table_addr,
        forall|j: int|
            0 <= j < s.len() && (forall|k: int|
                0 <= k < slots.len() ==> region_word_index(base, #[trigger] slots[k]) != j)
                ==> apply_writes_seq(s, base, relocation_write_seq(slots, new_table_addr))[j]
                == s[j],
{
    let ws = relocation_write_seq(slots, new_table_addr);
    assert(forall|k: int| 0 <= k < ws.len() ==> (#[trigger] ws[k]).addr == slots[k]);
    lemma_apply_writes_distinct(s, base, ws);
    assert forall|k: int|
        0 <= k < slots.len() implies apply_writes_seq(s, base, ws)[region_word_index(
        base,
        #[trigger] slots[k],
    )] == new_table_addr by {
        assert(ws[k].addr == slots[k]);
        assert(ws[k].word == new_table_addr);
    }
}

/// The fixed, curated description of one patch session: where the pointer
/// slots and bound-check sites of the host binary stand, where the new tables
/// were placed, and the new row count.
pub struct PatchLayout {
    pub row_pointer_slots: Vec<u32>,
    pub row_table_addr: u32,
    pub bounds_check_sites: Vec<BoundsCheckSite>,
    pub row_count: u32,
    pub color_pointer_slots: Vec<u32>,
    pub color_table_addr: u32,
}

/// Every write one patch session performs: the row-table pointer slots, then
/// the bound-check sites, then the color-table pointer slots.
pub open spec fn setup_write_seq(layout: PatchLayout) -> Seq<PatchWrite> {
    relocation_write_seq(layout.row_pointer_slots@, layout.row_table_addr) + bounds_check_write_seq(
        layout.bounds_check_sites@,
        layout.row_count,
    ) + relocation_write_seq(layout.color_pointer_slots@, layout.color_table_addr)
}

/// One-shot setup: under a single writable-code scope, repoints every row
/// pointer slot at the new row table, rewrites every bound-check site to the
/// new row count, and repoints every color pointer slot at the new color
/// table. Setup either fully completes or aborts on its first error; an
/// operand that does not fit its instruction field is rejected before any OS
/// call is made.
pub fn setup_hooks(os: &mut Os, region: &mut MemoryImage, layout: &PatchLayout) -> (r: Result<
    (),
    PatchError,
>)
    requires
        old(os).wf(),
        old(os).pending().len() >= 5,
    ensures
        !bounds_check_encodable(layout.bounds_check_sites@, layout.row_count) ==> r == Err::<
            (),
            PatchError,
        >(PatchError::EncodingOverflow) && *final(os) == *old(os) && *final(region) == *old(
            region,
        ),
        bounds_check_encodable(layout.bounds_check_sites@, layout.row_count) ==> scope_result(
            *old(os),
            *old(region),
            setup_write_seq(*layout),
            *final(os),
            *final(region),
            r,
        ),
{
    let mut ws = relocation_writes(&layout.row_pointer_slots, layout.row_table_addr);
    let mut bounds_ws = match bounds_check_writes(&layout.bounds_check_sites, layout.row_count) {
        Ok(ws) => ws,
        Err(e) => {
            return Err(e);
        },
    };
    let mut color_ws = relocation_writes(&layout.color_pointer_slots, layout.color_table_addr);
    ws.append(&mut bounds_ws);
    ws.append(&mut color_ws);
    proof {
        assert(ws@ =~= setup_write_seq(*layout));
    }
    with_writable_code(os, region, &ws)
}

} // verus!
