//! The externally owned code region, modeled as an explicit memory-region
//! capability: a base address, the machine words the region holds, and its
//! current protection state. All patching runs against this model; whether
//! the live target still matches the declared layout is an inherent
//! assumption of the design, validated once when the region is described.

use vstd::prelude::*;

use crate::PatchError;

verus! {

/// Protection states a memory range can be put into.
#[derive(Clone, Copy, Debug, PartialEq, Eq, Structural)]
pub enum MemoryPermission {
    NoAccess,
    Read,
    Write,
    ReadWrite,
    Execute,
    ReadExecute,
    WriteExecute,
    ReadWriteExecute,
}

/// The numeric protection value the host OS understands.
pub open spec fn permission_code_spec(p: MemoryPermission) -> u32 {
    match p {
        MemoryPermission::NoAccess => 0,
        MemoryPermission::Read => 1,
        MemoryPermission::Write => 2,
        MemoryPermission::ReadWrite => 3,
        MemoryPermission::Execute => 4,
        MemoryPermission::ReadExecute => 5,
        MemoryPermission::WriteExecute => 6,
        MemoryPermission::ReadWriteExecute => 7,
    }
}

impl MemoryPermission {
    /// True when the protection admits stores.
    pub open spec fn is_writable(self) -> bool {
        self == MemoryPermission::Write || self == MemoryPermission::ReadWrite
            || self == MemoryPermission::WriteExecute || self == MemoryPermission::ReadWriteExecute
    }

    /// The numeric value a protection call passes to the host OS.
    pub fn code(&self) -> (r: u32)
        ensures
            r == permission_code_spec(*self),
    {
        match self {
            MemoryPermission::NoAccess => 0,
            MemoryPermission::Read => 1,
            MemoryPermission::Write => 2,
            MemoryPermission::ReadWrite => 3,
            MemoryPermission::Execute => 4,
            MemoryPermission::ReadExecute => 5,
            MemoryPermission::WriteExecute => 6,
            MemoryPermission::ReadWriteExecute => 7,
        }
    }
}

/// One machine word to place at one absolute address of the patched image.
#[derive(Clone, Copy, Debug, PartialEq, Eq, Structural)]
pub struct PatchWrite {
    pub addr: u32,
    pub word: u32,
}

/// True when `addr` names a word of a region of `len` words based at `base`.
pub open spec fn region_word_addr(base: u32, len: nat, addr: u32) -> bool {
    &&& base <= addr
    &&& (addr - base) % 4 == 0
    &&& (addr - base) / 4 < len
}

/// The word offset of `addr` within a region based at `base`.
pub open spec fn region_word_index(base: u32, addr: u32) -> int {
    (addr - base) / 4
}

/// The externally owned code region: its base address, current protection,
/// and word contents. The view is the sequence of words.
pub struct MemoryImage {
    base: u32,
    perm: MemoryPermission,
    words: Vec<u32>,
}

impl View for MemoryImage {
    type V = Seq<u32>;

    closed spec fn view(&self) -> Seq<u32> {
        self.words@
    }
}

impl MemoryImage {
    /// The lowest address of the region.
    pub closed spec fn base_spec(&self) -> u32 {
        self.base
    }

    /// The current protection of the region.
    pub closed spec fn perm_spec(&self) -> MemoryPermission {
        self.perm
    }

    /// True when `addr` names a word inside this region.
    pub open spec fn valid_word_addr(&self, addr: u32) -> bool {
        region_word_addr(self.base_spec(), self@.len(), addr)
    }

    /// The word offset of `addr` within this region.
    pub open spec fn word_index(&self, addr: u32) -> int {
        region_word_index(self.base_spec(), addr)
    }

    /// Describes a region: its base address, protection, and word contents.
    pub fn new(base: u32, perm: MemoryPermission, words: Vec<u32>) -> (m: MemoryImage)
        ensures
            m@ == words@,
            m.base_spec() == base,
            m.perm_spec() == perm,
    {
        MemoryImage { base, perm, words }
    }

    /// The number of words the region holds.
    pub fn len(&self) -> (n: usize)
        ensures
            n == self@.len(),
    {
        self.words.len()
    }

    /// The lowest address of the region.
    pub fn base(&self) -> (b: u32)
        ensures
            b == self.base_spec(),
    {
        self.base
    }

    /// The current protection of the region.
    pub fn permission(&self) -> (p: MemoryPermission)
        ensures
            p == self.perm_spec(),
    {
        self.perm
    }

    /// Changes the recorded protection of the region. Only the privilege
    /// layer calls this, on behalf of a successful protection system call.
    pub(crate) fn set_perm(&mut self, perm: MemoryPermission)
        ensures
            final(self)@ == old(self)@,
            final(self).base_spec() == old(self).base_spec(),
            final(self).perm_spec() == perm,
    {
        self.perm = perm;
    }

    /// Decides whether `addr` names a word inside this region.
    pub fn contains_word_addr(&self, addr: u32) -> (b: bool)
        ensures
            b == self.valid_word_addr(addr),
    {
        if addr < self.base {
            return false;
        }
        let off = addr - self.base;
        off % 4 == 0 && ((off / 4) as usize) < self.words.len()
    }

    /// Reads the word at `addr`.
    pub fn read_word(&self, addr: u32) -> (w: u32)
        requires
            self.valid_word_addr(addr),
        ensures
            w == self@[self.word_index(addr)],
    {
        let off = addr - self.base;
        self.words[(off / 4) as usize]
    }

    /// Stores one word at `addr`. The caller must already have made the
    /// region writable.
    pub fn write_word(&mut self, addr: u32, word: u32)
        requires
            old(self).valid_word_addr(addr),
            old(self).perm_spec().is_writable(),
        ensures
            final(self)@ == old(self)@.update(old(self).word_index(addr), word),
            final(self).base_spec() == old(self).base_spec(),
            final(self).perm_spec() == old(self).perm_spec(),
    {
        let off = addr - self.base;
        self.words[(off / 4) as usize] = word;
    }

    /// Copies `words` to the consecutive word addresses starting at `addr`.
    /// The caller must already have made the region writable.
    pub fn write_words(&mut self, addr: u32, words: &Vec<u32>)
        requires
            old(self).valid_word_addr(addr),
            old(self).word_index(addr) + words@.len() <= old(self)@.len(),
            old(self).perm_spec().is_writable(),
        ensures
            final(self)@.len() == old(self)@.len(),
            final(self).base_spec() == old(self).base_spec(),
            final(self).perm_spec() == old(self).perm_spec(),
            forall|k: int|
                0 <= k < words@.len() ==> final(self)@[old(self).word_index(addr) + k]
                    == words@[k],
            forall|j: int|
                0 <= j < old(self)@.len() && !(old(self).word_index(addr) <= j < old(
                    self,
                ).word_index(addr) + words@.len()) ==> final(self)@[j] == old(self)@[j],
    {
        let start = ((addr - self.base) / 4) as usize;
        let total = self.words.len();
        let mut i: usize = 0;
        while i < words.len()
            invariant
                i <= words@.len(),
                start == old(self).word_index(addr),
                start + words@.len() <= old(self)@.len(),
                old(self)@.len() == total,
                self@.len() == old(self)@.len(),
                self.base_spec() == old(self).base_spec(),
                self.perm_spec() == old(self).perm_spec(),
                forall|k: int| 0 <= k < i ==> self@[start + k] == words@[k],
                forall|j: int|
                    0 <= j < old(self)@.len() && !(start <= j < start + i) ==> self@[j] == old(
                        self,
                    )@[j],
            decreases words@.len() - i,
        {
            self.words[start + i] = words[i];
            i = i + 1;
        }
    }
}

/// The region contents after performing `ws` in order on a region of base
/// `base` that held `s`. A write outside the region changes nothing.
pub open spec fn apply_writes_seq(s: Seq<u32>, base: u32, ws: Seq<PatchWrite>) -> Seq<u32>
    decreases ws.len(),
{
    if ws.len() == 0 {
        s
    } else {
        let prev = apply_writes_seq(s, base, ws.drop_last());
        let w = ws.last();
        if region_word_addr(base, s.len(), w.addr) {
            prev.update(region_word_index(base, w.addr), w.word)
        } else {
            prev
        }
    }
}

/// The word the last effective write of `ws` leaves at word offset `i` of a
/// region of `len` words based at `base`, if any write lands there.
pub open spec fn last_write_at(ws: Seq<PatchWrite>, base: u32, len: nat, i: int) -> Option<u32>
    decreases ws.len(),
{
    if ws.len() == 0 {
        None
    } else {
        let w = ws.last();
        if region_word_addr(base, len, w.addr) && region_word_index(base, w.addr) == i {
            Some(w.word)
        } else {
            last_write_at(ws.drop_last(), base, len, i)
        }
    }
}

/// Performing writes never changes the region's length.
pub proof fn lemma_apply_writes_len(s: Seq<u32>, base: u32, ws: Seq<PatchWrite>)
    ensures
        apply_writes_seq(s, base, ws).len() == s.len(),
    decreases ws.len(),
{
    if ws.len() > 0 {
        lemma_apply_writes_len(s, base, ws.drop_last());
    }
}

/// Word by word, the result of a write list is the last write that lands on
/// that word, and the original content where none does.
pub proof fn lemma_apply_writes_pointwise(s: Seq<u32>, base: u32, ws: Seq<PatchWrite>, i: int)
    requires
        0 <= i < s.len(),
    ensures
        apply_writes_seq(s, base, ws)[i] == match last_write_at(ws, base, s.len(), i) {
            Some(w) => w,
            None => s[i],
        },
    decreases ws.len(),
{
    if ws.len() > 0 {
        lemma_apply_writes_len(s, base, ws.drop_last());
        lemma_apply_writes_pointwise(s, base, ws.drop_last(), i);
    }
}

/// Law: performing the same write list twice leaves the region byte-identical
/// to performing it once.
pub proof fn lemma_apply_writes_idempotent(s: Seq<u32>, base: u32, ws: Seq<PatchWrite>)
    ensures
        apply_writes_seq(apply_writes_seq(s, base, ws), base, ws) == apply_writes_seq(s, base, ws),
{
    let once = apply_writes_seq(s, base, ws);
    let twice = apply_writes_seq(once, base, ws);
    lemma_apply_writes_len(s, base, ws);
    lemma_apply_writes_len(once, base, ws);
    assert forall|i: int| 0 <= i < once.len() implies twice[i] == once[i] by {
        lemma_apply_writes_pointwise(s, base, ws, i);
        lemma_apply_writes_pointwise(once, base, ws, i);
    }
    assert(twice =~= once);
}

/// No write of `ws` lands on word offset `i`, so nothing is recorded there.
pub proof fn lemma_last_write_at_none(ws: Seq<PatchWrite>, base: u32, len: nat, i: int)
    requires
        forall|k: int|
            0 <= k < ws.len() ==> !(region_word_addr(base, len, ws[k].addr) && region_word_index(
                base,
                ws[k].addr,
            ) == i),
    ensures
        last_write_at(ws, base, len, i) == None::<u32>,
    decreases ws.len(),
{
    if ws.len() > 0 {
        lemma_last_write_at_none(ws.drop_last(), base, len, i);
    }
}

/// The write at position `k` lands on word offset `i` and no later write
/// does, so `k`'s word is the one recorded there.
pub proof fn lemma_last_write_at_hit(ws: Seq<PatchWrite>, base: u32, len: nat, i: int, k: int)
    requires
        0 <= k < ws.len(),
        region_word_addr(base, len, ws[k].addr),
        region_word_index(base, ws[k].addr) == i,
        forall|m: int|
            k < m < ws.len() ==> !(region_word_addr(base, len, ws[m].addr) && region_word_index(
                base,
                ws[m].addr,
            ) == i),
    ensures
        last_write_at(ws, base, len, i) == Some(ws[k].word),
    decreases ws.len(),
{
    if k < ws.len() - 1 {
        lemma_last_write_at_hit(ws.drop_last(), base, len, i, k);
    }
}

/// Two valid word addresses of one region with the same word offset are the
/// same address.
pub proof fn lemma_word_index_injective(base: u32, len: nat, a1: u32, a2: u32)
    requires
        region_word_addr(base, len, a1),
        region_word_addr(base, len, a2),
        region_word_index(base, a1) == region_word_index(base, a2),
    ensures
        a1 == a2,
{
    assert(a1 - base == 4 * ((a1 - base) / 4) + (a1 - base) % 4);
    assert(a2 - base == 4 * ((a2 - base) / 4) + (a2 - base) % 4);
}

/// Law of exhaustive patching: a write list whose addresses are pairwise
/// distinct and all inside the region leaves exactly its words at its
/// addresses, and every other word of the region unchanged.
pub proof fn lemma_apply_writes_distinct(s: Seq<u32>, base: u32, ws: Seq<PatchWrite>)
    requires
        forall|k: int| 0 <= k < ws.len() ==> region_word_addr(base, s.len(), #[trigger] ws[k].addr),
        forall|k: int, m: int| 0 <= k < m < ws.len() ==> ws[k].addr != ws[m].addr,
    ensures
        apply_writes_seq(s, base, ws).len() == s.len(),
        forall|k: int|
            0 <= k < ws.len() ==> apply_writes_seq(s, base, ws)[region_word_index(
                base,
                #[trigger] ws[k].addr,
            )] == ws[k].word,
        forall|j: int|
            0 <= j < s.len() && (forall|k: int|
                0 <= k < ws.len() ==> region_word_index(base, #[trigger] ws[k].addr) != j)
                ==> apply_writes_seq(s, base, ws)[j] == s[j],
{
    lemma_apply_writes_len(s, base, ws);
    assert forall|k: int| 0 <= k < ws.len() implies apply_writes_seq(s, base, ws)[
        region_word_index(base, #[trigger] ws[k].addr)
    ] == ws[k].word by {
        let i = region_word_index(base, ws[k].addr);
        assert forall|m: int|
            k < m < ws.len() implies !(region_word_addr(base, s.len(), ws[m].addr)
            && region_word_index(base, ws[m].addr) == i) by {
            if region_word_addr(base, s.len(), ws[m].addr) && region_word_index(base, ws[m].addr)
                == i {
                lemma_word_index_injective(base, s.len(), ws[k].addr, ws[m].addr);
            }
        }
        lemma_last_write_at_hit(ws, base, s.len(), i, k);
        lemma_apply_writes_pointwise(s, base, ws, i);
    }
    assert forall|j: int|
        0 <= j < s.len() && (forall|k: int|
            0 <= k < ws.len() ==> region_word_index(base, #[trigger] ws[k].addr) != j) implies
        apply_writes_seq(s, base, ws)[j] == s[j] by {
        lemma_last_write_at_none(ws, base, s.len(), j);
        lemma_apply_writes_pointwise(s, base, ws, j);
    }
}

/// Performs every write of `writes` on the region, in order, after checking
/// that each names a word inside it: either all of them land, or the region
/// is left untouched and the first out-of-range address is reported.
pub fn apply_writes(region: &mut MemoryImage, writes: &Vec<PatchWrite>) -> (r: Result<
    (),
    PatchError,
>)
    requires
        old(region).perm_spec().is_writable(),
    ensures
        final(region).base_spec() == old(region).base_spec(),
        final(region).perm_spec() == old(region).perm_spec(),
        final(region)@.len() == old(region)@.len(),
        (forall|k: int| 0 <= k < writes@.len() ==> old(region).valid_word_addr(writes@[k].addr))
            ==> r == Ok::<(), PatchError>(()) && final(region)@ == apply_writes_seq(
            old(region)@,
            old(region).base_spec(),
            writes@,
        ),
        !(forall|k: int| 0 <= k < writes@.len() ==> old(region).valid_word_addr(writes@[k].addr))
            ==> r == Err::<(), PatchError>(PatchError::OutOfRange) && final(region)@ == old(
            region,
        )@,
{
    let mut i: usize = 0;
    while i < writes.len()
        invariant
            i <= writes@.len(),
            forall|k: int| 0 <= k < i ==> region.valid_word_addr(writes@[k].addr),
            region == old(region),
        decreases writes@.len() - i,
    {
        if !region.contains_word_addr(writes[i].addr) {
            return Err(PatchError::OutOfRange);
        }
        i = i + 1;
    }
    let mut j: usize = 0;
    while j < writes.len()
        invariant
            j <= writes@.len(),
            forall|k: int| 0 <= k < writes@.len() ==> old(region).valid_word_addr(writes@[k].addr),
            old(region).perm_spec().is_writable(),
            region.base_spec() == old(region).base_spec(),
            region.perm_spec() == old(region).perm_spec(),
            region@.len() == old(region)@.len(),
            region@ == apply_writes_seq(old(region)@, old(region).base_spec(), writes@.take(
                j as int,
            )),
        decreases writes@.len() - j,
    {
        let w = writes[j];
        proof {
            assert(writes@.take(j + 1).drop_last() =~= writes@.take(j as int));
            assert(writes@.take(j + 1).last() == writes@[j as int]);
        }
        region.write_word(w.addr, w.word);
        j = j + 1;
    }
    proof {
        assert(writes@.take(writes@.len() as int) =~= writes@);
    }
    Ok(())
}

} // verus!
