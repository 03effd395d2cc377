//! A wasm linear memory together with the allocator that hands out its
//! regions: the memory that the host and the guest share, where a leaked
//! allocation is a live block and a pointer is an offset into the bytes.

use vstd::prelude::*;

verus! {

/// Bytes in one wasm page; memory grows a page at a time.
pub const PAGE_SIZE: usize = 65536;

/// The most pages this memory grows to, so that every offset fits in a `u32`.
pub const MAX_PAGES: usize = 65535;

/// `MAX_PAGES` pages, in bytes.
pub const MAX_SIZE: usize = 0xFFFF_0000;

/// The lowest offset the allocator hands out; offset 0 is never a block.
pub const HEAP_BASE: usize = 8;

/// The pointer an empty allocation gets: it owns no bytes and is never a block.
pub const DANGLING: usize = 1;

/// A live allocation: `len` bytes starting at offset `start`.
#[derive(Clone, Copy, Debug, PartialEq, Eq, Structural)]
pub struct Block {
    pub start: usize,
    pub len: usize,
}

impl Block {
    /// One past the last byte of the block.
    pub open spec fn end(self) -> int {
        self.start + self.len
    }
}

/// Why a checked access to the memory failed.
#[derive(Clone, Copy, Debug, PartialEq, Eq, Structural)]
pub enum MemoryAccessError {
    /// The access reaches past the end of the memory.
    HeapOutOfBounds,
    /// The address calculation overflowed.
    Overflow,
    /// Bytes read as a string are not UTF-8.
    NonUtf8String,
    /// A pointer read is not aligned for its type.
    UnalignedPointerRead,
    /// A kind of access error the runtime added that none of these names.
    Unlisted,
}

/// Live blocks are non-empty, start at or above `HEAP_BASE`, end within
/// `size`, and come in address order without overlapping.
pub open spec fn blocks_ok(blocks: Seq<Block>, size: int) -> bool {
    &&& forall|i: int|
        0 <= i < blocks.len() ==> {
            &&& #[trigger] blocks[i].len > 0
            &&& HEAP_BASE <= blocks[i].start
            &&& blocks[i].end() <= size
        }
    &&& forall|i: int, j: int|
        #![trigger blocks[i], blocks[j]]
        0 <= i < j < blocks.len() ==> blocks[i].end() <= blocks[j].start
}

/// Where the search for a gap stands before looking at block `i`: just past
/// block `i - 1`, or at `HEAP_BASE` before the first block.
pub open spec fn gap_start(blocks: Seq<Block>, i: int) -> int {
    if i <= 0 {
        HEAP_BASE as int
    } else {
        blocks[i - 1].end()
    }
}

/// First fit from block `i` on: the index at which a block of `len` bytes is
/// inserted and its start, the first gap from `cursor` on that holds it.
pub open spec fn fit_from(blocks: Seq<Block>, i: int, cursor: int, len: int) -> (int, int)
    decreases blocks.len() - i,
{
    if i >= blocks.len() {
        (i, cursor)
    } else if len <= blocks[i].start - cursor {
        (i, cursor)
    } else {
        fit_from(blocks, i + 1, blocks[i].end(), len)
    }
}

/// The index and start of the block that allocating `len` bytes creates.
pub open spec fn placement(blocks: Seq<Block>, len: int) -> (int, int) {
    fit_from(blocks, 0, HEAP_BASE as int, len)
}

/// The size, in whole pages, that a memory of `size` bytes grows to so that
/// it holds `end` bytes; `size` itself when it already does.
pub open spec fn grown_size(size: int, end: int) -> int
    decreases (if end > size { end - size } else { 0 }),
{
    if end <= size {
        size
    } else {
        grown_size(size + PAGE_SIZE, end)
    }
}

/// `s` followed by zero bytes up to length `n`.
pub open spec fn zero_extended(s: Seq<u8>, n: int) -> Seq<u8> {
    s + Seq::new((n - s.len()) as nat, |i: int| 0u8)
}

/// `s` with `data` written over it from offset `at` on.
pub open spec fn splice(s: Seq<u8>, at: int, data: Seq<u8>) -> Seq<u8> {
    s.take(at) + data + s.skip(at + data.len())
}

/// Where leaking `len` bytes puts them: `DANGLING` when there are none.
pub open spec fn leak_ptr(blocks: Seq<Block>, len: int) -> int {
    if len == 0 {
        DANGLING as int
    } else {
        placement(blocks, len).1
    }
}

/// The live blocks after `len` bytes are reserved or leaked.
pub open spec fn leak_live(blocks: Seq<Block>, len: int) -> Seq<Block> {
    if len == 0 {
        blocks
    } else {
        let (j, c) = placement(blocks, len);
        blocks.insert(j, Block { start: c as usize, len: len as usize })
    }
}

/// The memory's bytes after `len` bytes are reserved: grown by whole zero
/// pages as far as the new block needs.
pub open spec fn reserve_content(content: Seq<u8>, blocks: Seq<Block>, len: int) -> Seq<u8> {
    if len == 0 {
        content
    } else {
        let c = placement(blocks, len).1;
        zero_extended(content, grown_size(content.len() as int, c + len))
    }
}

/// The memory's bytes after `v` is leaked into it.
pub open spec fn leak_content(content: Seq<u8>, blocks: Seq<Block>, v: Seq<u8>) -> Seq<u8> {
    if v.len() == 0 {
        content
    } else {
        splice(reserve_content(content, blocks, v.len() as int), placement(blocks, v.len() as int).1, v)
    }
}

/// Whether the live blocks hold the allocation `(ptr, len)`.
pub open spec fn holds_block(blocks: Seq<Block>, ptr: int, len: int) -> bool {
    exists|k: int| 0 <= k < blocks.len() && blocks[k].start == ptr && blocks[k].len == len
}

/// The first-fit search keeps to the gaps between live blocks.
pub proof fn lemma_fit_from(blocks: Seq<Block>, i: int, len: int, size: int)
    requires
        blocks_ok(blocks, size),
        0 <= i <= blocks.len(),
        len > 0,
    ensures
        ({
            let (j, c) = fit_from(blocks, i, gap_start(blocks, i), len);
            &&& i <= j <= blocks.len()
            &&& c == gap_start(blocks, j)
            &&& j < blocks.len() ==> c + len <= blocks[j].start
        }),
    decreases blocks.len() - i,
{
    if i < blocks.len() && !(len <= blocks[i].start - gap_start(blocks, i)) {
        assert(gap_start(blocks, i + 1) == blocks[i].end());
        lemma_fit_from(blocks, i + 1, len, size);
    }
}

/// Growing by whole pages reaches `end` and overshoots by less than a page.
pub proof fn lemma_grown_size(size: int, end: int)
    requires
        size % (PAGE_SIZE as int) == 0,
        size >= 0,
    ensures
        grown_size(size, end) >= size,
        grown_size(size, end) >= end,
        grown_size(size, end) % (PAGE_SIZE as int) == 0,
        end <= size ==> grown_size(size, end) == size,
        end > size ==> grown_size(size, end) < end + PAGE_SIZE,
    decreases (if end > size { end - size } else { 0 }),
{
    if end > size {
        lemma_grown_size(size + PAGE_SIZE, end);
    }
}

/// Inserting a block at the place first fit found keeps the blocks in order.
pub proof fn lemma_insert_keeps_blocks_ok(blocks: Seq<Block>, len: int, size: int, new_size: int)
    requires
        blocks_ok(blocks, size),
        len > 0,
        size <= new_size,
        placement(blocks, len).1 + len <= new_size,
        placement(blocks, len).1 + len <= usize::MAX,
    ensures
        ({
            let (j, c) = placement(blocks, len);
            blocks_ok(blocks.insert(j, Block { start: c as usize, len: len as usize }), new_size)
        }),
{
    lemma_fit_from(blocks, 0, len, size);
    let (j, c) = placement(blocks, len);
    let b = Block { start: c as usize, len: len as usize };
    let nb = blocks.insert(j, b);
    assert(c >= HEAP_BASE) by {
        if j > 0 {
            assert(blocks[j - 1].start >= HEAP_BASE);
        }
    }
    assert forall|k: int| 0 <= k < j implies blocks[k].end() <= c by {
        if k < j - 1 {
            assert(blocks[k].end() <= blocks[j - 1].start);
        }
    }
    assert forall|k: int| j <= k < blocks.len() implies c + len <= blocks[k].start by {
        if k > j {
            assert(blocks[j].end() <= blocks[k].start);
        }
    }
    assert forall|a: int, b2: int|
        #![trigger nb[a], nb[b2]]
        0 <= a < b2 < nb.len() implies nb[a].end() <= nb[b2].start by {
        if a < j && b2 < j {
            assert(nb[a] == blocks[a] && nb[b2] == blocks[b2]);
        } else if a < j && b2 == j {
        } else if a < j {
            assert(nb[b2] == blocks[b2 - 1]);
            assert(blocks[a].end() <= blocks[b2 - 1].start);
        } else if a == j {
            assert(nb[b2] == blocks[b2 - 1]);
        } else {
            assert(nb[a] == blocks[a - 1] && nb[b2] == blocks[b2 - 1]);
            assert(blocks[a - 1].end() <= blocks[b2 - 1].start);
        }
    }
    assert forall|k: int| 0 <= k < nb.len() implies {
        &&& #[trigger] nb[k].len > 0
        &&& HEAP_BASE <= nb[k].start
        &&& nb[k].end() <= new_size
    } by {
        if k < j {
            assert(nb[k] == blocks[k]);
        } else if k > j {
            assert(nb[k] == blocks[k - 1]);
        }
    }
}

/// Appends `n` zero bytes to `v`.
fn push_zeros(v: &mut Vec<u8>, n: usize)
    requires
        old(v).len() + n <= usize::MAX,
    ensures
        final(v)@ == zero_extended(old(v)@, old(v).len() + n),
{
    let ghost start = v@;
    let new_len: usize = v.len() + n;
    v.resize(new_len, 0u8);
    assert forall|i: int| start.len() <= i < new_len implies v@[i] == 0u8 by {
        assert(cloned::<u8>(0u8, v@[i]));
    }
    assert(v@ =~= zero_extended(start, start.len() + n));
}

/// What one block of `len` bytes placed by first fit and then taken back
/// does: the placed block is the only live block starting where it starts,
/// so taking it back leaves the live blocks as they were, and the bytes read
/// back from it are the bytes written there.
pub proof fn lemma_leak_then_reclaim(blocks: Seq<Block>, size: int, content: Seq<u8>, v: Seq<u8>)
    requires
        blocks_ok(blocks, size),
        content.len() == size,
        size % (PAGE_SIZE as int) == 0,
        size >= 0,
        v.len() > 0,
        placement(blocks, v.len() as int).1 + v.len() <= usize::MAX,
    ensures
        ({
            let (j, c) = placement(blocks, v.len() as int);
            let b = Block { start: c as usize, len: v.len() as usize };
            let grown = grown_size(size, c + v.len());
            let after = splice(zero_extended(content, grown), c, v);
            &&& 0 <= j <= blocks.len()
            &&& holds_block(blocks.insert(j, b), c, v.len() as int)
            &&& forall|k: int|
                0 <= k < blocks.len() + 1 && #[trigger] blocks.insert(j, b)[k].start == c ==> k == j
            &&& blocks.insert(j, b).remove(j) == blocks
            &&& after.subrange(c, c + v.len()) == v
        }),
{
    lemma_fit_from(blocks, 0, v.len() as int, size);
    let (j, c) = placement(blocks, v.len() as int);
    let b = Block { start: c as usize, len: v.len() as usize };
    let grown = grown_size(size, c + v.len());
    lemma_grown_size(size, c + v.len());
    lemma_insert_keeps_blocks_ok(blocks, v.len() as int, size, grown);
    let nb = blocks.insert(j, b);
    assert(nb[j] == b);
    assert forall|k: int| 0 <= k < blocks.len() + 1 && #[trigger] nb[k].start == c implies k == j by {
        if k < j {
            assert(nb[k].end() <= nb[j].start);
            assert(nb[k].len > 0);
        } else if k > j {
            assert(nb[j].end() <= nb[k].start);
        }
    }
    assert(nb.remove(j) =~= blocks);
    let ext = zero_extended(content, grown);
    assert(ext.len() == grown);
    assert(splice(ext, c, v).subrange(c, c + v.len()) =~= v);
}

/// Leaking bytes leaves every other live block's bytes as they were.
pub proof fn lemma_leak_keeps_live_bytes(blocks: Seq<Block>, size: int, content: Seq<u8>, v: Seq<u8>)
    requires
        blocks_ok(blocks, size),
        content.len() == size,
        size % (PAGE_SIZE as int) == 0,
        size >= 0,
        v.len() > 0,
    ensures
        ({
            let (j, c) = placement(blocks, v.len() as int);
            let after = splice(zero_extended(content, grown_size(size, c + v.len())), c, v);
            forall|k: int|
                0 <= k < blocks.len() ==> after.subrange(#[trigger] blocks[k].start as int, blocks[k].end())
                    == content.subrange(blocks[k].start as int, blocks[k].end())
        }),
{
    lemma_fit_from(blocks, 0, v.len() as int, size);
    let (j, c) = placement(blocks, v.len() as int);
    let grown = grown_size(size, c + v.len());
    lemma_grown_size(size, c + v.len());
    let ext = zero_extended(content, grown);
    let after = splice(ext, c, v);
    assert forall|k: int| 0 <= k < blocks.len() implies after.subrange(
        #[trigger] blocks[k].start as int,
        blocks[k].end(),
    ) == content.subrange(blocks[k].start as int, blocks[k].end()) by {
        if k < j {
            if k < j - 1 {
                assert(blocks[k].end() <= blocks[j - 1].start);
            }
        } else {
            if k > j {
                assert(blocks[j].end() <= blocks[k].start);
            }
        }
        assert(after.subrange(blocks[k].start as int, blocks[k].end()) =~= content.subrange(
            blocks[k].start as int,
            blocks[k].end(),
        ));
    }
}

/// Reserving or leaking `len` bytes grows the memory by whole pages and by
/// no more than `HEAP_BASE + len + PAGE_SIZE` bytes, and puts the block inside it.
pub proof fn lemma_leak_growth(blocks: Seq<Block>, content: Seq<u8>, v: Seq<u8>)
    requires
        blocks_ok(blocks, content.len() as int),
        (content.len() as int) % (PAGE_SIZE as int) == 0,
        content.len() + HEAP_BASE + v.len() + PAGE_SIZE <= MAX_SIZE,
    ensures
        ({
            let size = content.len() as int;
            let len = v.len() as int;
            let grown = reserve_content(content, blocks, len).len() as int;
            &&& size <= grown <= size + HEAP_BASE + len + PAGE_SIZE
            &&& grown % (PAGE_SIZE as int) == 0
            &&& leak_content(content, blocks, v).len() == grown
            &&& len > 0 ==> leak_ptr(blocks, len) >= HEAP_BASE
            &&& len > 0 ==> leak_ptr(blocks, len) + len <= grown
            &&& len > 0 ==> holds_block(leak_live(blocks, len), leak_ptr(blocks, len), len)
            &&& blocks_ok(leak_live(blocks, len), grown)
        }),
{
    let size = content.len() as int;
    let len = v.len() as int;
    if len > 0 {
        lemma_insert_keeps_blocks_ok_when_room(blocks, len, size);
        lemma_fit_from(blocks, 0, len, size);
        let (j, c) = placement(blocks, len);
        assert(leak_live(blocks, len)[j].start == c && leak_live(blocks, len)[j].len == len);
        if j > 0 {
            assert(blocks[j - 1].end() <= size);
            assert(blocks[j - 1].start >= HEAP_BASE);
        }
        lemma_grown_size(size, c + len);
        let ext = zero_extended(content, grown_size(size, c + len));
        assert(ext.len() == grown_size(size, c + len));
        if j < blocks.len() {
            assert(blocks[j].end() <= size);
        }
    }
}

/// `lemma_insert_keeps_blocks_ok` at the size the memory grows to.
proof fn lemma_insert_keeps_blocks_ok_when_room(blocks: Seq<Block>, len: int, size: int)
    requires
        blocks_ok(blocks, size),
        len > 0,
        size % (PAGE_SIZE as int) == 0,
        size >= 0,
        size + HEAP_BASE + len + PAGE_SIZE <= usize::MAX,
    ensures
        ({
            let (j, c) = placement(blocks, len);
            let b = Block { start: c as usize, len: len as usize };
            &&& blocks_ok(blocks.insert(j, b), grown_size(size, c + len))
            &&& blocks.insert(j, b)[j] == b
            &&& 0 <= j <= blocks.len()
        }),
{
    lemma_fit_from(blocks, 0, len, size);
    let (j, c) = placement(blocks, len);
    if j > 0 {
        assert(blocks[j - 1].end() <= size);
    }
    lemma_grown_size(size, c + len);
    lemma_insert_keeps_blocks_ok(blocks, len, size, grown_size(size, c + len));
}

/// A memory already grown to hold `end` bytes does not grow again for them:
/// after a block is taken back, placing the same number of bytes again
/// needs no new pages.
pub proof fn lemma_grown_size_idempotent(size: int, end: int)
    requires
        size % (PAGE_SIZE as int) == 0,
        size >= 0,
    ensures
        grown_size(grown_size(size, end), end) == grown_size(size, end),
{
    lemma_grown_size(size, end);
}

/// A wasm linear memory and the blocks its allocator has handed out.
pub struct LinearMemory {
    bytes: Vec<u8>,
    blocks: Vec<Block>,
}

impl LinearMemory {
    /// The bytes of the memory, offset by offset.
    pub closed spec fn content(&self) -> Seq<u8> {
        self.bytes@
    }

    /// The live blocks, in address order.
    pub closed spec fn live(&self) -> Seq<Block> {
        self.blocks@
    }

    /// The size of the memory in bytes.
    pub open spec fn spec_size(&self) -> int {
        self.content().len() as int
    }

    /// The memory is whole pages, at most `MAX_SIZE` bytes, and its live
    /// blocks are ordered, disjoint and inside it.
    pub open spec fn wf(&self) -> bool {
        &&& self.spec_size() <= MAX_SIZE
        &&& self.spec_size() % (PAGE_SIZE as int) == 0
        &&& blocks_ok(self.live(), self.spec_size())
    }

    /// Whether `len` more bytes can be allocated without growing past `MAX_SIZE`.
    pub open spec fn has_room(&self, len: int) -> bool {
        self.spec_size() + HEAP_BASE + len + PAGE_SIZE <= MAX_SIZE
    }

    /// An empty memory: no pages, no blocks.
    pub fn new() -> (m: LinearMemory)
        ensures
            m.wf(),
            m.content() == Seq::<u8>::empty(),
            m.live() == Seq::<Block>::empty(),
    {
        LinearMemory { bytes: Vec::new(), blocks: Vec::new() }
    }

    /// A memory of `pages` zeroed pages and no blocks.
    pub fn with_pages(pages: usize) -> (m: LinearMemory)
        requires
            pages <= MAX_PAGES,
        ensures
            m.wf(),
            m.content() == Seq::new((pages * PAGE_SIZE) as nat, |i: int| 0u8),
            m.live() == Seq::<Block>::empty(),
    {
        let mut bytes: Vec<u8> = Vec::new();
        let mut p: usize = 0;
        while p < pages
            invariant
                p <= pages <= MAX_PAGES,
                bytes@ == Seq::new((p * PAGE_SIZE) as nat, |i: int| 0u8),
            decreases pages - p,
        {
            assert((p + 1) * PAGE_SIZE <= MAX_SIZE) by (nonlinear_arith)
                requires
                    p + 1 <= MAX_PAGES,
            ;
            push_zeros(&mut bytes, PAGE_SIZE);
            assert(bytes@ =~= Seq::new(((p + 1) * PAGE_SIZE) as nat, |i: int| 0u8));
            p = p + 1;
        }
        proof {
            assert((pages * PAGE_SIZE) % (PAGE_SIZE as int) == 0) by (nonlinear_arith);
        }
        LinearMemory { bytes, blocks: Vec::new() }
    }

    /// The size of the memory in bytes.
    pub fn size(&self) -> (n: usize)
        ensures
            n == self.spec_size(),
    {
        self.bytes.len()
    }

    /// The size of the memory in whole pages.
    pub fn pages(&self) -> (n: usize)
        requires
            self.wf(),
        ensures
            n * PAGE_SIZE == self.spec_size(),
    {
        let n = self.bytes.len() / PAGE_SIZE;
        assert(n * PAGE_SIZE == self.spec_size()) by (nonlinear_arith)
            requires
                n == self.spec_size() / (PAGE_SIZE as int),
                self.spec_size() % (PAGE_SIZE as int) == 0,
        ;
        n
    }

    /// Whether `(ptr, len)` is a live allocation: what `reclaim` and
    /// `free` need to be handed.
    pub fn holds_allocation(&self, ptr: usize, len: usize) -> (b: bool)
        ensures
            b == holds_block(self.live(), ptr as int, len as int),
    {
        let mut i: usize = 0;
        while i < self.blocks.len()
            invariant
                i <= self.blocks.len(),
                forall|k: int|
                    0 <= k < i ==> !(self.blocks@[k].start == ptr && self.blocks@[k].len == len),
            decreases self.blocks.len() - i,
        {
            if self.blocks[i].start == ptr && self.blocks[i].len == len {
                return true;
            }
            i = i + 1;
        }
        false
    }

    /// Whether `len` more bytes can be allocated: what `reserve` and
    /// `leak` need.
    pub fn has_room_for(&self, len: usize) -> (b: bool)
        ensures
            b == self.has_room(len as int),
    {
        self.bytes.len() <= MAX_SIZE - HEAP_BASE - PAGE_SIZE && len <= MAX_SIZE - HEAP_BASE
            - PAGE_SIZE - self.bytes.len()
    }

    /// Writes `data` over the memory from offset `at` on; the range must lie
    /// inside the memory.
    pub fn write_at(&mut self, at: usize, data: &[u8])
        requires
            at + data@.len() <= old(self).spec_size(),
        ensures
            final(self).content() == splice(old(self).content(), at as int, data@),
            final(self).live() == old(self).live(),
            final(self).spec_size() == old(self).spec_size(),
            old(self).wf() ==> final(self).wf(),
    {
        let ghost start = self.bytes@;
        let n: usize = self.bytes.len();
        let mut i: usize = 0;
        while i < data.len()
            invariant
                i <= data@.len(),
                n == start.len(),
                at + data@.len() <= start.len(),
                self.bytes@.len() == start.len(),
                self.blocks@ == old(self).blocks@,
                start == old(self).bytes@,
                forall|a: int|
                    0 <= a < start.len() ==> #[trigger] self.bytes@[a] == if at <= a < at + i {
                        data@[a - at]
                    } else {
                        start[a]
                    },
            decreases data@.len() - i,
        {
            self.bytes.set(at + i, data[i]);
            i = i + 1;
        }
        assert(self.bytes@ =~= splice(start, at as int, data@));
    }

    /// The `len` bytes from offset `at` on.
    pub fn bytes_at(&self, at: usize, len: usize) -> (r: Vec<u8>)
        requires
            at + len <= self.spec_size(),
        ensures
            r@ == self.content().subrange(at as int, at + len),
    {
        let n: usize = self.bytes.len();
        let end: usize = at + len;
        vstd::slice::slice_to_vec(vstd::slice::slice_subrange(self.bytes.as_slice(), at, end))
    }

    /// Reserves `len` bytes and returns where they start, growing the memory
    /// by whole pages when no gap between live blocks holds them. The bytes
    /// keep whatever they held. An empty request gets `DANGLING` and changes
    /// nothing.
    pub fn reserve(&mut self, len: usize) -> (ptr: usize)
        requires
            old(self).wf(),
            old(self).has_room(len as int),
        ensures
            final(self).wf(),
            ptr == leak_ptr(old(self).live(), len as int),
            final(self).live() == leak_live(old(self).live(), len as int),
            final(self).content() == reserve_content(old(self).content(), old(self).live(), len as int),
    {
        if len == 0 {
            return DANGLING;
        }
        let ghost blocks = self.blocks@;
        let ghost size = self.spec_size();
        proof {
            lemma_fit_from(blocks, 0, len as int, size);
        }
        let mut i: usize = 0;
        let mut cursor: usize = HEAP_BASE;
        let mut found: bool = false;
        while !found && i < self.blocks.len()
            invariant
                self.blocks@ == blocks,
                self.bytes@.len() == size,
                blocks_ok(blocks, size),
                size <= MAX_SIZE,
                len > 0,
                i <= blocks.len(),
                cursor == gap_start(blocks, i as int),
                fit_from(blocks, i as int, cursor as int, len as int) == placement(blocks, len as int),
                found ==> i < blocks.len() && len <= blocks[i as int].start - cursor,
            decreases blocks.len() - i + (if found { 0int } else { 1int }),
        {
            let b = self.blocks[i];
            proof {
                if i > 0 {
                    assert(blocks[i - 1].end() <= blocks[i as int].start);
                }
            }
            if len <= b.start - cursor {
                found = true;
            } else {
                cursor = b.start + b.len;
                i = i + 1;
            }
        }
        assert(placement(blocks, len as int) == (i as int, cursor as int));
        proof {
            if i > 0 {
                assert(blocks[i - 1].end() <= size);
            }
        }
        let end: usize = cursor + len;
        let mut new_size: usize = self.bytes.len();
        proof {
            lemma_grown_size(size, end as int);
        }
        while new_size < end
            invariant
                size <= new_size,
                new_size % PAGE_SIZE == 0,
                end + PAGE_SIZE <= MAX_SIZE,
                new_size == size || new_size < end + PAGE_SIZE,
                grown_size(new_size as int, end as int) == grown_size(size, end as int),
            decreases end + PAGE_SIZE - new_size,
        {
            new_size = new_size + PAGE_SIZE;
        }
        proof {
            lemma_grown_size(size, end as int);
            lemma_insert_keeps_blocks_ok(blocks, len as int, size, new_size as int);
        }
        let extra: usize = new_size - self.bytes.len();
        push_zeros(&mut self.bytes, extra);
        self.blocks.insert(i, Block { start: cursor, len });
        cursor
    }

    /// Leaks `v` into the memory and returns where its bytes start, as
    /// `reserve` places them; an empty `v` gets `DANGLING`. The length is
    /// not recorded anywhere the caller can read it back: the caller keeps it.
    pub fn leak(&mut self, v: Vec<u8>) -> (ptr: usize)
        requires
            old(self).wf(),
            old(self).has_room(v@.len() as int),
        ensures
            final(self).wf(),
            ptr == leak_ptr(old(self).live(), v@.len() as int),
            final(self).live() == leak_live(old(self).live(), v@.len() as int),
            final(self).content() == leak_content(old(self).content(), old(self).live(), v@),
    {
        let len = v.len();
        let ptr = self.reserve(len);
        if len > 0 {
            proof {
                lemma_fit_from(old(self).live(), 0, len as int, old(self).spec_size());
                let (j, c) = placement(old(self).live(), len as int);
                assert(self.live()[j] == Block { start: ptr, len });
                assert(self.live()[j].end() <= self.spec_size());
            }
            self.write_at(ptr, v.as_slice());
        }
        ptr
    }

    /// Takes back the allocation `(ptr, len)` as an owned vector of its bytes
    /// and frees it; an empty request returns no bytes and frees nothing.
    pub fn reclaim(&mut self, ptr: usize, len: usize) -> (r: Vec<u8>)
        requires
            old(self).wf(),
            len == 0 || holds_block(old(self).live(), ptr as int, len as int),
        ensures
            final(self).wf(),
            final(self).content() == old(self).content(),
            len == 0 ==> r@ == Seq::<u8>::empty() && final(self).live() == old(self).live(),
            len > 0 ==> r@ == old(self).content().subrange(ptr as int, ptr + len),
            len > 0 ==> forall|k: int|
                0 <= k < old(self).live().len() && #[trigger] old(self).live()[k].start == ptr
                    ==> final(self).live() == old(self).live().remove(k),
    {
        if len == 0 {
            return Vec::new();
        }
        let ghost blocks = self.blocks@;
        let ghost size = self.spec_size();
        let ghost k0 = choose|k: int|
            0 <= k < blocks.len() && blocks[k].start == ptr && blocks[k].len == len;
        let n: usize = self.blocks.len();
        let mut i: usize = 0;
        while self.blocks[i].start != ptr
            invariant
                n == blocks.len(),
                self.blocks@ == blocks,
                0 <= k0 < blocks.len(),
                blocks[k0].start == ptr && blocks[k0].len == len,
                i <= k0,
                forall|k: int| 0 <= k < i ==> blocks[k].start != ptr,
            decreases k0 - i,
        {
            i = i + 1;
        }
        proof {
            assert forall|k: int| 0 <= k < blocks.len() && #[trigger] blocks[k].start == ptr
                implies k == i by {
                if k < i {
                } else if k > i {
                    assert(blocks[i as int].end() <= blocks[k].start);
                    assert(blocks[i as int].len > 0);
                }
            }
            assert(blocks[i as int].end() <= size);
        }
        let r = self.bytes_at(ptr, len);
        self.blocks.remove(i);
        proof {
            let nb = self.blocks@;
            assert forall|a: int, b: int|
                #![trigger nb[a], nb[b]]
                0 <= a < b < nb.len() implies nb[a].end() <= nb[b].start by {
                let a0 = if a < i { a } else { a + 1 };
                let b0 = if b < i { b } else { b + 1 };
                assert(nb[a] == blocks[a0] && nb[b] == blocks[b0]);
            }
            assert forall|k: int| 0 <= k < nb.len() implies {
                &&& #[trigger] nb[k].len > 0
                &&& HEAP_BASE <= nb[k].start
                &&& nb[k].end() <= size
            } by {
                let k0 = if k < i { k } else { k + 1 };
                assert(nb[k] == blocks[k0]);
            }
        }
        r
    }

    /// Frees the allocation `(ptr, len)`, dropping its bytes.
    pub fn free(&mut self, ptr: usize, len: usize)
        requires
            old(self).wf(),
            len == 0 || holds_block(old(self).live(), ptr as int, len as int),
        ensures
            final(self).wf(),
            final(self).content() == old(self).content(),
            len == 0 ==> final(self).live() == old(self).live(),
            len > 0 ==> forall|k: int|
                0 <= k < old(self).live().len() && #[trigger] old(self).live()[k].start == ptr
                    ==> final(self).live() == old(self).live().remove(k),
    {
        let _ = self.reclaim(ptr, len);
    }

    /// The `len` bytes from `ptr` on, or `HeapOutOfBounds` when they reach
    /// past the end of the memory.
    pub fn read(&self, ptr: u32, len: u32) -> (r: Result<Vec<u8>, MemoryAccessError>)
        requires
            self.wf(),
        ensures
            r is Ok <==> ptr + len <= self.spec_size(),
            r matches Ok(v) ==> v@ == self.content().subrange(ptr as int, ptr + len),
            r matches Err(e) ==> e == MemoryAccessError::HeapOutOfBounds,
    {
        if (ptr as u64) + (len as u64) <= self.bytes.len() as u64 {
            Ok(self.bytes_at(ptr as usize, len as usize))
        } else {
            Err(MemoryAccessError::HeapOutOfBounds)
        }
    }

    /// Writes `data` from `ptr` on, or leaves the memory as it was and
    /// returns `HeapOutOfBounds` when it would reach past the end.
    pub fn write(&mut self, ptr: u32, data: &[u8]) -> (r: Result<(), MemoryAccessError>)
        requires
            old(self).wf(),
        ensures
            final(self).wf(),
            final(self).live() == old(self).live(),
            r is Ok <==> ptr + data@.len() <= old(self).spec_size(),
            r is Ok ==> final(self).content() == splice(old(self).content(), ptr as int, data@),
            r is Err ==> final(self).content() == old(self).content(),
            r matches Err(e) ==> e == MemoryAccessError::HeapOutOfBounds,
    {
        let size = self.bytes.len();
        if data.len() <= size && (ptr as usize) <= size - data.len() {
            self.write_at(ptr as usize, data);
            Ok(())
        } else {
            Err(MemoryAccessError::HeapOutOfBounds)
        }
    }
}

} // verus!
