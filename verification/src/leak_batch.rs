//! Leaking a batch of byte vectors and then freeing them all, in the order
//! they were leaked: the allocator ends where it started, and the same batch
//! leaked again needs no more memory.

use crate::linear_memory::{
    blocks_ok, leak_content, leak_live, leak_ptr, lemma_leak_growth, Block, HEAP_BASE, MAX_SIZE, PAGE_SIZE,
};
use vstd::prelude::*;

verus! {

/// The blocks of `blocks`, as a set.
pub open spec fn block_set(blocks: Seq<Block>) -> Set<Block> {
    Set::new(|x: Block| blocks.contains(x))
}

/// Two sequences of live blocks with the same blocks are the same sequence:
/// live blocks are kept in address order.
pub proof fn lemma_blocks_by_set(a: Seq<Block>, sa: int, b: Seq<Block>, sb: int)
    requires
        blocks_ok(a, sa),
        blocks_ok(b, sb),
        block_set(a) == block_set(b),
    ensures
        a == b,
    decreases a.len(),
{
    if a.len() == 0 {
        if b.len() > 0 {
            assert(block_set(b).contains(b[0]));
            assert(!a.contains(b[0]));
        }
        assert(a =~= b);
    } else {
        assert(block_set(a).contains(a[0]));
        assert(b.contains(a[0]));
        let j = choose|j: int| 0 <= j < b.len() && b[j] == a[0];
        assert(block_set(b).contains(b[0]));
        assert(a.contains(b[0]));
        let i = choose|i: int| 0 <= i < a.len() && a[i] == b[0];
        if i > 0 {
            assert(a[0].end() <= a[i].start);
        }
        if j > 0 {
            assert(b[0].end() <= b[j].start);
        }
        assert(a[0] == b[0]);
        let a1 = a.drop_first();
        let b1 = b.drop_first();
        assert forall|x: Block| block_set(a1).contains(x) <==> block_set(b1).contains(x) by {
            if a1.contains(x) {
                let k = choose|k: int| 0 <= k < a1.len() && a1[k] == x;
                assert(a[k + 1] == x);
                assert(a[0].end() <= a[k + 1].start);
                assert(block_set(b).contains(x));
                let m = choose|m: int| 0 <= m < b.len() && b[m] == x;
                assert(m != 0);
                assert(b1[m - 1] == x);
            }
            if b1.contains(x) {
                let k = choose|k: int| 0 <= k < b1.len() && b1[k] == x;
                assert(b[k + 1] == x);
                assert(b[0].end() <= b[k + 1].start);
                assert(block_set(a).contains(x));
                let m = choose|m: int| 0 <= m < a.len() && a[m] == x;
                assert(m != 0);
                assert(a1[m - 1] == x);
            }
        }
        assert(block_set(a1) =~= block_set(b1));
        assert(blocks_ok(a1, sa)) by {
            assert forall|p: int, q: int| #![trigger a1[p], a1[q]] 0 <= p < q < a1.len() implies a1[p].end() <= a1[q].start by {
                assert(a[p + 1].end() <= a[q + 1].start);
            }
        }
        assert(blocks_ok(b1, sb)) by {
            assert forall|p: int, q: int| #![trigger b1[p], b1[q]] 0 <= p < q < b1.len() implies b1[p].end() <= b1[q].start by {
                assert(b[p + 1].end() <= b[q + 1].start);
            }
        }
        lemma_blocks_by_set(a1, sa, b1, sb);
        assert(a =~= b) by {
            assert forall|k: int| 0 <= k < a.len() implies a[k] == b[k] by {
                if k > 0 {
                    assert(a[k] == a1[k - 1]);
                    assert(b[k] == b1[k - 1]);
                }
            }
        }
    }
}

/// Leaking `len` bytes adds exactly one block, which was not live before:
/// the block at the leaked pointer.
pub proof fn lemma_leak_adds_block(blocks: Seq<Block>, content: Seq<u8>, v: Seq<u8>)
    requires
        blocks_ok(blocks, content.len() as int),
        (content.len() as int) % (PAGE_SIZE as int) == 0,
        content.len() + HEAP_BASE + v.len() + PAGE_SIZE <= MAX_SIZE,
        v.len() > 0,
    ensures
        ({
            let nb = Block { start: leak_ptr(blocks, v.len() as int) as usize, len: v.len() as usize };
            &&& block_set(leak_live(blocks, v.len() as int)) == block_set(blocks).insert(nb)
            &&& !block_set(blocks).contains(nb)
        }),
{
    lemma_leak_growth(blocks, content, v);
    let len = v.len() as int;
    let (j, c) = crate::linear_memory::placement(blocks, len);
    crate::linear_memory::lemma_fit_from(blocks, 0, len, content.len() as int);
    let nb = Block { start: c as usize, len: len as usize };
    let after = leak_live(blocks, len);
    assert(after == blocks.insert(j, nb));
    let grown = crate::linear_memory::reserve_content(content, blocks, len).len() as int;
    assert(blocks_ok(after, grown));
    assert forall|x: Block| block_set(after).contains(x) <==> block_set(blocks).insert(nb).contains(x) by {
        if after.contains(x) {
            let k = choose|k: int| 0 <= k < after.len() && after[k] == x;
            if k < j {
                assert(blocks[k] == x);
            } else if k > j {
                assert(blocks[k - 1] == x);
            }
        }
        if blocks.contains(x) {
            let k = choose|k: int| 0 <= k < blocks.len() && blocks[k] == x;
            if k < j {
                assert(after[k] == x);
            } else {
                assert(after[k + 1] == x);
            }
        }
        if x == nb {
            assert(after[j] == nb);
        }
    }
    assert(block_set(after) =~= block_set(blocks).insert(nb));
    if blocks.contains(nb) {
        let k = choose|k: int| 0 <= k < blocks.len() && blocks[k] == nb;
        if k < j {
            assert(after[k] == nb && after[j] == nb);
            assert(after[k].end() <= after[j].start);
        } else {
            assert(after[k + 1] == nb && after[j] == nb);
            assert(after[j].end() <= after[k + 1].start);
        }
    }
}

/// Freeing the block at index `k` takes exactly that block out.
pub proof fn lemma_free_removes_block(blocks: Seq<Block>, size: int, k: int)
    requires
        blocks_ok(blocks, size),
        0 <= k < blocks.len(),
    ensures
        block_set(blocks.remove(k)) == block_set(blocks).remove(blocks[k]),
        blocks_ok(blocks.remove(k), size),
{
    let after = blocks.remove(k);
    assert forall|x: Block| block_set(after).contains(x) <==> block_set(blocks).remove(blocks[k]).contains(x) by {
        if after.contains(x) {
            let m = choose|m: int| 0 <= m < after.len() && after[m] == x;
            let m0 = if m < k { m } else { m + 1 };
            assert(blocks[m0] == x);
            if m0 < k {
                assert(blocks[m0].end() <= blocks[k].start);
            } else {
                assert(blocks[k].end() <= blocks[m0].start);
            }
        }
        if blocks.contains(x) && x != blocks[k] {
            let m = choose|m: int| 0 <= m < blocks.len() && blocks[m] == x;
            assert(m != k);
            if m < k {
                assert(after[m] == x);
            } else {
                assert(after[m - 1] == x);
            }
        }
    }
    assert(block_set(after) =~= block_set(blocks).remove(blocks[k]));
    assert forall|p: int, q: int| #![trigger after[p], after[q]] 0 <= p < q < after.len() implies after[p].end()
        <= after[q].start by {
        let p0 = if p < k { p } else { p + 1 };
        let q0 = if q < k { q } else { q + 1 };
        assert(after[p] == blocks[p0] && after[q] == blocks[q0]);
    }
}

/// The room a batch needs: for each item its length, the heap base and a
/// page to grow by.
pub open spec fn batch_room(vs: Seq<Seq<u8>>) -> int
    decreases vs.len(),
{
    if vs.len() == 0 {
        0
    } else {
        batch_room(vs.drop_last()) + HEAP_BASE + vs.last().len() + PAGE_SIZE
    }
}

/// The live blocks and the bytes after leaking each of `vs` in turn, as
/// `write_bytes` does, and where each went.
pub open spec fn leak_each(blocks: Seq<Block>, content: Seq<u8>, vs: Seq<Seq<u8>>) -> (Seq<Block>, Seq<u8>, Seq<int>)
    decreases vs.len(),
{
    if vs.len() == 0 {
        (blocks, content, Seq::empty())
    } else {
        let (b, c, ps) = leak_each(blocks, content, vs.drop_last());
        let v = vs.last();
        (leak_live(b, v.len() as int), leak_content(c, b, v), ps.push(leak_ptr(b, v.len() as int)))
    }
}

/// The live blocks after the block starting at each of `ps` is freed in
/// turn, first to last, as `consume_bytes` frees them.
pub open spec fn free_each(blocks: Seq<Block>, ps: Seq<int>) -> Seq<Block>
    decreases ps.len(),
{
    if ps.len() == 0 {
        blocks
    } else {
        let b = free_each(blocks, ps.drop_last());
        b.remove(choose|k: int| 0 <= k < b.len() && b[k].start == ps.last())
    }
}

/// The block the `i`th leak of a batch created.
pub open spec fn batch_block(ps: Seq<int>, vs: Seq<Seq<u8>>, i: int) -> Block {
    Block { start: ps[i] as usize, len: vs[i].len() as usize }
}

/// The blocks the leaks `lo` up to `hi` of a batch created.
pub open spec fn batch_blocks(ps: Seq<int>, vs: Seq<Seq<u8>>, lo: int, hi: int) -> Set<Block> {
    Set::new(|x: Block| exists|i: int| lo <= i < hi && x == batch_block(ps, vs, i))
}

/// Leaking a batch records one pointer per item.
proof fn lemma_leak_each_len(blocks: Seq<Block>, content: Seq<u8>, vs: Seq<Seq<u8>>)
    ensures
        leak_each(blocks, content, vs).2.len() == vs.len(),
    decreases vs.len(),
{
    if vs.len() > 0 {
        lemma_leak_each_len(blocks, content, vs.drop_last());
    }
}

/// Leaking a batch adds one new block per item, each distinct and none live
/// before, and grows the memory by whole pages within the batch's room.
proof fn lemma_leak_each(blocks: Seq<Block>, content: Seq<u8>, vs: Seq<Seq<u8>>)
    requires
        blocks_ok(blocks, content.len() as int),
        (content.len() as int) % (PAGE_SIZE as int) == 0,
        content.len() + batch_room(vs) <= MAX_SIZE,
        forall|i: int| 0 <= i < vs.len() ==> #[trigger] vs[i].len() > 0,
    ensures
        ({
            let (b, c, ps) = leak_each(blocks, content, vs);
            &&& ps.len() == vs.len()
            &&& blocks_ok(b, c.len() as int)
            &&& (c.len() as int) % (PAGE_SIZE as int) == 0
            &&& content.len() <= c.len() <= content.len() + batch_room(vs)
            &&& block_set(b) == block_set(blocks).union(batch_blocks(ps, vs, 0, vs.len() as int))
            &&& forall|i: int| 0 <= i < vs.len() ==> !block_set(blocks).contains(#[trigger] batch_block(ps, vs, i))
            &&& forall|i: int, j: int|
                0 <= i < j < vs.len() ==> #[trigger] batch_block(ps, vs, i) != #[trigger] batch_block(ps, vs, j)
            &&& forall|i: int| 0 <= i < vs.len() ==> HEAP_BASE <= #[trigger] ps[i] && ps[i] + vs[i].len() <= c.len()
        }),
    decreases vs.len(),
{
    if vs.len() == 0 {
        assert(block_set(blocks).union(batch_blocks(Seq::<int>::empty(), vs, 0, 0)) =~= block_set(blocks));
    } else {
        let n = vs.len() - 1;
        let vs0 = vs.drop_last();
        assert forall|i: int| 0 <= i < vs0.len() implies #[trigger] vs0[i].len() > 0 by {
            assert(vs0[i] == vs[i]);
        }
        lemma_leak_each(blocks, content, vs0);
        let (b0, c0, ps0) = leak_each(blocks, content, vs0);
        let v = vs.last();
        assert(v.len() > 0) by {
            assert(vs[n] == v);
        }
        lemma_leak_growth(b0, c0, v);
        lemma_leak_adds_block(b0, c0, v);
        let (b, c, ps) = leak_each(blocks, content, vs);
        let nb = batch_block(ps, vs, n);
        assert(ps == ps0.push(leak_ptr(b0, v.len() as int)));
        assert(nb == Block { start: leak_ptr(b0, v.len() as int) as usize, len: v.len() as usize });
        assert forall|i: int| 0 <= i < n implies batch_block(ps, vs, i) == #[trigger] batch_block(ps0, vs0, i) by {
            assert(ps[i] == ps0[i]);
            assert(vs[i] == vs0[i]);
        }
        assert forall|x: Block| block_set(b).contains(x) <==> block_set(blocks).union(
            batch_blocks(ps, vs, 0, vs.len() as int),
        ).contains(x) by {
            if batch_blocks(ps0, vs0, 0, n).contains(x) {
                let i = choose|i: int| 0 <= i < n && x == batch_block(ps0, vs0, i);
                assert(batch_block(ps, vs, i) == batch_block(ps0, vs0, i));
            }
            if batch_blocks(ps, vs, 0, vs.len() as int).contains(x) {
                let i = choose|i: int| 0 <= i < vs.len() && x == batch_block(ps, vs, i);
                if i < n {
                    assert(batch_block(ps, vs, i) == batch_block(ps0, vs0, i));
                    assert(batch_blocks(ps0, vs0, 0, n).contains(x));
                }
            }
        }
        assert(block_set(b) =~= block_set(blocks).union(batch_blocks(ps, vs, 0, vs.len() as int)));
        assert forall|i: int| 0 <= i < vs.len() implies !block_set(blocks).contains(#[trigger] batch_block(ps, vs, i)) by {
            if i < n {
                assert(batch_block(ps, vs, i) == batch_block(ps0, vs0, i));
            } else {
                assert(!block_set(b0).contains(nb));
                assert(block_set(b0).union(Set::empty()).contains(nb) == block_set(b0).contains(nb));
            }
        }
        assert forall|i: int, j: int| 0 <= i < j < vs.len() implies #[trigger] batch_block(ps, vs, i)
            != #[trigger] batch_block(ps, vs, j) by {
            assert(batch_block(ps, vs, i) == batch_block(ps0, vs0, i));
            if j < n {
                assert(batch_block(ps, vs, j) == batch_block(ps0, vs0, j));
            } else {
                assert(batch_blocks(ps0, vs0, 0, n).contains(batch_block(ps0, vs0, i)));
                assert(block_set(b0).contains(batch_block(ps0, vs0, i)));
            }
        }
        assert forall|i: int| 0 <= i < vs.len() implies HEAP_BASE <= #[trigger] ps[i] && ps[i] + vs[i].len() <= c.len() by {
            if i < n {
                assert(ps[i] == ps0[i] && vs[i] == vs0[i]);
            }
        }
    }
}

/// Freeing the first `j` blocks of a batch, in order, leaves the blocks
/// from before the batch and the batch's later blocks.
proof fn lemma_free_each(blocks: Seq<Block>, content: Seq<u8>, vs: Seq<Seq<u8>>, j: int)
    requires
        blocks_ok(blocks, content.len() as int),
        (content.len() as int) % (PAGE_SIZE as int) == 0,
        content.len() + batch_room(vs) <= MAX_SIZE,
        forall|i: int| 0 <= i < vs.len() ==> #[trigger] vs[i].len() > 0,
        0 <= j <= vs.len(),
    ensures
        ({
            let (b, c, ps) = leak_each(blocks, content, vs);
            let f = free_each(b, ps.take(j));
            &&& blocks_ok(f, c.len() as int)
            &&& block_set(f) == block_set(blocks).union(batch_blocks(ps, vs, j, vs.len() as int))
        }),
    decreases j,
{
    lemma_leak_each(blocks, content, vs);
    let (b, c, ps) = leak_each(blocks, content, vs);
    if j == 0 {
        assert(ps.take(0) =~= Seq::<int>::empty());
    } else {
        lemma_free_each(blocks, content, vs, j - 1);
        let f0 = free_each(b, ps.take(j - 1));
        assert(ps.take(j).drop_last() =~= ps.take(j - 1));
        assert(ps.take(j).last() == ps[j - 1]);
        let nb = batch_block(ps, vs, j - 1);
        assert(batch_blocks(ps, vs, j - 1, vs.len() as int).contains(nb));
        assert(block_set(f0).contains(nb));
        let k = choose|k: int| 0 <= k < f0.len() && f0[k] == nb;
        let k2 = choose|k2: int| 0 <= k2 < f0.len() && f0[k2].start == ps[j - 1];
        assert(f0[k].start == ps[j - 1]);
        if k2 != k {
            if k2 < k {
                assert(f0[k2].end() <= f0[k].start);
            } else {
                assert(f0[k].end() <= f0[k2].start);
            }
        }
        assert(free_each(b, ps.take(j)) == f0.remove(k));
        lemma_free_removes_block(f0, c.len() as int, k);
        let f = f0.remove(k);
        assert forall|x: Block| block_set(f).contains(x) <==> block_set(blocks).union(
            batch_blocks(ps, vs, j, vs.len() as int),
        ).contains(x) by {
            if batch_blocks(ps, vs, j, vs.len() as int).contains(x) {
                let i = choose|i: int| j <= i < vs.len() && x == batch_block(ps, vs, i);
                assert(batch_blocks(ps, vs, j - 1, vs.len() as int).contains(x));
                assert(x != nb);
            }
            if block_set(blocks).contains(x) {
                assert(x != nb);
            }
            if block_set(f).contains(x) {
                assert(x != nb);
                if batch_blocks(ps, vs, j - 1, vs.len() as int).contains(x) {
                    let i = choose|i: int| j - 1 <= i < vs.len() && x == batch_block(ps, vs, i);
                    assert(i != j - 1);
                }
            }
        }
        assert(block_set(f) =~= block_set(blocks).union(batch_blocks(ps, vs, j, vs.len() as int)));
    }
}

/// Leaking a batch of the same lengths into a memory already grown to hold
/// the first batch's blocks puts each item where the first batch put it and
/// grows nothing.
proof fn lemma_leak_each_again(
    blocks: Seq<Block>,
    content: Seq<u8>,
    vs: Seq<Seq<u8>>,
    grown: Seq<u8>,
    ws: Seq<Seq<u8>>,
)
    requires
        ws.len() == vs.len(),
        forall|i: int| 0 <= i < vs.len() ==> #[trigger] ws[i].len() == vs[i].len(),
        forall|i: int| 0 <= i < vs.len() ==> #[trigger] leak_each(blocks, content, vs).2[i] >= 0,
        forall|i: int|
            0 <= i < vs.len() ==> #[trigger] leak_each(blocks, content, vs).2[i] + vs[i].len() <= grown.len(),
    ensures
        leak_each(blocks, grown, ws).0 == leak_each(blocks, content, vs).0,
        leak_each(blocks, grown, ws).2 == leak_each(blocks, content, vs).2,
        leak_each(blocks, grown, ws).1.len() == grown.len(),
    decreases vs.len(),
{
    if vs.len() > 0 {
        let n = vs.len() - 1;
        let (vs0, ws0) = (vs.drop_last(), ws.drop_last());
        let (b0, c0, ps0) = leak_each(blocks, content, vs0);
        let ps = leak_each(blocks, content, vs).2;
        lemma_leak_each_len(blocks, content, vs0);
        assert(ps == ps0.push(leak_ptr(b0, vs.last().len() as int)));
        assert forall|i: int| 0 <= i < vs0.len() implies #[trigger] ws0[i].len() == vs0[i].len() by {
            assert(ws0[i] == ws[i] && vs0[i] == vs[i]);
        }
        assert forall|i: int| 0 <= i < vs0.len() implies #[trigger] ps0[i] >= 0 && ps0[i] + vs0[i].len() <= grown.len() by {
            assert(ps0[i] == ps[i] && vs0[i] == vs[i]);
        }
        lemma_leak_each_again(blocks, content, vs0, grown, ws0);
        let (b2, c2, ps2) = leak_each(blocks, grown, ws0);
        let w = ws.last();
        let len = w.len() as int;
        assert(w.len() == vs.last().len()) by {
            assert(ws[n] == w && vs[n] == vs.last());
        }
        assert(ps[n] + vs[n].len() <= grown.len());
        if len > 0 {
            let p = crate::linear_memory::placement(b2, len).1;
            assert(leak_ptr(b2, len) == p);
            assert(crate::linear_memory::grown_size(c2.len() as int, p + len) == c2.len()) by {
                assert(p + len <= c2.len());
            }
            let ext = crate::linear_memory::zero_extended(c2, c2.len() as int);
            assert(ext.len() == c2.len());
        }
    }
}

/// Leaking a batch of byte vectors and then freeing each, first to last,
/// leaves exactly the live blocks there were before; and leaking a batch of
/// the same lengths once more puts each item where the first batch put it
/// without growing the memory. So a guest that frees what it leaks keeps a
/// constant number of pages however many rounds it goes through.
pub proof fn lemma_batch_round_trip(blocks: Seq<Block>, content: Seq<u8>, vs: Seq<Seq<u8>>, ws: Seq<Seq<u8>>)
    requires
        blocks_ok(blocks, content.len() as int),
        (content.len() as int) % (PAGE_SIZE as int) == 0,
        content.len() + batch_room(vs) <= MAX_SIZE,
        forall|i: int| 0 <= i < vs.len() ==> #[trigger] vs[i].len() > 0,
        ws.len() == vs.len(),
        forall|i: int| 0 <= i < vs.len() ==> #[trigger] ws[i].len() == vs[i].len(),
    ensures
        ({
            let (b, c, ps) = leak_each(blocks, content, vs);
            &&& free_each(b, ps) == blocks
            &&& leak_each(blocks, c, ws).1.len() == c.len()
            &&& leak_each(blocks, c, ws).2 == ps
            &&& leak_each(blocks, c, ws).0 == b
        }),
{
    let n = vs.len() as int;
    lemma_leak_each(blocks, content, vs);
    lemma_free_each(blocks, content, vs, n);
    let (b, c, ps) = leak_each(blocks, content, vs);
    assert(ps.take(n) =~= ps);
    assert(batch_blocks(ps, vs, n, n) =~= Set::empty());
    assert(block_set(blocks).union(Set::empty()) =~= block_set(blocks));
    lemma_blocks_by_set(free_each(b, ps), c.len() as int, blocks, content.len() as int);
    assert forall|i: int| 0 <= i < vs.len() implies #[trigger] ps[i] >= 0 by {
        assert(block_set(b).contains(batch_block(ps, vs, i))) by {
            assert(batch_blocks(ps, vs, 0, n).contains(batch_block(ps, vs, i)));
        }
        let k = choose|k: int| 0 <= k < b.len() && b[k] == batch_block(ps, vs, i);
        assert(b[k].start >= HEAP_BASE);
    }
    lemma_leak_each_again(blocks, content, vs, c, ws);
}

} // verus!
