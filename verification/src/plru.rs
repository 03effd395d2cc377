//! A bit pseudo-LRU tracker of 64 cache lines: each line has a "recently
//! used" flag, set when the line is touched. A line to replace is the first
//! cold one; when every line is hot, all of them are made cold again
//! (inflation) and the first line is chosen.

use vstd::prelude::*;
use vstd::std_specs::bits::u64_trailing_zeros;

verus! {

/// The number of lines a `MicroCache` tracks.
pub const MICRO_CACHE_LINES: usize = 64;

/// Whether line `n` is hot in the flags `bulk`.
pub open spec fn line_hot(bulk: u64, n: u64) -> bool {
    (bulk >> n) & 1u64 == 1u64
}

/// The line `replace` picks in the flags `bulk`: the first cold line, or the
/// first line when every line is hot.
pub open spec fn replacement(bulk: u64) -> u64 {
    (u64_trailing_zeros(!bulk) % 64) as u64
}

/// Setting bit `n` makes line `n` hot and leaves the others as they were;
/// clearing it makes line `n` cold.
proof fn lemma_bit_updates(bulk: u64, n: u64)
    requires
        n < 64,
    ensures
        line_hot(bulk | (1u64 << n), n),
        !line_hot(bulk & !(1u64 << n), n),
        forall|m: u64|
            m < 64 && m != n ==> (line_hot(bulk | (1u64 << n), m) == line_hot(bulk, m) && line_hot(
                bulk & !(1u64 << n),
                m,
            ) == line_hot(bulk, m)),
        (bulk & (1u64 << n) != 0) == line_hot(bulk, n),
{
    assert(((bulk | (1u64 << n)) >> n) & 1u64 == 1u64) by (bit_vector)
        requires
            n < 64,
    ;
    assert(((bulk & !(1u64 << n)) >> n) & 1u64 != 1u64) by (bit_vector)
        requires
            n < 64,
    ;
    assert forall|m: u64| m < 64 && m != n implies (line_hot(bulk | (1u64 << n), m) == line_hot(bulk, m)
        && line_hot(bulk & !(1u64 << n), m) == line_hot(bulk, m)) by {
        assert((((bulk | (1u64 << n)) >> m) & 1u64 == 1u64) == ((bulk >> m) & 1u64 == 1u64)) by (bit_vector)
            requires
                n < 64,
                m < 64,
                m != n,
        ;
        assert((((bulk & !(1u64 << n)) >> m) & 1u64 == 1u64) == ((bulk >> m) & 1u64 == 1u64)) by (bit_vector)
            requires
                n < 64,
                m < 64,
                m != n,
        ;
    }
    assert((bulk & (1u64 << n) != 0) == ((bulk >> n) & 1u64 == 1u64)) by (bit_vector)
        requires
            n < 64,
    ;
}

/// The line `replacement` picks is the first cold line when there is one,
/// and line 0 when every line is hot.
pub proof fn lemma_replacement(bulk: u64)
    ensures
        replacement(bulk) < 64,
        bulk == u64::MAX ==> replacement(bulk) == 0,
        bulk != u64::MAX ==> !line_hot(bulk, replacement(bulk)),
        bulk != u64::MAX ==> forall|m: u64| m < replacement(bulk) ==> line_hot(bulk, m),
{
    let c: u64 = !bulk;
    vstd::std_specs::bits::axiom_u64_trailing_zeros(c);
    assert(bulk == u64::MAX <==> c == 0) by (bit_vector)
        requires
            c == !bulk,
    ;
    if bulk != u64::MAX {
        let t = u64_trailing_zeros(c) as u64;
        assert(t < 64);
        assert((c >> t) & 1u64 == 1u64);
        assert(!((bulk >> t) & 1u64 == 1u64)) by (bit_vector)
            requires
                c == !bulk,
                (c >> t) & 1u64 == 1u64,
                t < 64,
        ;
        assert forall|m: u64| m < replacement(bulk) implies line_hot(bulk, m) by {
            assert((c >> m) & 1u64 == 0u64);
            assert((bulk >> m) & 1u64 == 1u64) by (bit_vector)
                requires
                    c == !bulk,
                    (c >> m) & 1u64 == 0u64,
                    m < 64,
            ;
        }
    }
}

/// A pseudo-LRU tracker of 64 cache lines.
pub struct MicroCache {
    /// The "recently used" flag of every line, line `n` in bit `n`.
    bulk: u64,
    /// Counts the calls to `replace`, wrapping.
    counter: u8,
}

impl MicroCache {
    /// The flags of the lines, line `n` in bit `n`.
    pub closed spec fn flags(&self) -> u64 {
        self.bulk
    }

    /// A tracker with every line cold.
    pub fn new() -> (c: MicroCache)
        ensures
            c.flags() == 0,
    {
        MicroCache { bulk: 0, counter: 0 }
    }

    /// Marks line `n` as recently used.
    pub fn touch(&mut self, n: usize)
        requires
            n < MICRO_CACHE_LINES,
        ensures
            final(self).flags() == old(self).flags() | (1u64 << n as u64),
            line_hot(final(self).flags(), n as u64),
            forall|m: u64| m < 64 && m != n ==> line_hot(final(self).flags(), m) == line_hot(old(self).flags(), m),
    {
        proof {
            lemma_bit_updates(self.bulk, n as u64);
        }
        self.bulk = self.bulk | (1u64 << n as u64);
    }

    /// Marks line `n` as cold, queued for replacement until it is used again.
    pub fn trash(&mut self, n: usize)
        requires
            n < MICRO_CACHE_LINES,
        ensures
            final(self).flags() == old(self).flags() & !(1u64 << n as u64),
            !line_hot(final(self).flags(), n as u64),
            forall|m: u64| m < 64 && m != n ==> line_hot(final(self).flags(), m) == line_hot(old(self).flags(), m),
    {
        proof {
            lemma_bit_updates(self.bulk, n as u64);
        }
        self.bulk = self.bulk & !(1u64 << n as u64);
    }

    /// The approximately least recently used line: the first cold line. When
    /// every line is hot they are all made cold first, and line 0 is
    /// returned. The returned line is not touched.
    pub fn replace(&mut self) -> (r: usize)
        ensures
            r < MICRO_CACHE_LINES,
            r == replacement(old(self).flags()),
            old(self).flags() == u64::MAX ==> final(self).flags() == 0 && r == 0,
            old(self).flags() != u64::MAX ==> final(self).flags() == old(self).flags() && !line_hot(
                old(self).flags(),
                r as u64,
            ) && forall|m: u64| m < r ==> line_hot(old(self).flags(), m),
    {
        proof {
            lemma_replacement(self.bulk);
        }
        self.counter = self.counter.wrapping_add(1);
        let bulk = self.bulk;
        if bulk == u64::MAX {
            self.bulk = 0;
        }
        let ffz: u32 = (!bulk).trailing_zeros() % 64;
        ffz as usize
    }

    /// The number of lines tracked.
    pub fn len(&self) -> (n: usize)
        ensures
            n == MICRO_CACHE_LINES,
    {
        MICRO_CACHE_LINES
    }

    /// Whether line `n` was recently used.
    pub fn is_hot(&self, n: usize) -> (b: bool)
        requires
            n < MICRO_CACHE_LINES,
        ensures
            b == line_hot(self.flags(), n as u64),
    {
        proof {
            lemma_bit_updates(self.bulk, n as u64);
        }
        self.bulk & (1u64 << n as u64) != 0
    }
}

} // verus!
