//! The wasm modules that exercise the host, and the cache keys they are
//! compiled under.

use vstd::prelude::*;

verus! {

/// One of the wasm modules built to exercise the host.
#[derive(Debug, Clone, Copy, PartialEq, Eq, Structural)]
pub enum TestWasm {
    Empty,
    Io,
    Test,
    Memory,
}

/// The byte code of every module, as their build wrote it.
pub struct BuiltWasms {
    pub empty: Vec<u8>,
    pub io: Vec<u8>,
    pub test: Vec<u8>,
    pub memory: Vec<u8>,
}

impl BuiltWasms {
    /// The byte code of `wasm`.
    pub open spec fn of(&self, wasm: TestWasm) -> Seq<u8> {
        match wasm {
            TestWasm::Empty => self.empty@,
            TestWasm::Io => self.io@,
            TestWasm::Test => self.test@,
            TestWasm::Memory => self.memory@,
        }
    }
}

impl TestWasm {
    /// The position of this module in the declaration order.
    pub open spec fn ordinal(self) -> u8 {
        match self {
            TestWasm::Empty => 0,
            TestWasm::Io => 1,
            TestWasm::Test => 2,
            TestWasm::Memory => 3,
        }
    }

    /// Each byte of the cache key of this module compiled with or without
    /// metering: a distinct value for every pair.
    pub open spec fn key_byte(self, metered: bool) -> u8 {
        (2 * self.ordinal() + if metered { 1u8 } else { 0u8 }) as u8
    }

    /// The short name of the module.
    pub open spec fn spec_name(self) -> Seq<char> {
        match self {
            TestWasm::Empty => "empty"@,
            TestWasm::Io => "io"@,
            TestWasm::Test => "test"@,
            TestWasm::Memory => "memory"@,
        }
    }

    /// The file the module's build writes, under the wasm32 release
    /// directory of the build output.
    pub open spec fn spec_file_name(self) -> Seq<char> {
        match self {
            TestWasm::Empty => "test_wasm_empty.wasm"@,
            TestWasm::Io => "test_wasm_io.wasm"@,
            TestWasm::Test => "test_wasm.wasm"@,
            TestWasm::Memory => "test_wasm_memory.wasm"@,
        }
    }

    /// The file the module's build writes, under the wasm32 release
    /// directory of the build output.
    pub fn file_name(&self) -> (r: &str)
        ensures
            r@ == self.spec_file_name(),
    {
        match self {
            TestWasm::Empty => "test_wasm_empty.wasm",
            TestWasm::Io => "test_wasm_io.wasm",
            TestWasm::Test => "test_wasm.wasm",
            TestWasm::Memory => "test_wasm_memory.wasm",
        }
    }

    /// The module's wasm byte code, out of the built modules.
    pub fn bytes<'a>(&self, built: &'a BuiltWasms) -> (r: &'a [u8])
        ensures
            r@ == built.of(*self),
    {
        match self {
            TestWasm::Empty => built.empty.as_slice(),
            TestWasm::Io => built.io.as_slice(),
            TestWasm::Test => built.test.as_slice(),
            TestWasm::Memory => built.memory.as_slice(),
        }
    }

    /// The short name of the module.
    pub fn name(&self) -> (r: &str)
        ensures
            r@ == self.spec_name(),
    {
        match self {
            TestWasm::Empty => "empty",
            TestWasm::Io => "io",
            TestWasm::Test => "test",
            TestWasm::Memory => "memory",
        }
    }

    /// The 32-byte cache key the module is compiled under, with or without
    /// metering: every byte is `key_byte`.
    pub fn key(&self, metered: bool) -> (r: [u8; 32])
        ensures
            r@ == Seq::new(32, |i: int| self.key_byte(metered)),
    {
        let b: u8 = match (self, metered) {
            (TestWasm::Empty, false) => 0,
            (TestWasm::Empty, true) => 1,
            (TestWasm::Io, false) => 2,
            (TestWasm::Io, true) => 3,
            (TestWasm::Test, false) => 4,
            (TestWasm::Test, true) => 5,
            (TestWasm::Memory, false) => 6,
            (TestWasm::Memory, true) => 7,
        };
        let r: [u8; 32] = [b; 32];
        assert(r@ =~= Seq::new(32, |i: int| self.key_byte(metered)));
        r
    }
}

/// Distinct modules, or one module with and without metering, never share
/// a cache key.
pub proof fn lemma_keys_distinct(a: TestWasm, a_metered: bool, b: TestWasm, b_metered: bool)
    requires
        a != b || a_metered != b_metered,
    ensures
        Seq::new(32, |i: int| a.key_byte(a_metered)) != Seq::new(32, |i: int| b.key_byte(b_metered)),
{
    assert(Seq::new(32, |i: int| a.key_byte(a_metered))[0] != Seq::new(
        32,
        |i: int| b.key_byte(b_metered),
    )[0]);
}

} // verus!
