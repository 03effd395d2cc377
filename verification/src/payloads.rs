//! The values the example guests and their host pass to one another.

use vstd::prelude::*;
use vstd::string::StringExecFns;

verus! {

/// A struct wrapping a string, that the guests process.
#[derive(Clone, Debug, PartialEq)]
pub struct SomeStruct {
    inner: String,
}

impl SomeStruct {
    /// The string the struct holds.
    pub closed spec fn text(&self) -> Seq<char> {
        self.inner@
    }

    /// Wraps `inner`.
    pub fn new(inner: String) -> (s: Self)
        ensures
            s.text() == inner@,
    {
        SomeStruct { inner }
    }

    /// Marks the string as processed: it becomes `processed: ` followed by
    /// what it was.
    pub fn process(&mut self)
        ensures
            final(self).text() == "processed: "@ + old(self).text(),
    {
        let mut s = String::from_str("processed: ");
        s.append(self.inner.as_str());
        self.inner = s;
    }
}

/// A string passed as a newtype.
#[derive(Clone)]
pub struct StringType(pub String);

impl From<String> for StringType {
    fn from(s: String) -> (r: StringType) {
        StringType(s)
    }
}

impl vstd::std_specs::convert::FromSpecImpl<String> for StringType {
    open spec fn obeys_from_spec() -> bool {
        true
    }

    open spec fn from_spec(v: String) -> StringType {
        StringType(v)
    }
}

impl From<StringType> for String {
    fn from(s: StringType) -> (r: String) {
        s.0
    }
}

impl vstd::std_specs::convert::FromSpecImpl<StringType> for String {
    open spec fn obeys_from_spec() -> bool {
        true
    }

    open spec fn from_spec(v: StringType) -> String {
        v.0
    }
}

/// Bytes passed as a newtype.
#[derive(Clone, Debug)]
pub struct BytesType(pub Vec<u8>);

impl From<Vec<u8>> for BytesType {
    fn from(b: Vec<u8>) -> (r: Self) {
        BytesType(b)
    }
}

impl vstd::std_specs::convert::FromSpecImpl<Vec<u8>> for BytesType {
    open spec fn obeys_from_spec() -> bool {
        true
    }

    open spec fn from_spec(v: Vec<u8>) -> BytesType {
        BytesType(v)
    }
}

impl BytesType {
    /// A copy of the bytes.
    pub fn inner(&self) -> (r: Vec<u8>)
        ensures
            r@ == self.0@,
    {
        self.0.clone()
    }
}

/// An integer passed as a newtype.
pub struct IntegerType(pub u32);

impl From<u32> for IntegerType {
    fn from(u: u32) -> (r: Self) {
        IntegerType(u)
    }
}

impl vstd::std_specs::convert::FromSpecImpl<u32> for IntegerType {
    open spec fn obeys_from_spec() -> bool {
        true
    }

    open spec fn from_spec(v: u32) -> IntegerType {
        IntegerType(v)
    }
}

impl From<IntegerType> for u32 {
    fn from(u: IntegerType) -> (r: u32) {
        u.0
    }
}

impl vstd::std_specs::convert::FromSpecImpl<IntegerType> for u32 {
    open spec fn obeys_from_spec() -> bool {
        true
    }

    open spec fn from_spec(v: IntegerType) -> u32 {
        v.0
    }
}

} // verus!
