//! Zero-terminated boundary strings: the owned value that the adapter
//! hands across the C-compatible boundary. A boundary string is a byte
//! sequence with no zero byte in its contents, followed by exactly one
//! zero terminator; construction checks this generically and refuses
//! source bytes that hold an embedded terminator.

use vstd::prelude::*;

verus! {

/// True when `s` holds a zero byte anywhere.
pub open spec fn has_zero_byte(s: Seq<u8>) -> bool {
    exists|i: int| 0 <= i < s.len() && s[i] == 0
}

/// Why a boundary string could not be built from some source bytes.
#[derive(Debug, PartialEq, Eq, Structural)]
pub enum BoundaryError {
    /// The source bytes hold a zero byte at `offset`; a receiver on the
    /// far side of the boundary would read it as a premature terminator.
    EmbeddedTerminator { offset: usize },
}

/// An owned byte sequence ready to cross the boundary: content bytes,
/// none of them zero, followed by a single zero terminator.
pub struct BoundaryString {
    bytes: Vec<u8>,
}

impl View for BoundaryString {
    type V = Seq<u8>;

    /// The full byte sequence, terminator included.
    closed spec fn view(&self) -> Seq<u8> {
        self.bytes@
    }
}

impl BoundaryString {
    /// The content bytes: everything before the terminator.
    pub open spec fn contents(&self) -> Seq<u8> {
        self@.take(self@.len() - 1)
    }

    /// The invariant: at least the terminator is present, the last byte
    /// is zero, and no content byte is zero.
    pub open spec fn well_formed(&self) -> bool {
        &&& self@.len() >= 1
        &&& self@.last() == 0
        &&& !has_zero_byte(self.contents())
    }

    /// Builds a boundary string from `data` by appending the terminator,
    /// after checking that no byte of `data` is itself zero. Succeeds on
    /// exactly the inputs with no zero byte; on failure reports the
    /// offset of the first zero byte and produces nothing.
    pub fn new(data: Vec<u8>) -> (r: Result<BoundaryString, BoundaryError>)
        ensures
            r is Ok <==> !has_zero_byte(data@),
            r matches Ok(b) ==> {
                &&& b.well_formed()
                &&& b@ == data@.push(0u8)
                &&& b.contents() == data@
            },
            r matches Err(BoundaryError::EmbeddedTerminator { offset }) ==> {
                &&& offset < data@.len()
                &&& data@[offset as int] == 0
                &&& forall|j: int| 0 <= j < offset ==> data@[j] != 0
            },
    {
        let ghost source = data@;
        let n: usize = data.len();
        let mut i: usize = 0;
        while i < n
            invariant
                i <= n,
                n == data@.len(),
                data@ == source,
                forall|j: int| 0 <= j < i ==> data@[j] != 0,
            decreases n - i,
        {
            if data[i] == 0 {
                return Err(BoundaryError::EmbeddedTerminator { offset: i });
            }
            i += 1;
        }
        let mut bytes = data;
        bytes.push(0);
        let b = BoundaryString { bytes };
        proof {
            assert(b.contents() =~= source);
        }
        Ok(b)
    }

    /// Gives up the full byte sequence, terminator included: the moment
    /// ownership leaves the library and passes to the boundary caller.
    pub fn into_bytes(self) -> (r: Vec<u8>)
        ensures
            r@ == self@,
    {
        self.bytes
    }

    /// The number of content bytes, terminator not counted.
    pub fn content_len(&self) -> (r: usize)
        requires
            self.well_formed(),
        ensures
            r == self.contents().len(),
    {
        self.bytes.len() - 1
    }
}

} // verus!
