use vstd::prelude::*;

verus! {

/// A single input fed to the target, viewed as its raw bytes.
pub trait Input {
    /// The bytes that make up this input.
    spec fn byte_view(&self) -> Seq<u8>;

    /// Returns the input data as a byte slice.
    fn as_bytes(&self) -> (bytes: &[u8])
        ensures
            bytes@ == self.byte_view(),
    ;

    /// Returns the length of the input in bytes.
    fn len(&self) -> (n: usize)
        ensures
            n == self.byte_view().len(),
    ;

    /// Returns `true` when the input has no bytes.
    fn is_empty(&self) -> (b: bool)
        ensures
            b == (self.byte_view().len() == 0),
    ;
}

impl Input for Vec<u8> {
    open spec fn byte_view(&self) -> Seq<u8> {
        self@
    }

    fn as_bytes(&self) -> (bytes: &[u8]) {
        self.as_slice()
    }

    fn len(&self) -> (n: usize) {
        Vec::len(self)
    }

    fn is_empty(&self) -> (b: bool) {
        Vec::len(self) == 0
    }
}

} // verus!
