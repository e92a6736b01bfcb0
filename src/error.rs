use vstd::prelude::*;

verus! {

/// Every failure of decoding or lowering; each one ends the compilation.
#[derive(Debug, Clone, Copy, PartialEq, Eq, Structural)]
pub enum Error {
    /// The PE envelope or the CLI header is invalid.
    MalformedImage,
    /// The `#~` stream is absent from the metadata root.
    MissingStream,
    /// A bit of the `valid` vector names no known table.
    UnknownTable,
    /// An opcode byte that the decoder does not know.
    UnknownOpcode,
    /// A decoded instruction outside the supported subset.
    UnsupportedOpcode,
    /// An element type outside the supported signature grammar.
    UnsupportedSignature,
    /// A member reference whose parent is not a `TypeRef`.
    UnsupportedMemberRefParent,
    /// A call through a `MethodSpec` token.
    UnsupportedGenericCall,
    /// A call whose token names no method.
    MalformedCallTarget,
    /// A metadata token with an unknown high byte.
    BadToken,
    /// A heap index out of range, or a malformed length prefix.
    HeapDecodeError,
    /// A table row reference out of range.
    BadIndex,
    /// Truncated input or a tag mismatch.
    BadInput,
}

} // verus!
