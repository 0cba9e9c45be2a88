//! From a raw type description to the artifact handed to the code sink.
use vstd::prelude::*;
use crate::kind::{compile, compiled_from, CompileError, KindSet};
use crate::schema::{normalizes_all, read_schema, SchemaError, TypeBody, TypeDescription, UnionSchema};
use crate::width::MAX_VARIANTS;

verus! {

/// Why no flag set was generated.
#[derive(Clone, Copy, Debug, PartialEq, Eq, Structural)]
pub enum GenerateError {
    /// The input type is not a tagged union.
    NotAUnion,
    /// The union has more variants than a flag set can hold.
    TooManyVariants,
}

impl GenerateError {
    pub open spec fn spec_message(self) -> Seq<char> {
        match self {
            GenerateError::NotAUnion => "Unsupported structure (enum's only)"@,
            GenerateError::TooManyVariants => "Enum has too many variants."@,
        }
    }

    /// The message shown to the user at the point of use.
    pub fn message(&self) -> (r: &'static str)
        ensures
            r@ == self.spec_message(),
    {
        match self {
            GenerateError::NotAUnion => "Unsupported structure (enum's only)",
            GenerateError::TooManyVariants => "Enum has too many variants.",
        }
    }
}

/// What a generation request produces.
#[derive(Clone, Debug)]
pub enum Artifact {
    /// Nothing to generate (a union without variants).
    Empty,
    /// The flag set, its mapping function and its markers.
    Generated(KindSet),
    /// A compile-time error marker in place of the output.
    Diagnostic(GenerateError),
}

/// `k` is compiled from the union called `name` with the raw arms `raws`.
pub open spec fn generated_from(k: KindSet, name: Seq<char>, raws: Seq<crate::schema::RawVariant>) -> bool {
    exists|s: UnionSchema| s.name@ == name && normalizes_all(raws, s.variants@) && compiled_from(k, s)
}

/// Generates the kind flag set of a type description.
///
/// A type that is not a tagged union, or a union with more than 128 variants,
/// yields a diagnostic; a union without variants yields an empty artifact.
pub fn into_packet(desc: &TypeDescription) -> (r: Artifact)
    ensures
        match desc.body {
            TypeBody::Union(raws) => if raws.len() == 0 {
                r is Empty
            } else if raws.len() > MAX_VARIANTS {
                r == Artifact::Diagnostic(GenerateError::TooManyVariants)
            } else {
                r matches Artifact::Generated(k) && generated_from(k, desc.name@, raws@)
            },
            _ => r == Artifact::Diagnostic(GenerateError::NotAUnion),
        },
{
    let schema = match read_schema(desc) {
        Ok(s) => s,
        Err(SchemaError::NotAUnion) => return Artifact::Diagnostic(GenerateError::NotAUnion),
    };
    match compile(&schema) {
        Ok(Some(k)) => Artifact::Generated(k),
        Ok(None) => Artifact::Empty,
        Err(CompileError::TooManyVariants) => Artifact::Diagnostic(GenerateError::TooManyVariants),
    }
}

} // verus!
