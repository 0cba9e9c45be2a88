//! The schema reader: turns a raw type description into an ordered list of
//! variant descriptors, or rejects a type that is not a tagged union.
use vstd::prelude::*;

verus! {

/// A named field as the host parser describes it.
#[derive(Clone, Debug)]
pub struct RawField {
    pub name: String,
    pub ty: String,
}

/// The fields of a variant as the host parser describes them.
#[derive(Clone, Debug)]
pub enum RawFields {
    /// No payload: `V`.
    Unit,
    /// Positional payload, one type per field: `V(A, B)`.
    Unnamed(Vec<String>),
    /// Named payload: `V { a: A }`.
    Named(Vec<RawField>),
}

/// One arm of a raw union description.
#[derive(Clone, Debug)]
pub struct RawVariant {
    pub name: String,
    pub fields: RawFields,
}

/// The body of a raw type description.
#[derive(Clone, Debug)]
pub enum TypeBody {
    /// A tagged union with its arms in declaration order.
    Union(Vec<RawVariant>),
    /// A record type (a struct).
    Record,
    /// Any other kind of type (an untagged union, a primitive).
    Other,
}

/// A raw type description, as handed over by the host parser.
#[derive(Clone, Debug)]
pub struct TypeDescription {
    pub name: String,
    pub body: TypeBody,
}

/// The shape of a variant's payload.
#[derive(Clone, Debug)]
pub enum PayloadShape {
    /// No payload.
    Unit,
    /// A positional payload of the given arity.
    Positional(usize),
    /// A payload of named fields.
    Named(Vec<String>),
}

/// One normalized variant: its name and the shape of its payload.
#[derive(Clone, Debug)]
pub struct VariantDescriptor {
    pub name: String,
    pub shape: PayloadShape,
}

/// A normalized union schema: the union's name and its variants in order.
#[derive(Clone, Debug)]
pub struct UnionSchema {
    pub name: String,
    pub variants: Vec<VariantDescriptor>,
}

/// Why a type description could not be read as a union schema.
#[derive(Clone, Copy, Debug, PartialEq, Eq, Structural)]
pub enum SchemaError {
    NotAUnion,
}

/// `shape` is the classification of the raw fields `raw`.
pub open spec fn classifies(raw: RawFields, shape: PayloadShape) -> bool {
    match (raw, shape) {
        (RawFields::Unit, PayloadShape::Unit) => true,
        (RawFields::Unnamed(tys), PayloadShape::Positional(k)) => k == tys.len(),
        (RawFields::Named(fs), PayloadShape::Named(ns)) => {
            &&& ns.len() == fs.len()
            &&& forall|i: int| 0 <= i < ns.len() ==> (#[trigger] ns[i])@ == fs[i].name@
        },
        _ => false,
    }
}

/// `d` is the normalized form of the raw variant `raw`.
pub open spec fn normalizes(raw: RawVariant, d: VariantDescriptor) -> bool {
    d.name@ == raw.name@ && classifies(raw.fields, d.shape)
}

/// `vs` is the normalized form of `raws`, arm for arm and in the same order.
pub open spec fn normalizes_all(raws: Seq<RawVariant>, vs: Seq<VariantDescriptor>) -> bool {
    &&& vs.len() == raws.len()
    &&& forall|i: int| 0 <= i < vs.len() ==> normalizes(raws[i], #[trigger] vs[i])
}

/// No two variants share a name.
pub open spec fn names_unique(vs: Seq<VariantDescriptor>) -> bool {
    forall|i: int, j: int|
        0 <= i < vs.len() && 0 <= j < vs.len() && i != j ==> (#[trigger] vs[i]).name@
            != (#[trigger] vs[j]).name@
}

/// Classifies the fields of one variant.
pub fn classify_fields(raw: &RawFields) -> (r: PayloadShape)
    ensures
        classifies(*raw, r),
{
    match raw {
        RawFields::Unit => PayloadShape::Unit,
        RawFields::Unnamed(tys) => PayloadShape::Positional(tys.len()),
        RawFields::Named(fs) => {
            let mut names: Vec<String> = Vec::new();
            let mut i: usize = 0;
            while i < fs.len()
                invariant
                    i <= fs.len(),
                    names.len() == i,
                    forall|k: int| 0 <= k < i ==> (#[trigger] names[k])@ == fs[k].name@,
                decreases fs.len() - i,
            {
                names.push(fs[i].name.clone());
                i = i + 1;
            }
            PayloadShape::Named(names)
        },
    }
}

/// Normalizes one raw variant.
pub fn read_variant(raw: &RawVariant) -> (r: VariantDescriptor)
    ensures
        normalizes(*raw, r),
{
    VariantDescriptor { name: raw.name.clone(), shape: classify_fields(&raw.fields) }
}

/// Reads a type description as a union schema, keeping the declaration order
/// of its variants; anything but a tagged union is rejected.
pub fn read_schema(desc: &TypeDescription) -> (r: Result<UnionSchema, SchemaError>)
    ensures
        match desc.body {
            TypeBody::Union(raws) => r matches Ok(s) && s.name@ == desc.name@
                && normalizes_all(raws@, s.variants@),
            _ => r == Err::<UnionSchema, SchemaError>(SchemaError::NotAUnion),
        },
{
    match &desc.body {
        TypeBody::Union(raws) => {
            let mut variants: Vec<VariantDescriptor> = Vec::new();
            let mut i: usize = 0;
            while i < raws.len()
                invariant
                    i <= raws.len(),
                    variants.len() == i,
                    forall|k: int| 0 <= k < i ==> normalizes(raws[k], #[trigger] variants[k]),
                decreases raws.len() - i,
            {
                variants.push(read_variant(&raws[i]));
                i = i + 1;
            }
            Ok(UnionSchema { name: desc.name.clone(), variants })
        },
        _ => Err(SchemaError::NotAUnion),
    }
}

} // verus!
