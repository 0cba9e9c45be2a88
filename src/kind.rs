//! The flag compiler: from a union schema to its kind flag set, the mapping
//! from union values to flags, and the capability markers.
use vstd::prelude::*;
use crate::bits::{flag_bit, flag_value};
use crate::schema::{PayloadShape, UnionSchema, VariantDescriptor};
use crate::width::{spec_width_for, width_for, FlagWidth, MAX_VARIANTS};

verus! {

/// The pattern a mapping arm uses to match a variant while discarding its payload.
#[derive(Clone, Copy, Debug, PartialEq, Eq, Structural)]
pub enum PatternKind {
    /// `V`
    Unit,
    /// `V(..)`
    Tuple,
    /// `V { .. }`
    Struct,
}

/// A named constant of the flag set: the bit at `position`.
#[derive(Clone, Debug)]
pub struct FlagConst {
    pub name: String,
    pub position: u32,
    pub value: u128,
}

/// One arm of the mapping function: values of `variant` map to the constant `flag`.
#[derive(Clone, Debug)]
pub struct MatchArm {
    pub variant: String,
    pub pattern: PatternKind,
    pub flag: String,
}

/// A capability family that generated declarations are marked with.
#[derive(Clone, Copy, Debug, PartialEq, Eq, Structural)]
pub enum Capability {
    /// The type is a packet-kind classifier.
    PacketKind,
    /// The type can be sent as a packet.
    PacketSend,
    /// The type can be introspected for its kind.
    PacketRecv,
}

/// A declaration that `target` belongs to `capability`.
#[derive(Clone, Debug)]
pub struct Marker {
    pub target: String,
    pub capability: Capability,
}

/// The compiled kind flag set of a union, with its mapping and markers.
#[derive(Clone, Debug)]
pub struct KindSet {
    /// Name of the generated flag-set type.
    pub kind_name: String,
    /// Name of the union it classifies.
    pub union_name: String,
    pub width: FlagWidth,
    pub flags: Vec<FlagConst>,
    pub arms: Vec<MatchArm>,
    pub markers: Vec<Marker>,
}

/// Why a schema could not be compiled.
#[derive(Clone, Copy, Debug, PartialEq, Eq, Structural)]
pub enum CompileError {
    TooManyVariants,
}

/// A value of a union: the variant it holds and that variant's payload.
pub struct UnionValue<P> {
    pub variant: String,
    pub payload: P,
}

pub open spec fn pattern_for(shape: PayloadShape) -> PatternKind {
    match shape {
        PayloadShape::Unit => PatternKind::Unit,
        PayloadShape::Positional(_) => PatternKind::Tuple,
        PayloadShape::Named(_) => PatternKind::Struct,
    }
}

/// The name of the flag-set type generated for a union named `name`.
pub open spec fn kind_name_of(name: Seq<char>) -> Seq<char> {
    name + "Kind"@
}

/// The flag constant for the variant at position `i`.
pub open spec fn flag_for(f: FlagConst, v: VariantDescriptor, i: int) -> bool {
    &&& f.name@ == v.name@
    &&& f.position == i
    &&& f.value == flag_bit(i as nat)
}

/// The mapping arm for the variant `v`.
pub open spec fn arm_for(a: MatchArm, v: VariantDescriptor) -> bool {
    &&& a.variant@ == v.name@
    &&& a.flag@ == v.name@
    &&& a.pattern == pattern_for(v.shape)
}

pub open spec fn marks(m: Marker, target: Seq<char>, c: Capability) -> bool {
    m.target@ == target && m.capability == c
}

/// `k` is the flag set compiled from the schema `s`.
pub open spec fn compiled_from(k: KindSet, s: UnionSchema) -> bool {
    let vs = s.variants@;
    &&& k.kind_name@ == kind_name_of(s.name@)
    &&& k.union_name@ == s.name@
    &&& spec_width_for(vs.len()) == Some(k.width)
    &&& k.flags.len() == vs.len()
    &&& forall|i: int| 0 <= i < vs.len() ==> flag_for(#[trigger] k.flags[i], vs[i], i)
    &&& k.arms.len() == vs.len()
    &&& forall|i: int| 0 <= i < vs.len() ==> arm_for(#[trigger] k.arms[i], vs[i])
    &&& k.markers.len() == 3
    &&& marks(k.markers[0], k.kind_name@, Capability::PacketKind)
    &&& marks(k.markers[1], s.name@, Capability::PacketSend)
    &&& marks(k.markers[2], s.name@, Capability::PacketRecv)
}

/// `i` is the first arm of `k` for the variant called `name`.
pub open spec fn first_arm(k: KindSet, name: Seq<char>, i: int) -> bool {
    &&& 0 <= i < k.arms.len()
    &&& k.arms[i].variant@ == name
    &&& forall|j: int| 0 <= j < i ==> (#[trigger] k.arms[j]).variant@ != name
}

/// `j` is the first constant of `k` called `name`.
pub open spec fn first_flag(k: KindSet, name: Seq<char>, j: int) -> bool {
    &&& 0 <= j < k.flags.len()
    &&& k.flags[j].name@ == name
    &&& forall|i: int| 0 <= i < j ==> (#[trigger] k.flags[i]).name@ != name
}

/// The mapping function of `k` sends a value of the variant `name` to `r`:
/// the constant named by the first arm for that variant, or nothing when no
/// arm (or no such constant) exists.
pub open spec fn maps_to(k: KindSet, name: Seq<char>, r: Option<u128>) -> bool {
    match r {
        Some(x) => exists|i: int, j: int|
            first_arm(k, name, i) && first_flag(k, k.arms[i].flag@, j) && x == k.flags[j].value,
        None => forall|i: int|
            first_arm(k, name, i) ==> forall|j: int|
                0 <= j < k.flags.len() ==> (#[trigger] k.flags[j]).name@ != k.arms[i].flag@,
    }
}

fn pattern_of(shape: &PayloadShape) -> (r: PatternKind)
    ensures
        r == pattern_for(*shape),
{
    match shape {
        PayloadShape::Unit => PatternKind::Unit,
        PayloadShape::Positional(_) => PatternKind::Tuple,
        PayloadShape::Named(_) => PatternKind::Struct,
    }
}

/// Compiles a union schema into its kind flag set.
///
/// A schema without variants yields nothing to generate; one with more than
/// 128 variants is rejected.
pub fn compile(s: &UnionSchema) -> (r: Result<Option<KindSet>, CompileError>)
    ensures
        r is Err <==> s.variants.len() > MAX_VARIANTS,
        r is Err ==> r == Err::<Option<KindSet>, CompileError>(CompileError::TooManyVariants),
        r == Ok::<Option<KindSet>, CompileError>(None) <==> s.variants.len() == 0,
        r matches Ok(Some(k)) ==> compiled_from(k, *s),
{
    let n = s.variants.len();
    if n == 0 {
        return Ok(None);
    }
    let width = match width_for(n) {
        Some(w) => w,
        None => return Err(CompileError::TooManyVariants),
    };
    let kind_name = s.name.clone().concat("Kind");
    let mut flags: Vec<FlagConst> = Vec::new();
    let mut arms: Vec<MatchArm> = Vec::new();
    let mut i: usize = 0;
    while i < n
        invariant
            n == s.variants.len(),
            n <= MAX_VARIANTS,
            i <= n,
            flags.len() == i,
            arms.len() == i,
            forall|k: int| 0 <= k < i ==> flag_for(#[trigger] flags[k], s.variants[k], k),
            forall|k: int| 0 <= k < i ==> arm_for(#[trigger] arms[k], s.variants[k]),
        decreases n - i,
    {
        let v = &s.variants[i];
        let position = i as u32;
        flags.push(FlagConst { name: v.name.clone(), position, value: flag_value(position) });
        arms.push(
            MatchArm { variant: v.name.clone(), pattern: pattern_of(&v.shape), flag: v.name.clone() },
        );
        i = i + 1;
    }
    let mut markers: Vec<Marker> = Vec::new();
    markers.push(Marker { target: kind_name.clone(), capability: Capability::PacketKind });
    markers.push(Marker { target: s.name.clone(), capability: Capability::PacketSend });
    markers.push(Marker { target: s.name.clone(), capability: Capability::PacketRecv });
    Ok(Some(KindSet { kind_name, union_name: s.name.clone(), width, flags, arms, markers }))
}

impl KindSet {
    /// Position of the first constant called `name`.
    fn flag_index(&self, name: &String) -> (r: Option<usize>)
        ensures
            match r {
                Some(j) => first_flag(*self, name@, j as int),
                None => forall|j: int|
                    0 <= j < self.flags.len() ==> (#[trigger] self.flags[j]).name@ != name@,
            },
    {
        let mut j: usize = 0;
        while j < self.flags.len()
            invariant
                j <= self.flags.len(),
                forall|k: int| 0 <= k < j ==> (#[trigger] self.flags[k]).name@ != name@,
            decreases self.flags.len() - j,
        {
            if self.flags[j].name == *name {
                return Some(j);
            }
            j = j + 1;
        }
        None
    }

    /// Applies the mapping function to a union value: the constant of the
    /// value's variant. The payload is never read.
    pub fn kind_of<P>(&self, value: &UnionValue<P>) -> (r: Option<u128>)
        ensures
            maps_to(*self, value.variant@, r),
    {
        let mut i: usize = 0;
        while i < self.arms.len()
            invariant
                i <= self.arms.len(),
                forall|j: int| 0 <= j < i ==> (#[trigger] self.arms[j]).variant@ != value.variant@,
            decreases self.arms.len() - i,
        {
            if self.arms[i].variant == value.variant {
                assert(first_arm(*self, value.variant@, i as int));
                return match self.flag_index(&self.arms[i].flag) {
                    Some(j) => Some(self.flags[j].value),
                    None => None,
                };
            }
            i = i + 1;
        }
        None
    }
}

} // verus!
