use packet_kind::generate::{into_packet, Artifact, GenerateError};
use packet_kind::kind::{compile, Capability, CompileError, KindSet, PatternKind, UnionValue};
use packet_kind::render::{decimal_text, render};
use packet_kind::schema::{
    read_schema, PayloadShape, RawField, RawFields, RawVariant, SchemaError, TypeBody,
    TypeDescription, UnionSchema, VariantDescriptor,
};
use packet_kind::width::{width_for, FlagWidth};

fn unit(name: &str) -> RawVariant {
    RawVariant { name: name.to_string(), fields: RawFields::Unit }
}

fn packet() -> TypeDescription {
    TypeDescription {
        name: "Packet".to_string(),
        body: TypeBody::Union(vec![
            unit("Ping"),
            unit("Pong"),
            RawVariant { name: "Data".to_string(), fields: RawFields::Unnamed(vec!["u8".to_string()]) },
            RawVariant {
                name: "Close".to_string(),
                fields: RawFields::Named(vec![RawField {
                    name: "reason".to_string(),
                    ty: "String".to_string(),
                }]),
            },
        ]),
    }
}

fn schema_of(n: usize) -> UnionSchema {
    let variants = (0..n)
        .map(|i| VariantDescriptor { name: format!("V{}", i), shape: PayloadShape::Unit })
        .collect();
    UnionSchema { name: "Big".to_string(), variants }
}

fn union_of(n: usize) -> TypeDescription {
    let raws = (0..n).map(|i| unit(&format!("V{}", i))).collect();
    TypeDescription { name: "Big".to_string(), body: TypeBody::Union(raws) }
}

fn generated(a: Artifact) -> KindSet {
    match a {
        Artifact::Generated(k) => k,
        other => panic!("expected a flag set, got {:?}", other),
    }
}

#[test]
fn packet_example_compiles_to_four_single_bits() {
    let k = generated(into_packet(&packet()));
    assert_eq!(k.kind_name, "PacketKind");
    assert_eq!(k.union_name, "Packet");
    assert_eq!(k.width, FlagWidth::U8);
    let names: Vec<&str> = k.flags.iter().map(|f| f.name.as_str()).collect();
    assert_eq!(names, vec!["Ping", "Pong", "Data", "Close"]);
    let values: Vec<u128> = k.flags.iter().map(|f| f.value).collect();
    assert_eq!(values, vec![1, 2, 4, 8]);
    let patterns: Vec<PatternKind> = k.arms.iter().map(|a| a.pattern).collect();
    assert_eq!(
        patterns,
        vec![PatternKind::Unit, PatternKind::Unit, PatternKind::Tuple, PatternKind::Struct]
    );
}

#[test]
fn packet_data_maps_to_its_bit_whatever_the_payload() {
    let k = generated(into_packet(&packet()));
    let five = UnionValue { variant: "Data".to_string(), payload: 5u8 };
    let other = UnionValue { variant: "Data".to_string(), payload: 200u8 };
    assert_eq!(k.kind_of(&five), Some(4));
    assert_eq!(k.kind_of(&other), Some(4));
    let close = UnionValue { variant: "Close".to_string(), payload: "bye".to_string() };
    assert_eq!(k.kind_of(&close), Some(8));
    let ping = UnionValue { variant: "Ping".to_string(), payload: () };
    assert_eq!(k.kind_of(&ping), Some(1));
}

#[test]
fn unknown_variant_maps_to_nothing() {
    let k = generated(into_packet(&packet()));
    let v = UnionValue { variant: "Missing".to_string(), payload: () };
    assert_eq!(k.kind_of(&v), None);
}

#[test]
fn every_variant_has_exactly_one_arm_and_flag() {
    let k = generated(into_packet(&union_of(20)));
    assert_eq!(k.arms.len(), 20);
    for i in 0..20 {
        let name = format!("V{}", i);
        assert_eq!(k.arms.iter().filter(|a| a.variant == name).count(), 1);
        assert_eq!(k.arms[i].flag, name);
        let v = UnionValue { variant: name, payload: i };
        assert_eq!(k.kind_of(&v), Some(1u128 << i));
    }
}

#[test]
fn flags_are_distinct_single_bits_for_every_size() {
    for n in 1..=128usize {
        let k = compile(&schema_of(n)).unwrap().unwrap();
        assert_eq!(k.flags.len(), n);
        for (i, f) in k.flags.iter().enumerate() {
            assert_eq!(f.value.count_ones(), 1);
            assert_eq!(f.value, 1u128 << i);
            assert_eq!(f.position as usize, i);
            for g in k.flags.iter().skip(i + 1) {
                assert_eq!(f.value & g.value, 0);
            }
        }
    }
}

#[test]
fn width_is_a_step_function_of_the_count() {
    assert_eq!(width_for(1), Some(FlagWidth::U8));
    assert_eq!(width_for(8), Some(FlagWidth::U8));
    assert_eq!(width_for(9), Some(FlagWidth::U16));
    assert_eq!(width_for(16), Some(FlagWidth::U16));
    assert_eq!(width_for(17), Some(FlagWidth::U32));
    assert_eq!(width_for(32), Some(FlagWidth::U32));
    assert_eq!(width_for(33), Some(FlagWidth::U64));
    assert_eq!(width_for(64), Some(FlagWidth::U64));
    assert_eq!(width_for(65), Some(FlagWidth::U128));
    assert_eq!(width_for(128), Some(FlagWidth::U128));
    assert_eq!(width_for(129), None);
    assert_eq!(FlagWidth::U16.bits(), 16);
    assert_eq!(FlagWidth::U64.int_name(), "u64");
}

#[test]
fn compiled_width_follows_the_count() {
    let cases = [(1, FlagWidth::U8), (9, FlagWidth::U16), (17, FlagWidth::U32), (33, FlagWidth::U64), (65, FlagWidth::U128)];
    for (n, w) in cases {
        assert_eq!(compile(&schema_of(n)).unwrap().unwrap().width, w);
    }
}

#[test]
fn empty_union_gives_nothing_to_generate() {
    assert!(matches!(compile(&schema_of(0)), Ok(None)));
    assert!(matches!(into_packet(&union_of(0)), Artifact::Empty));
    assert_eq!(render(&Artifact::Empty), "");
}

#[test]
fn compiling_twice_gives_the_same_layout() {
    let s = schema_of(40);
    let a = compile(&s).unwrap().unwrap();
    let b = compile(&s).unwrap().unwrap();
    assert_eq!(a.width, b.width);
    assert_eq!(a.flags.len(), b.flags.len());
    for (x, y) in a.flags.iter().zip(b.flags.iter()) {
        assert_eq!(x.name, y.name);
        assert_eq!(x.position, y.position);
        assert_eq!(x.value, y.value);
    }
    let ra = render(&Artifact::Generated(a));
    let rb = render(&Artifact::Generated(b));
    assert_eq!(ra, rb);
}

#[test]
fn record_yields_not_a_union_diagnostic() {
    let desc = TypeDescription { name: "Point".to_string(), body: TypeBody::Record };
    assert!(matches!(read_schema(&desc), Err(SchemaError::NotAUnion)));
    let a = into_packet(&desc);
    assert!(matches!(a, Artifact::Diagnostic(GenerateError::NotAUnion)));
    assert_eq!(render(&a), "compile_error!(\"Unsupported structure (enum's only)\");\n");
    let other = TypeDescription { name: "Raw".to_string(), body: TypeBody::Other };
    assert!(matches!(into_packet(&other), Artifact::Diagnostic(GenerateError::NotAUnion)));
}

#[test]
fn too_many_variants_yields_diagnostic() {
    assert!(matches!(compile(&schema_of(129)), Err(CompileError::TooManyVariants)));
    let a = into_packet(&union_of(129));
    assert!(matches!(a, Artifact::Diagnostic(GenerateError::TooManyVariants)));
    assert_eq!(render(&a), "compile_error!(\"Enum has too many variants.\");\n");
    assert_eq!(GenerateError::TooManyVariants.message(), "Enum has too many variants.");
}

#[test]
fn largest_union_uses_the_widest_type() {
    let k = generated(into_packet(&union_of(128)));
    assert_eq!(k.width, FlagWidth::U128);
    assert_eq!(k.flags.len(), 128);
    assert_eq!(k.flags[127].value, 1u128 << 127);
    assert_eq!(k.flags[127].name, "V127");
}

#[test]
fn reader_classifies_payload_shapes_in_order() {
    let desc = TypeDescription {
        name: "Msg".to_string(),
        body: TypeBody::Union(vec![
            RawVariant {
                name: "Pair".to_string(),
                fields: RawFields::Unnamed(vec!["u8".to_string(), "u16".to_string()]),
            },
            unit("Stop"),
            RawVariant {
                name: "Move".to_string(),
                fields: RawFields::Named(vec![
                    RawField { name: "x".to_string(), ty: "i32".to_string() },
                    RawField { name: "y".to_string(), ty: "i32".to_string() },
                ]),
            },
        ]),
    };
    let s = read_schema(&desc).unwrap();
    assert_eq!(s.name, "Msg");
    let names: Vec<&str> = s.variants.iter().map(|v| v.name.as_str()).collect();
    assert_eq!(names, vec!["Pair", "Stop", "Move"]);
    assert!(matches!(s.variants[0].shape, PayloadShape::Positional(2)));
    assert!(matches!(s.variants[1].shape, PayloadShape::Unit));
    match &s.variants[2].shape {
        PayloadShape::Named(fields) => assert_eq!(fields, &vec!["x".to_string(), "y".to_string()]),
        other => panic!("unexpected shape {:?}", other),
    }
}

#[test]
fn markers_tag_the_kind_and_the_union() {
    let k = generated(into_packet(&packet()));
    assert_eq!(k.markers.len(), 3);
    assert_eq!(k.markers[0].target, "PacketKind");
    assert_eq!(k.markers[0].capability, Capability::PacketKind);
    assert_eq!(k.markers[1].target, "Packet");
    assert_eq!(k.markers[1].capability, Capability::PacketSend);
    assert_eq!(k.markers[2].target, "Packet");
    assert_eq!(k.markers[2].capability, Capability::PacketRecv);
}

#[test]
fn decimal_text_writes_digits() {
    assert_eq!(decimal_text(0), "0");
    assert_eq!(decimal_text(7), "7");
    assert_eq!(decimal_text(10), "10");
    assert_eq!(decimal_text(127), "127");
    assert_eq!(decimal_text(4096), "4096");
}

#[test]
fn packet_example_renders_source() {
    let text = render(&into_packet(&packet()));
    let expected = "::bitflags::bitflags! {\n    #[doc = \"Automatically generated bitflags for [`Packet`].\"]\n    #[derive(Clone, Copy, Debug)]\n    pub struct PacketKind: u8 {\n        const Ping = 1 << 0;\n        const Pong = 1 << 1;\n        const Data = 1 << 2;\n        const Close = 1 << 3;\n    }\n}\nimpl AsPacketKind for PacketKind {}\nimpl AsPacketSend for Packet {}\nimpl<'a> AsPacketRecv<'a, PacketKind> for Packet {\n    fn kind(&self) -> PacketKind {\n        match self {\n            Packet::Ping => PacketKind::Ping,\n            Packet::Pong => PacketKind::Pong,\n            Packet::Data(..) => PacketKind::Data,\n            Packet::Close { .. } => PacketKind::Close,\n        }\n    }\n}\n";
    assert_eq!(text, expected);
}
