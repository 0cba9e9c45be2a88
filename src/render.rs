//! Rendering of an artifact as Rust source text for the code sink.
use vstd::prelude::*;
use crate::generate::Artifact;
use crate::kind::{Capability, FlagConst, KindSet, MatchArm, Marker, PatternKind};

verus! {

pub open spec fn digit_text(d: nat) -> Seq<char> {
    if d == 0 {
        "0"@
    } else if d == 1 {
        "1"@
    } else if d == 2 {
        "2"@
    } else if d == 3 {
        "3"@
    } else if d == 4 {
        "4"@
    } else if d == 5 {
        "5"@
    } else if d == 6 {
        "6"@
    } else if d == 7 {
        "7"@
    } else if d == 8 {
        "8"@
    } else {
        "9"@
    }
}

/// The decimal digits of `n`, most significant first.
pub open spec fn decimal(n: nat) -> Seq<char>
    decreases n,
{
    if n < 10 {
        digit_text(n)
    } else {
        decimal(n / 10) + digit_text(n % 10)
    }
}

pub open spec fn pattern_text(p: PatternKind) -> Seq<char> {
    match p {
        PatternKind::Unit => ""@,
        PatternKind::Tuple => "(..)"@,
        PatternKind::Struct => " { .. }"@,
    }
}

/// The declaration of one flag constant.
pub open spec fn flag_line(f: FlagConst) -> Seq<char> {
    "        const "@ + f.name@ + " = 1 << "@ + decimal(f.position as nat) + ";\n"@
}

pub open spec fn flag_lines(fs: Seq<FlagConst>) -> Seq<char>
    decreases fs.len(),
{
    if fs.len() == 0 {
        Seq::empty()
    } else {
        flag_lines(fs.drop_last()) + flag_line(fs.last())
    }
}

/// One arm of the mapping function's `match`.
pub open spec fn arm_line(union_name: Seq<char>, kind_name: Seq<char>, a: MatchArm) -> Seq<char> {
    "            "@ + union_name + "::"@ + a.variant@ + pattern_text(a.pattern) + " => "@ + kind_name
        + "::"@ + a.flag@ + ",\n"@
}

pub open spec fn arm_lines(union_name: Seq<char>, kind_name: Seq<char>, arms: Seq<MatchArm>) -> Seq<
    char,
>
    decreases arms.len(),
{
    if arms.len() == 0 {
        Seq::empty()
    } else {
        arm_lines(union_name, kind_name, arms.drop_last()) + arm_line(
            union_name,
            kind_name,
            arms.last(),
        )
    }
}

/// The flag-set type definition.
pub open spec fn flag_set_text(k: KindSet) -> Seq<char> {
    "::bitflags::bitflags! {\n    #[doc = \"Automatically generated bitflags for [`"@ + k.union_name@
        + "`].\"]\n    #[derive(Clone, Copy, Debug)]\n    pub struct "@ + k.kind_name@ + ": "@
        + k.width.spec_int_name() + " {\n"@ + flag_lines(k.flags@) + "    }\n}\n"@
}

/// The declaration of one capability marker; the introspection marker
/// carries the mapping function.
pub open spec fn marker_text(k: KindSet, m: Marker) -> Seq<char> {
    match m.capability {
        Capability::PacketKind => "impl AsPacketKind for "@ + m.target@ + " {}\n"@,
        Capability::PacketSend => "impl AsPacketSend for "@ + m.target@ + " {}\n"@,
        Capability::PacketRecv => "impl<'a> AsPacketRecv<'a, "@ + k.kind_name@ + "> for "@
            + m.target@ + " {\n    fn kind(&self) -> "@ + k.kind_name@
            + " {\n        match self {\n"@ + arm_lines(k.union_name@, k.kind_name@, k.arms@)
            + "        }\n    }\n}\n"@,
    }
}

pub open spec fn marker_lines(k: KindSet, ms: Seq<Marker>) -> Seq<char>
    decreases ms.len(),
{
    if ms.len() == 0 {
        Seq::empty()
    } else {
        marker_lines(k, ms.drop_last()) + marker_text(k, ms.last())
    }
}

/// The source text of an artifact.
pub open spec fn artifact_text(a: Artifact) -> Seq<char> {
    match a {
        Artifact::Empty => Seq::empty(),
        Artifact::Generated(k) => flag_set_text(k) + marker_lines(k, k.markers@),
        Artifact::Diagnostic(e) => "compile_error!(\""@ + e.spec_message() + "\");\n"@,
    }
}

fn digit(d: u32) -> (r: &'static str)
    requires
        d < 10,
    ensures
        r@ == digit_text(d as nat),
{
    if d == 0 {
        "0"
    } else if d == 1 {
        "1"
    } else if d == 2 {
        "2"
    } else if d == 3 {
        "3"
    } else if d == 4 {
        "4"
    } else if d == 5 {
        "5"
    } else if d == 6 {
        "6"
    } else if d == 7 {
        "7"
    } else if d == 8 {
        "8"
    } else {
        "9"
    }
}

/// Writes `n` in decimal.
pub fn decimal_text(n: u32) -> (r: String)
    ensures
        r@ == decimal(n as nat),
    decreases n,
{
    if n < 10 {
        String::from_str(digit(n))
    } else {
        let mut s = decimal_text(n / 10);
        s.append(digit(n % 10));
        s
    }
}

fn pattern_str(p: PatternKind) -> (r: &'static str)
    ensures
        r@ == pattern_text(p),
{
    match p {
        PatternKind::Unit => "",
        PatternKind::Tuple => "(..)",
        PatternKind::Struct => " { .. }",
    }
}

/// Writes the declarations of the flag constants, one line each.
pub fn render_flags(fs: &Vec<FlagConst>) -> (r: String)
    ensures
        r@ == flag_lines(fs@),
{
    let mut out = String::new();
    let mut i: usize = 0;
    while i < fs.len()
        invariant
            i <= fs.len(),
            out@ == flag_lines(fs@.subrange(0, i as int)),
        decreases fs.len() - i,
    {
        let ghost before = out@;
        let f = &fs[i];
        out.append("        const ");
        out.append(f.name.as_str());
        out.append(" = 1 << ");
        let pos = decimal_text(f.position);
        out.append(pos.as_str());
        out.append(";\n");
        proof {
            assert(fs@.subrange(0, i + 1).drop_last() =~= fs@.subrange(0, i as int));
            assert(out@ =~= before + flag_line(fs@[i as int]));
        }
        i = i + 1;
    }
    assert(fs@.subrange(0, fs.len() as int) =~= fs@);
    out
}

/// Writes the arms of the mapping function's `match`, one line each.
pub fn render_arms(union_name: &String, kind_name: &String, arms: &Vec<MatchArm>) -> (r: String)
    ensures
        r@ == arm_lines(union_name@, kind_name@, arms@),
{
    let mut out = String::new();
    let mut i: usize = 0;
    while i < arms.len()
        invariant
            i <= arms.len(),
            out@ == arm_lines(union_name@, kind_name@, arms@.subrange(0, i as int)),
        decreases arms.len() - i,
    {
        let ghost before = out@;
        let a = &arms[i];
        out.append("            ");
        out.append(union_name.as_str());
        out.append("::");
        out.append(a.variant.as_str());
        out.append(pattern_str(a.pattern));
        out.append(" => ");
        out.append(kind_name.as_str());
        out.append("::");
        out.append(a.flag.as_str());
        out.append(",\n");
        proof {
            assert(arms@.subrange(0, i + 1).drop_last() =~= arms@.subrange(0, i as int));
            assert(out@ =~= before + arm_line(union_name@, kind_name@, arms@[i as int]));
        }
        i = i + 1;
    }
    assert(arms@.subrange(0, arms.len() as int) =~= arms@);
    out
}

/// Writes the flag-set type definition.
pub fn render_flag_set(k: &KindSet) -> (r: String)
    ensures
        r@ == flag_set_text(*k),
{
    let mut out = String::new();
    out.append("::bitflags::bitflags! {\n    #[doc = \"Automatically generated bitflags for [`");
    out.append(k.union_name.as_str());
    out.append("`].\"]\n    #[derive(Clone, Copy, Debug)]\n    pub struct ");
    out.append(k.kind_name.as_str());
    out.append(": ");
    out.append(k.width.int_name());
    out.append(" {\n");
    let flags = render_flags(&k.flags);
    out.append(flags.as_str());
    out.append("    }\n}\n");
    assert(out@ =~= flag_set_text(*k));
    out
}

/// Writes one capability marker.
pub fn render_marker(k: &KindSet, m: &Marker) -> (r: String)
    ensures
        r@ == marker_text(*k, *m),
{
    let mut out = String::new();
    match m.capability {
        Capability::PacketKind => {
            out.append("impl AsPacketKind for ");
            out.append(m.target.as_str());
            out.append(" {}\n");
        },
        Capability::PacketSend => {
            out.append("impl AsPacketSend for ");
            out.append(m.target.as_str());
            out.append(" {}\n");
        },
        Capability::PacketRecv => {
            out.append("impl<'a> AsPacketRecv<'a, ");
            out.append(k.kind_name.as_str());
            out.append("> for ");
            out.append(m.target.as_str());
            out.append(" {\n    fn kind(&self) -> ");
            out.append(k.kind_name.as_str());
            out.append(" {\n        match self {\n");
            let arms = render_arms(&k.union_name, &k.kind_name, &k.arms);
            out.append(arms.as_str());
            out.append("        }\n    }\n}\n");
        },
    }
    assert(out@ =~= marker_text(*k, *m));
    out
}

/// Writes all capability markers of `k`, in order.
pub fn render_markers(k: &KindSet) -> (r: String)
    ensures
        r@ == marker_lines(*k, k.markers@),
{
    let mut out = String::new();
    let mut i: usize = 0;
    while i < k.markers.len()
        invariant
            i <= k.markers.len(),
            out@ == marker_lines(*k, k.markers@.subrange(0, i as int)),
        decreases k.markers.len() - i,
    {
        let m = render_marker(k, &k.markers[i]);
        out.append(m.as_str());
        proof {
            assert(k.markers@.subrange(0, i + 1).drop_last() =~= k.markers@.subrange(0, i as int));
        }
        i = i + 1;
    }
    assert(k.markers@.subrange(0, k.markers.len() as int) =~= k.markers@);
    out
}

/// Writes an artifact as Rust source text: the flag set and its markers, a
/// compile-time error for a diagnostic, nothing for an empty artifact.
pub fn render(a: &Artifact) -> (r: String)
    ensures
        r@ == artifact_text(*a),
{
    match a {
        Artifact::Empty => String::new(),
        Artifact::Generated(k) => {
            let set = render_flag_set(k);
            let markers = render_markers(k);
            set.concat(markers.as_str())
        },
        Artifact::Diagnostic(e) => {
            let mut out = String::new();
            out.append("compile_error!(\"");
            out.append(e.message());
            out.append("\");\n");
            assert(out@ =~= artifact_text(*a));
            out
        },
    }
}

} // verus!
