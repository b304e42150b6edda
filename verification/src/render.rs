//! Textual rendering of the derived declarations.
//!
//! The derived artifact is a block of declarations attached to the annotated
//! enumeration: the `all`, `as_str_array`, `as_str` and `len` members and the
//! numeric conversion implementations. This module renders that block as
//! source text, pinned character for character by the spec functions below.

use vstd::prelude::*;
use crate::descriptor::{EnumModel, FieldShape, ShapeModel, VariantDescriptor, VariantModel};
use crate::names::{push_char, spaced_name};
use crate::table::VariantTable;

verus! {

/// The digit character of one decimal digit.
pub open spec fn digit_char(d: nat) -> char {
    if d == 0 {
        '0'
    } else if d == 1 {
        '1'
    } else if d == 2 {
        '2'
    } else if d == 3 {
        '3'
    } else if d == 4 {
        '4'
    } else if d == 5 {
        '5'
    } else if d == 6 {
        '6'
    } else if d == 7 {
        '7'
    } else if d == 8 {
        '8'
    } else {
        '9'
    }
}

/// The decimal rendering of a number, most significant digit first, with no
/// leading zeros (zero itself renders as one digit).
pub open spec fn dec_of(n: nat) -> Seq<char>
    decreases n,
{
    if n < 10 {
        seq![digit_char(n)]
    } else {
        dec_of(n / 10) + seq![digit_char(n % 10)]
    }
}

fn digit(d: usize) -> (c: char)
    requires
        d < 10,
    ensures
        c == digit_char(d as nat),
{
    match d {
        0 => '0',
        1 => '1',
        2 => '2',
        3 => '3',
        4 => '4',
        5 => '5',
        6 => '6',
        7 => '7',
        8 => '8',
        _ => '9',
    }
}

/// Renders a number in decimal.
pub fn dec_string(n: usize) -> (r: String)
    ensures
        r@ == dec_of(n as nat),
    decreases n,
{
    if n < 10 {
        let mut r = String::new();
        push_char(&mut r, digit(n));
        proof {
            assert(r@ =~= dec_of(n as nat));
        }
        r
    } else {
        let mut r = dec_string(n / 10);
        push_char(&mut r, digit(n % 10));
        proof {
            assert(r@ =~= dec_of(n as nat));
        }
        r
    }
}

/// The given text enclosed in double quotes. Names derived from identifiers
/// never hold a quote or a backslash, so nothing is escaped.
pub open spec fn quoted(s: Seq<char>) -> Seq<char> {
    seq!['"'] + s + seq!['"']
}

/// A comma-separated list of string literals, one per name.
pub open spec fn name_list(names: Seq<Seq<char>>) -> Seq<char>
    decreases names.len(),
{
    if names.len() == 0 {
        Seq::empty()
    } else if names.len() == 1 {
        quoted(names[0])
    } else {
        name_list(names.drop_last()) + ", "@ + quoted(names.last())
    }
}

/// A comma-separated list of `k` default values, for a positional variant.
pub open spec fn default_args(k: nat) -> Seq<char>
    decreases k,
{
    if k == 0 {
        Seq::empty()
    } else if k == 1 {
        "Default::default()"@
    } else {
        default_args((k - 1) as nat) + ", "@ + "Default::default()"@
    }
}

/// A comma-separated list of field initializers, each field set to its
/// type's default value, for a named-field variant.
pub open spec fn named_defaults(fields: Seq<Seq<char>>) -> Seq<char>
    decreases fields.len(),
{
    if fields.len() == 0 {
        Seq::empty()
    } else if fields.len() == 1 {
        fields[0] + ": Default::default()"@
    } else {
        named_defaults(fields.drop_last()) + ", "@ + fields.last() + ": Default::default()"@
    }
}

fn quoted_string(s: &str) -> (r: String)
    ensures
        r@ == quoted(s@),
{
    let mut r = String::new();
    push_char(&mut r, '"');
    r.append(s);
    push_char(&mut r, '"');
    proof {
        assert(r@ =~= quoted(s@));
    }
    r
}

fn name_list_string(names: &Vec<String>) -> (r: String)
    ensures
        r@ == name_list(names@.map_values(|s: String| s@)),
{
    let ghost ms = names@.map_values(|s: String| s@);
    let mut r = String::new();
    let mut i: usize = 0;
    while i < names.len()
        invariant
            i <= names.len(),
            ms == names@.map_values(|s: String| s@),
            r@ == name_list(ms.subrange(0, i as int)),
        decreases names.len() - i,
    {
        if i > 0 {
            r.append(", ");
        }
        let q = quoted_string(names[i].as_str());
        r.append(q.as_str());
        proof {
            assert(ms.subrange(0, i as int + 1).drop_last() =~= ms.subrange(0, i as int));
            assert(ms.subrange(0, i as int + 1).last() == names@[i as int]@);
            assert(r@ =~= name_list(ms.subrange(0, i as int + 1)));
        }
        i = i + 1;
    }
    proof {
        assert(ms.subrange(0, names@.len() as int) =~= ms);
    }
    r
}

fn default_args_string(k: usize) -> (r: String)
    ensures
        r@ == default_args(k as nat),
{
    let mut r = String::new();
    let mut i: usize = 0;
    while i < k
        invariant
            i <= k,
            r@ == default_args(i as nat),
        decreases k - i,
    {
        if i > 0 {
            r.append(", ");
        }
        r.append("Default::default()");
        proof {
            assert(r@ =~= default_args(i as nat + 1));
        }
        i = i + 1;
    }
    r
}

fn named_defaults_string(fields: &Vec<String>) -> (r: String)
    ensures
        r@ == named_defaults(fields@.map_values(|f: String| f@)),
{
    let ghost ms = fields@.map_values(|f: String| f@);
    let mut r = String::new();
    let mut i: usize = 0;
    while i < fields.len()
        invariant
            i <= fields.len(),
            ms == fields@.map_values(|f: String| f@),
            r@ == named_defaults(ms.subrange(0, i as int)),
        decreases fields.len() - i,
    {
        if i > 0 {
            r.append(", ");
        }
        r.append(fields[i].as_str());
        r.append(": Default::default()");
        proof {
            assert(ms.subrange(0, i as int + 1).drop_last() =~= ms.subrange(0, i as int));
            assert(ms.subrange(0, i as int + 1).last() == fields@[i as int]@);
            assert(r@ =~= named_defaults(ms.subrange(0, i as int + 1)));
        }
        i = i + 1;
    }
    proof {
        assert(ms.subrange(0, fields@.len() as int) =~= ms);
    }
    r
}

/// What follows the variant's path when it is reconstructed: nothing for a
/// unit variant, defaulted positional arguments, or defaulted named fields.
pub open spec fn arm_payload(shape: ShapeModel) -> Seq<char> {
    match shape {
        ShapeModel::Unit => Seq::empty(),
        ShapeModel::Unnamed(k) => "("@ + default_args(k) + ")"@,
        ShapeModel::Named(fs) => " { "@ + named_defaults(fs) + " }"@,
    }
}

/// One arm of the "ordinal to variant" match: ordinal `i` selects the
/// variant, reconstructed with every field set to its default value.
pub open spec fn from_arm(ename: Seq<char>, v: VariantModel, i: nat) -> Seq<char> {
    "            "@ + dec_of(i) + " => "@ + ename + "::"@ + v.name + arm_payload(v.shape)
        + ",\n"@
}

/// The arms of the "ordinal to variant" match, one per variant, in
/// declaration order.
pub open spec fn from_arms(ename: Seq<char>, vs: Seq<VariantModel>) -> Seq<char>
    decreases vs.len(),
{
    if vs.len() == 0 {
        Seq::empty()
    } else {
        from_arms(ename, vs.drop_last()) + from_arm(ename, vs.last(), (vs.len() - 1) as nat)
    }
}

/// The pattern that matches a variant whatever its field values hold:
/// nothing for a unit variant, `(..)` for positional fields, `{ .. }` for
/// named fields.
pub open spec fn pattern_payload(shape: ShapeModel) -> Seq<char> {
    match shape {
        ShapeModel::Unit => Seq::empty(),
        ShapeModel::Unnamed(_) => "(..)"@,
        ShapeModel::Named(_) => " { .. }"@,
    }
}

/// One arm of a "variant to ordinal" match: the variant's identity alone
/// selects its ordinal `i`; field values are ignored by the pattern. The
/// suffix carries a width cast where the conversion is not at platform
/// width.
pub open spec fn to_arm(ename: Seq<char>, v: VariantModel, i: nat, suffix: Seq<char>) -> Seq<
    char,
> {
    "            "@ + ename + "::"@ + v.name + pattern_payload(v.shape) + " => "@ + dec_of(i)
        + suffix + ",\n"@
}

/// The arms of a "variant to ordinal" match, one per variant, in declaration
/// order.
pub open spec fn to_arms(ename: Seq<char>, vs: Seq<VariantModel>, suffix: Seq<char>) -> Seq<char>
    decreases vs.len(),
{
    if vs.len() == 0 {
        Seq::empty()
    } else {
        to_arms(ename, vs.drop_last(), suffix) + to_arm(
            ename,
            vs.last(),
            (vs.len() - 1) as nat,
            suffix,
        )
    }
}

fn pattern_payload_string(shape: &FieldShape) -> (r: String)
    ensures
        r@ == pattern_payload(shape@),
{
    match shape {
        FieldShape::Unit => {
            let r = String::new();
            proof {
                assert(r@ =~= pattern_payload(shape@));
            }
            r
        }
        FieldShape::Unnamed(_) => {
            let mut r = String::new();
            r.append("(..)");
            proof {
                assert(r@ =~= pattern_payload(shape@));
            }
            r
        }
        FieldShape::Named(_) => {
            let mut r = String::new();
            r.append(" { .. }");
            proof {
                assert(r@ =~= pattern_payload(shape@));
            }
            r
        }
    }
}

fn to_arm_string(ename: &str, v: &VariantDescriptor, i: usize, suffix: &str) -> (r: String)
    ensures
        r@ == to_arm(ename@, v@, i as nat, suffix@),
{
    let mut r = String::new();
    r.append("            ");
    r.append(ename);
    r.append("::");
    r.append(v.name.as_str());
    let p = pattern_payload_string(&v.shape);
    r.append(p.as_str());
    r.append(" => ");
    let d = dec_string(i);
    r.append(d.as_str());
    r.append(suffix);
    r.append(",\n");
    proof {
        assert(r@ =~= to_arm(ename@, v@, i as nat, suffix@));
    }
    r
}

fn to_arms_string(t: &VariantTable, suffix: &str) -> (r: String)
    requires
        t.wf(),
    ensures
        r@ == to_arms(t@.name, t@.variants, suffix@),
{
    let count = t.len();
    let ename = t.name();
    let mut r = String::new();
    let mut i: usize = 0;
    while i < count
        invariant
            i <= count,
            t.wf(),
            count == t@.variants.len(),
            ename@ == t@.name,
            r@ == to_arms(t@.name, t@.variants.subrange(0, i as int), suffix@),
        decreases count - i,
    {
        let v = t.variant(i);
        let a = to_arm_string(ename, v, i, suffix);
        r.append(a.as_str());
        proof {
            let vs = t@.variants;
            assert(vs.subrange(0, i as int + 1).drop_last() =~= vs.subrange(0, i as int));
            assert(vs.subrange(0, i as int + 1).last() == vs[i as int]);
            assert(r@ =~= to_arms(t@.name, vs.subrange(0, i as int + 1), suffix@));
        }
        i = i + 1;
    }
    proof {
        assert(t@.variants.subrange(0, t@.variants.len() as int) =~= t@.variants);
    }
    r
}

fn arm_payload_string(shape: &FieldShape) -> (r: String)
    ensures
        r@ == arm_payload(shape@),
{
    match shape {
        FieldShape::Unit => {
            let r = String::new();
            proof {
                assert(r@ =~= arm_payload(shape@));
            }
            r
        }
        FieldShape::Unnamed(k) => {
            let mut r = String::new();
            r.append("(");
            let d = default_args_string(*k);
            r.append(d.as_str());
            r.append(")");
            proof {
                assert(r@ =~= arm_payload(shape@));
            }
            r
        }
        FieldShape::Named(fs) => {
            let mut r = String::new();
            r.append(" { ");
            let d = named_defaults_string(fs);
            r.append(d.as_str());
            r.append(" }");
            proof {
                assert(r@ =~= arm_payload(shape@));
            }
            r
        }
    }
}

fn from_arm_string(ename: &str, v: &VariantDescriptor, i: usize) -> (r: String)
    ensures
        r@ == from_arm(ename@, v@, i as nat),
{
    let mut r = String::new();
    r.append("            ");
    let d = dec_string(i);
    r.append(d.as_str());
    r.append(" => ");
    r.append(ename);
    r.append("::");
    r.append(v.name.as_str());
    let p = arm_payload_string(&v.shape);
    r.append(p.as_str());
    r.append(",\n");
    proof {
        assert(r@ =~= from_arm(ename@, v@, i as nat));
    }
    r
}

fn from_arms_string(t: &VariantTable) -> (r: String)
    requires
        t.wf(),
    ensures
        r@ == from_arms(t@.name, t@.variants),
{
    let count = t.len();
    let ename = t.name();
    let mut r = String::new();
    let mut i: usize = 0;
    while i < count
        invariant
            i <= count,
            t.wf(),
            count == t@.variants.len(),
            ename@ == t@.name,
            r@ == from_arms(t@.name, t@.variants.subrange(0, i as int)),
        decreases count - i,
    {
        let v = t.variant(i);
        let a = from_arm_string(ename, v, i);
        r.append(a.as_str());
        proof {
            let vs = t@.variants;
            assert(vs.subrange(0, i as int + 1).drop_last() =~= vs.subrange(0, i as int));
            assert(vs.subrange(0, i as int + 1).last() == vs[i as int]);
            assert(r@ =~= from_arms(t@.name, vs.subrange(0, i as int + 1)));
        }
        i = i + 1;
    }
    proof {
        assert(t@.variants.subrange(0, t@.variants.len() as int) =~= t@.variants);
    }
    r
}

/// The display names of the variants, in declaration order.
pub open spec fn display_names(vs: Seq<VariantModel>) -> Seq<Seq<char>> {
    vs.map_values(|v: VariantModel| spaced_name(v.name))
}

/// The `all` member: every variant, reconstructed from its ordinal, in
/// declaration order.
pub open spec fn all_method(ename: Seq<char>, n: nat) -> Seq<char> {
    "    pub fn all() -> Vec<"@ + ename + "> {\n        let mut all = Vec::with_capacity("@
        + dec_of(n) + ");\n        for i in 0.."@ + dec_of(n)
        + " {\n            all.push(Self::from(i))\n        }\n        all\n    }\n"@
}

/// The `as_str_array` member: the name table as a fixed-size array constant.
pub open spec fn as_str_array_method(n: nat, names: Seq<Seq<char>>) -> Seq<char> {
    "    pub const fn as_str_array() -> &'static [&'static str; "@ + dec_of(n)
        + "] {\n        const STRS: [&'static str; "@ + dec_of(n) + "] = ["@ + name_list(names)
        + "];\n        &STRS\n    }\n"@
}

/// The `as_str` member: the display name of a value, selected by its ordinal.
pub open spec fn as_str_method(ename: Seq<char>) -> Seq<char> {
    "    pub fn as_str(&self) -> &'static str {\n        let id: usize = (*self).into();\n        &"@
        + ename + "::as_str_array()[id]\n    }\n"@
}

/// The `len` member: the variant count as a compile-time constant.
pub open spec fn len_method(n: nat) -> Seq<char> {
    "    pub const fn len() -> usize {\n        "@ + dec_of(n) + "\n    }\n"@
}

/// The inherent members attached to the enumeration.
pub open spec fn inherent_impl(e: EnumModel) -> Seq<char> {
    "impl "@ + e.name + " {\n"@ + all_method(e.name, e.variants.len()) + "\n"@
        + as_str_array_method(e.variants.len(), display_names(e.variants)) + "\n"@
        + as_str_method(e.name) + "\n"@ + len_method(e.variants.len()) + "}\n"@
}

/// The "variant to ordinal" conversion at platform width: total and
/// infallible, one arm per variant, selecting on the variant's identity
/// only.
pub open spec fn into_usize_impl(e: EnumModel) -> Seq<char> {
    "impl Into<usize> for "@ + e.name
        + " {\n    fn into(self) -> usize {\n        match self {\n"@ + to_arms(
        e.name,
        e.variants,
        ""@,
    ) + "        }\n    }\n}\n"@
}

/// The "variant to ordinal" conversion at 64-bit width: the same arms as the
/// platform-width conversion, each ordinal cast to the wider type.
pub open spec fn into_u64_impl(e: EnumModel) -> Seq<char> {
    "impl Into<u64> for "@ + e.name + " {\n    fn into(self) -> u64 {\n        match self {\n"@
        + to_arms(e.name, e.variants, " as u64"@) + "        }\n    }\n}\n"@
}

/// The "ordinal to variant" conversion: one arm per variant; any ordinal
/// outside the declared range aborts.
pub open spec fn from_impl(e: EnumModel) -> Seq<char> {
    "impl From<usize> for "@ + e.name
        + " {\n    fn from(value: usize) -> Self {\n        match value {\n"@ + from_arms(
        e.name,
        e.variants,
    )
        + "            _ => panic!(\"Invalid enum variant index: {}\", value),\n        }\n    }\n}\n"@
}

/// The whole derived artifact: the block of declarations attached to the
/// enumeration.
pub open spec fn rendered(e: EnumModel) -> Seq<char> {
    inherent_impl(e) + "\n"@ + into_usize_impl(e) + "\n"@ + from_impl(e) + "\n"@
        + into_u64_impl(e)
}

fn all_method_string(ename: &str, n: usize) -> (r: String)
    ensures
        r@ == all_method(ename@, n as nat),
{
    let mut r = String::new();
    r.append("    pub fn all() -> Vec<");
    r.append(ename);
    r.append("> {\n        let mut all = Vec::with_capacity(");
    let d = dec_string(n);
    r.append(d.as_str());
    r.append(");\n        for i in 0..");
    r.append(d.as_str());
    r.append(" {\n            all.push(Self::from(i))\n        }\n        all\n    }\n");
    proof {
        assert(r@ =~= all_method(ename@, n as nat));
    }
    r
}

fn as_str_array_method_string(t: &VariantTable) -> (r: String)
    requires
        t.wf(),
    ensures
        r@ == as_str_array_method(t@.variants.len(), display_names(t@.variants)),
{
    let n = t.len();
    let names = t.as_str_array();
    let d = dec_string(n);
    let mut r = String::new();
    r.append("    pub const fn as_str_array() -> &'static [&'static str; ");
    r.append(d.as_str());
    r.append("] {\n        const STRS: [&'static str; ");
    r.append(d.as_str());
    r.append("] = [");
    let list = name_list_string(names);
    r.append(list.as_str());
    r.append("];\n        &STRS\n    }\n");
    proof {
        assert(names@.map_values(|s: String| s@) =~= display_names(t@.variants));
        assert(r@ =~= as_str_array_method(t@.variants.len(), display_names(t@.variants)));
    }
    r
}

fn as_str_method_string(ename: &str) -> (r: String)
    ensures
        r@ == as_str_method(ename@),
{
    let mut r = String::new();
    r.append("    pub fn as_str(&self) -> &'static str {\n        let id: usize = (*self).into();\n        &");
    r.append(ename);
    r.append("::as_str_array()[id]\n    }\n");
    proof {
        assert(r@ =~= as_str_method(ename@));
    }
    r
}

fn len_method_string(n: usize) -> (r: String)
    ensures
        r@ == len_method(n as nat),
{
    let mut r = String::new();
    r.append("    pub const fn len() -> usize {\n        ");
    let d = dec_string(n);
    r.append(d.as_str());
    r.append("\n    }\n");
    proof {
        assert(r@ =~= len_method(n as nat));
    }
    r
}

fn into_usize_string(t: &VariantTable) -> (r: String)
    requires
        t.wf(),
    ensures
        r@ == into_usize_impl(t@),
{
    let mut r = String::new();
    r.append("impl Into<usize> for ");
    r.append(t.name());
    r.append(" {\n    fn into(self) -> usize {\n        match self {\n");
    let arms = to_arms_string(t, "");
    r.append(arms.as_str());
    r.append("        }\n    }\n}\n");
    proof {
        assert(r@ =~= into_usize_impl(t@));
    }
    r
}

fn into_u64_string(t: &VariantTable) -> (r: String)
    requires
        t.wf(),
    ensures
        r@ == into_u64_impl(t@),
{
    let mut r = String::new();
    r.append("impl Into<u64> for ");
    r.append(t.name());
    r.append(" {\n    fn into(self) -> u64 {\n        match self {\n");
    let arms = to_arms_string(t, " as u64");
    r.append(arms.as_str());
    r.append("        }\n    }\n}\n");
    proof {
        assert(r@ =~= into_u64_impl(t@));
    }
    r
}

fn from_impl_string(t: &VariantTable) -> (r: String)
    requires
        t.wf(),
    ensures
        r@ == from_impl(t@),
{
    let mut r = String::new();
    r.append("impl From<usize> for ");
    r.append(t.name());
    r.append(" {\n    fn from(value: usize) -> Self {\n        match value {\n");
    let arms = from_arms_string(t);
    r.append(arms.as_str());
    r.append("            _ => panic!(\"Invalid enum variant index: {}\", value),\n        }\n    }\n}\n");
    proof {
        assert(r@ =~= from_impl(t@));
    }
    r
}

/// Renders the whole derived artifact for one enumeration: the inherent
/// members (`all`, `as_str_array`, `as_str`, `len`) and the three numeric
/// conversion implementations, as source text.
pub fn render_declarations(t: &VariantTable) -> (r: String)
    requires
        t.wf(),
    ensures
        r@ == rendered(t@),
{
    let n = t.len();
    let mut r = String::new();
    r.append("impl ");
    r.append(t.name());
    r.append(" {\n");
    let all_m = all_method_string(t.name(), n);
    r.append(all_m.as_str());
    r.append("\n");
    let array_m = as_str_array_method_string(t);
    r.append(array_m.as_str());
    r.append("\n");
    let str_m = as_str_method_string(t.name());
    r.append(str_m.as_str());
    r.append("\n");
    let len_m = len_method_string(n);
    r.append(len_m.as_str());
    r.append("}\n");
    proof {
        assert(r@ =~= inherent_impl(t@));
    }
    r.append("\n");
    let into_usize_m = into_usize_string(t);
    r.append(into_usize_m.as_str());
    r.append("\n");
    let from_m = from_impl_string(t);
    r.append(from_m.as_str());
    r.append("\n");
    let into_u64_m = into_u64_string(t);
    r.append(into_u64_m.as_str());
    proof {
        assert(r@ =~= rendered(t@));
    }
    r
}

} // verus!
