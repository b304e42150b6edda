//! The variant table: the artifact derived for an enumeration.
//!
//! From an [`EnumDescriptor`] the generator derives a [`VariantTable`], which
//! carries everything the derived members need: the variant count, the
//! mappings between variants and their declaration-order ordinals,
//! reconstruction of a default-filled variant from an ordinal, and the table
//! of display names.

use vstd::prelude::*;
use crate::descriptor::{
    EnumDescriptor, EnumModel, FieldShape, ShapeModel, TypeDescriptor, VariantDescriptor,
};
use crate::names::{display_name, spaced_name};

verus! {

/// The default value given to every field of a reconstructed variant.
pub const DEFAULT_FIELD: u64 = 0;

/// A runtime value of a described enumeration, reduced to what the derived
/// conversions read: the variant's tag (its declaration-order ordinal) and
/// its field values. Each field value is modeled as one machine word whose
/// type's default value is [`DEFAULT_FIELD`]. The mappings to an ordinal
/// select on the tag only and ignore the field values.
pub struct VariantValue {
    pub tag: usize,
    pub fields: Vec<u64>,
}

/// Mathematical model of a [`VariantValue`].
#[verifier::ext_equal]
pub struct ValueModel {
    pub tag: nat,
    pub fields: Seq<u64>,
}

impl View for VariantValue {
    type V = ValueModel;

    open spec fn view(&self) -> ValueModel {
        ValueModel { tag: self.tag as nat, fields: self.fields@ }
    }
}

/// The field values of a freshly reconstructed variant of the given shape:
/// one default value per declared field.
pub open spec fn default_fields(shape: ShapeModel) -> Seq<u64> {
    Seq::new(shape.arity(), |j: int| DEFAULT_FIELD)
}

/// The variant value that "ordinal to variant" reconstructs for ordinal `i`:
/// the tag alone is taken from the ordinal; every field is set to the
/// default value.
pub open spec fn variant_from_ordinal(e: EnumModel, i: int) -> ValueModel
    recommends
        0 <= i < e.variants.len(),
{
    ValueModel { tag: i as nat, fields: default_fields(e.variants[i].shape) }
}

/// The ordinal of a variant value: its tag; field values play no part.
pub open spec fn ordinal_of(v: ValueModel) -> nat {
    v.tag
}

/// What "ordinal to variant" does for every ordinal: a reconstructed variant
/// for an ordinal in the declared range, and no variant value at all — an
/// unrecoverable abort — for any other ordinal.
pub open spec fn conversion_outcome(e: EnumModel, i: nat) -> Option<ValueModel> {
    if i < e.variants.len() {
        Some(variant_from_ordinal(e, i as int))
    } else {
        None
    }
}

impl VariantValue {
    /// "Variant to ordinal" at platform width: total and infallible,
    /// selecting on the variant's identity only.
    pub fn to_usize(&self) -> (n: usize)
        ensures
            n as nat == ordinal_of(self@),
    {
        self.tag
    }

    /// "Variant to ordinal" at 64-bit width: the same ordinal as the
    /// platform-width conversion reports.
    pub fn to_u64(&self) -> (n: u64)
        ensures
            n as nat == ordinal_of(self@),
    {
        self.tag as u64
    }
}

/// The derived artifact for one enumeration: its name, its variant count,
/// its variants in declaration order, and their display names.
pub struct VariantTable {
    enum_name: String,
    count: usize,
    variants: Vec<VariantDescriptor>,
    names: Vec<String>,
}

impl View for VariantTable {
    type V = EnumModel;

    closed spec fn view(&self) -> EnumModel {
        EnumModel {
            name: self.enum_name@,
            variants: self.variants@.map_values(|v: VariantDescriptor| v@),
        }
    }
}

impl VariantTable {
    /// The table is well formed: the stored count is the declared variant
    /// count, and the name table holds one entry per variant, each the
    /// naming policy applied to that variant's identifier.
    pub closed spec fn wf(&self) -> bool {
        &&& self.count == self.variants@.len()
        &&& self.names@.len() == self.variants@.len()
        &&& forall|i: int|
            0 <= i < self.names@.len() ==> self.names@[i]@ == spaced_name(
                self.variants@[i]@.name,
            )
    }

    /// Derives the table of an enumeration: the count is the declared
    /// variant count, and each variant's display name follows the naming
    /// policy.
    pub fn new(e: EnumDescriptor) -> (t: Self)
        ensures
            t@ == e@,
            t.wf(),
    {
        let count = e.variants.len();
        let mut names: Vec<String> = Vec::new();
        let mut i: usize = 0;
        while i < count
            invariant
                i <= count,
                count == e.variants@.len(),
                names@.len() == i,
                forall|j: int|
                    0 <= j < i ==> names@[j]@ == spaced_name(e.variants@[j]@.name),
            decreases count - i,
        {
            let d = display_name(e.variants[i].name.as_str());
            names.push(d);
            i = i + 1;
        }
        let t = VariantTable { enum_name: e.name, count, variants: e.variants, names };
        proof {
            assert(t@ =~= e@);
        }
        t
    }

    /// The count accessor: the variant count declared in source.
    pub fn len(&self) -> (n: usize)
        requires
            self.wf(),
        ensures
            n == self@.variants.len(),
    {
        self.count
    }

    /// "Ordinal to variant": reconstructs the variant whose ordinal is
    /// `value`, with every field set to the default value; only the tag is
    /// recovered, no field data. An ordinal outside the declared range is a
    /// caller contract violation (the derived conversion aborts on it), so
    /// it is excluded here.
    pub fn from_usize(&self, value: usize) -> (v: VariantValue)
        requires
            value < self@.variants.len(),
        ensures
            v@ == variant_from_ordinal(self@, value as int),
            conversion_outcome(self@, value as nat) == Some(v@),
    {
        let arity: usize = match &self.variants[value].shape {
            FieldShape::Unit => 0,
            FieldShape::Unnamed(n) => *n,
            FieldShape::Named(fs) => fs.len(),
        };
        assert(arity == self@.variants[value as int].shape.arity());
        let mut fields: Vec<u64> = Vec::new();
        let mut j: usize = 0;
        while j < arity
            invariant
                j <= arity,
                fields@.len() == j,
                forall|k: int| 0 <= k < j ==> fields@[k] == DEFAULT_FIELD,
            decreases arity - j,
        {
            fields.push(DEFAULT_FIELD);
            j = j + 1;
        }
        let v = VariantValue { tag: value, fields };
        proof {
            assert(v@.fields =~= default_fields(self@.variants[value as int].shape));
            assert(v@ =~= variant_from_ordinal(self@, value as int));
        }
        v
    }

    /// "List all variants": every variant of the enumeration, in declaration
    /// order, each reconstructed with default field values. The sequence has
    /// exactly as many elements as the enumeration declares variants.
    pub fn all(&self) -> (r: Vec<VariantValue>)
        requires
            self.wf(),
        ensures
            r@.len() == self@.variants.len(),
            forall|i: int| 0 <= i < r@.len() ==> r@[i]@ == variant_from_ordinal(self@, i),
    {
        let count = self.len();
        let mut r: Vec<VariantValue> = Vec::new();
        let mut i: usize = 0;
        while i < count
            invariant
                i <= count,
                count == self@.variants.len(),
                r@.len() == i,
                forall|j: int| 0 <= j < i ==> r@[j]@ == variant_from_ordinal(self@, j),
            decreases count - i,
        {
            r.push(self.from_usize(i));
            i = i + 1;
        }
        r
    }

    /// The name table: one display name per variant, in declaration order,
    /// each the naming policy applied to the variant's identifier.
    pub fn as_str_array(&self) -> (r: &Vec<String>)
        requires
            self.wf(),
        ensures
            r@.len() == self@.variants.len(),
            forall|i: int|
                0 <= i < r@.len() ==> r@[i]@ == spaced_name(self@.variants[i].name),
    {
        &self.names
    }

    /// The display name of one variant value, selected by its tag through
    /// the ordinal conversion.
    pub fn as_str(&self, v: &VariantValue) -> (r: &str)
        requires
            self.wf(),
            v@.tag < self@.variants.len(),
        ensures
            r@ == spaced_name(self@.variants[v@.tag as int].name),
    {
        let id: usize = v.to_usize();
        self.names[id].as_str()
    }

    /// The enumeration's name.
    pub fn name(&self) -> (r: &str)
        ensures
            r@ == self@.name,
    {
        self.enum_name.as_str()
    }

    /// The descriptor of the variant at the given ordinal.
    pub fn variant(&self, i: usize) -> (r: &VariantDescriptor)
        requires
            i < self@.variants.len(),
        ensures
            r@ == self@.variants[i as int],
    {
        &self.variants[i]
    }
}

/// The one compile-time failure kind: the annotation was applied to a type
/// definition that is not an enumeration.
#[derive(Debug)]
pub enum DeriveError {
    UnsupportedTarget,
}

impl DeriveError {
    /// The fixed diagnostic text attached to the offending declaration.
    pub fn message(&self) -> (r: &'static str)
        ensures
            r@ == "derivation can only be used with enums"@,
    {
        "derivation can only be used with enums"
    }
}

/// The generator's entry point: validates that the described type definition
/// is an enumeration and derives its variant table; any other kind of type
/// definition is rejected with the fixed diagnostic, and nothing is
/// generated.
pub fn super_enum(input: TypeDescriptor) -> (r: Result<VariantTable, DeriveError>)
    ensures
        match input {
            TypeDescriptor::Enum(e) => r is Ok && r->Ok_0@ == e@ && r->Ok_0.wf(),
            _ => r is Err && r->Err_0 is UnsupportedTarget,
        },
{
    match input {
        TypeDescriptor::Enum(e) => Ok(VariantTable::new(e)),
        _ => Err(DeriveError::UnsupportedTarget),
    }
}

/// Round trip on the tag: reconstructing the variant at ordinal `i` and
/// mapping it back to an ordinal yields `i` again, for every ordinal in the
/// declared range. Only the tag round-trips; field data is defaulted on
/// reconstruction and ignored by the mapping back.
pub proof fn lemma_ordinal_round_trip(e: EnumModel, i: int)
    requires
        0 <= i < e.variants.len(),
    ensures
        ordinal_of(variant_from_ordinal(e, i)) == i,
{
}

/// "Variant to ordinal" selects on the variant's identity only: two values
/// with the same tag map to the same ordinal, whatever their field values.
pub proof fn lemma_ordinal_ignores_fields(v1: ValueModel, v2: ValueModel)
    requires
        v1.tag == v2.tag,
    ensures
        ordinal_of(v1) == ordinal_of(v2),
{
}

/// For every ordinal outside the declared range, "ordinal to variant" yields
/// no variant value: its outcome is the unrecoverable abort that the
/// catch-all arm of the rendered conversion performs.
pub proof fn lemma_out_of_range_aborts(e: EnumModel, i: nat)
    requires
        i >= e.variants.len(),
    ensures
        conversion_outcome(e, i) is None,
{
}

} // verus!
