//! Structural descriptions of type definitions.
//!
//! An [`EnumDescriptor`] is the parsed shape of an enumeration: its name and
//! its ordered list of variants. A [`TypeDescriptor`] classifies an arbitrary
//! type definition, since only enumerations are accepted by the generator.

use vstd::prelude::*;

verus! {

/// The field shape of one variant: no fields, a number of positional fields,
/// or a list of named fields.
pub enum FieldShape {
    Unit,
    Unnamed(usize),
    Named(Vec<String>),
}

/// Mathematical model of a [`FieldShape`].
pub enum ShapeModel {
    Unit,
    Unnamed(nat),
    Named(Seq<Seq<char>>),
}

impl View for FieldShape {
    type V = ShapeModel;

    open spec fn view(&self) -> ShapeModel {
        match self {
            FieldShape::Unit => ShapeModel::Unit,
            FieldShape::Unnamed(n) => ShapeModel::Unnamed(*n as nat),
            FieldShape::Named(fields) => ShapeModel::Named(fields@.map_values(|f: String| f@)),
        }
    }
}

impl ShapeModel {
    /// How many fields a variant of this shape carries.
    pub open spec fn arity(self) -> nat {
        match self {
            ShapeModel::Unit => 0,
            ShapeModel::Unnamed(n) => n,
            ShapeModel::Named(fields) => fields.len(),
        }
    }
}

/// One variant of an enumeration: its identifier and its field shape. Its
/// ordinal is not stored here; it is the variant's position in the
/// enclosing [`EnumDescriptor`]'s list, in declaration order.
pub struct VariantDescriptor {
    pub name: String,
    pub shape: FieldShape,
}

/// Mathematical model of a [`VariantDescriptor`].
pub struct VariantModel {
    pub name: Seq<char>,
    pub shape: ShapeModel,
}

impl View for VariantDescriptor {
    type V = VariantModel;

    open spec fn view(&self) -> VariantModel {
        VariantModel { name: self.name@, shape: self.shape@ }
    }
}

/// The parsed definition of an enumeration: its name and its ordered list of
/// variants. Declaration order is part of the contract: the variant at index
/// `i` has ordinal `i`.
pub struct EnumDescriptor {
    pub name: String,
    pub variants: Vec<VariantDescriptor>,
}

/// Mathematical model of an [`EnumDescriptor`].
pub struct EnumModel {
    pub name: Seq<char>,
    pub variants: Seq<VariantModel>,
}

impl View for EnumDescriptor {
    type V = EnumModel;

    open spec fn view(&self) -> EnumModel {
        EnumModel {
            name: self.name@,
            variants: self.variants@.map_values(|v: VariantDescriptor| v@),
        }
    }
}

/// A type definition the annotation may be applied to. Only the enumeration
/// case carries a full description: the generator rejects the others, so
/// their contents are never inspected.
pub enum TypeDescriptor {
    Enum(EnumDescriptor),
    Struct,
    Union,
}

} // verus!
