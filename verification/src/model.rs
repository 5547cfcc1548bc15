use vstd::prelude::*;

verus! {

/// The structural classification of a variant of the input enumeration:
/// no field list at all, an empty unnamed field list, or exactly one
/// unnamed field.
#[derive(Clone, Copy, PartialEq, Eq, Structural, Debug)]
pub enum VariantShape {
    NoPayload,
    EmptyPayload,
    SinglePayload,
}

/// The field list of a variant as the host compiler reports it, before
/// classification: a unit variant, an unnamed (tuple-style) field list of
/// the given length, or a named (record-style) field list of the given
/// length.
#[derive(Clone, Copy, PartialEq, Eq, Structural, Debug)]
pub enum FieldList {
    Unit,
    Unnamed(usize),
    Named(usize),
}

/// One annotation attached to a variant: the annotation's name, and the
/// token text of its argument when the argument list parses as a single
/// literal (`None` when it does not).
#[derive(Clone, Debug)]
pub struct Attribute {
    pub name: String,
    pub literal: Option<String>,
}

/// One variant of the input enumeration, as handed over by the host
/// compiler: its name, its field list, and its annotations in source
/// order.
#[derive(Clone, Debug)]
pub struct VariantInput {
    pub name: String,
    pub fields: FieldList,
    pub attrs: Vec<Attribute>,
}

/// The body of the declaration offered for generation: an enumeration
/// with its variants in declaration order, or one of the kinds of
/// declaration that the generator rejects.
#[derive(Clone, Debug)]
pub enum TypeBody {
    Enum(Vec<VariantInput>),
    Struct,
    Union,
}

/// A type declaration offered for generation: its name and its body.
#[derive(Clone, Debug)]
pub struct TypeDecl {
    pub name: String,
    pub body: TypeBody,
}

/// Why generation was refused.  Every failure is fatal for the whole
/// declaration: no partial output is ever produced.
#[derive(Clone, Copy, PartialEq, Eq, Structural, Debug)]
pub enum Error {
    /// The declaration is not an enumeration.
    UnsupportedTypeKind,
    /// A variant has named fields or two or more unnamed fields.
    UnsupportedVariantShape,
    /// A label-override annotation is present but its argument is not a
    /// single literal.
    MalformedOverrideAnnotation,
}

/// A classified variant, ready for emission: its name, its shape, and its
/// resolved display label.
#[derive(Clone, Debug)]
pub struct VariantDescriptor {
    pub name: String,
    pub shape: VariantShape,
    pub label: String,
}

/// The mathematical content of a descriptor: both names as character
/// sequences.
pub ghost struct VariantModel {
    pub name: Seq<char>,
    pub shape: VariantShape,
    pub label: Seq<char>,
}

impl View for VariantDescriptor {
    type V = VariantModel;

    open spec fn view(&self) -> VariantModel {
        VariantModel { name: self.name@, shape: self.shape, label: self.label@ }
    }
}

/// The models of a sequence of descriptors, element by element.
pub open spec fn models_of(ds: Seq<VariantDescriptor>) -> Seq<VariantModel> {
    ds.map_values(|d: VariantDescriptor| d@)
}

} // verus!
