//! A code generator for textual formatting of simple enumerations.
//!
//! Given the structural description of an enumerated type — its name and,
//! for each variant, the variant's name, field list and annotations — the
//! library classifies every variant by shape, resolves its display label
//! (the variant's own name, or a per-variant override annotation), and
//! emits the source text of a single formatting implementation with one
//! match arm per variant.
//!
//! Only three variant shapes are supported: no payload, an empty unnamed
//! field list, and exactly one unnamed field.  Anything else, and any
//! declaration that is not an enumeration, is rejected outright: the
//! generator either produces a complete implementation or fails with an
//! [`Error`] and produces nothing.

use vstd::prelude::*;

mod emit;
mod extract;
mod laws;
mod model;
mod render;

pub use emit::arm_text;
pub use emit::arms_text;
pub use emit::emit;
pub use emit::escaped;
pub use emit::escaped_char;
pub use emit::footer_text;
pub use emit::header_text;
pub use emit::impl_text;
pub use emit::lemma_escaped_plain;
pub use extract::classification_of;
pub use extract::classify;
pub use extract::classify_variant;
pub use extract::find_override;
pub use extract::label_of;
pub use extract::leading_quotes;
pub use extract::lemma_variants_model_ok_iff;
pub use extract::resolve_label;
pub use extract::shape_of;
pub use extract::strip_quotes;
pub use extract::trailing_quotes;
pub use extract::trim_quote_marks;
pub use extract::variant_model;
pub use extract::variants_model;
pub use laws::lemma_empty_payload_renders_name;
pub use laws::lemma_generation_succeeds_iff;
pub use laws::lemma_label_resolution_deterministic;
pub use laws::lemma_no_payload_renders_name;
pub use laws::lemma_override_label;
pub use laws::lemma_rejects_bad_shape;
pub use laws::lemma_rejects_non_enum;
pub use laws::lemma_single_payload_delegates;
pub use model::Attribute;
pub use model::Error;
pub use model::FieldList;
pub use model::TypeBody;
pub use model::TypeDecl;
pub use model::VariantDescriptor;
pub use model::VariantInput;
pub use model::VariantModel;
pub use model::VariantShape;
pub use model::models_of;
pub use render::format_variant;
pub use render::rendered;

verus! {

/// What generation yields for a declaration: the source text of the
/// formatting implementation when the declaration is an enumeration and
/// every variant classifies, and the first error otherwise.
pub open spec fn generate(decl: TypeDecl) -> Result<Seq<char>, Error> {
    match classification_of(decl) {
        Ok(ms) => Ok(impl_text(decl.name@, ms)),
        Err(e) => Err(e),
    }
}

/// Generate the formatting implementation for one type declaration:
/// classify every variant, then emit one match arm per variant, in
/// declaration order.  Either the whole implementation is produced, or
/// the declaration is rejected and nothing is produced.
pub fn display(decl: &TypeDecl) -> (r: Result<String, Error>)
    ensures
        r is Ok <==> generate(*decl) is Ok,
        r is Ok ==> r->Ok_0@ == generate(*decl)->Ok_0,
        r is Err ==> r->Err_0 == generate(*decl)->Err_0,
{
    match classify(decl) {
        Ok(descriptors) => Ok(emit::emit(decl.name.as_str(), &descriptors)),
        Err(e) => Err(e),
    }
}

} // verus!
