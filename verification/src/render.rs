use vstd::prelude::*;

use crate::model::VariantDescriptor;
use crate::model::VariantShape;

verus! {

/// The text that the generated match arm writes for a value of a variant
/// with the given shape and resolved label, whose payload (when there is
/// one) renders as `payload`.
///
/// This is the semantic model of the per-shape emission table: a
/// no-payload variant renders its label verbatim, an empty-payload
/// variant renders its label followed by `()`, and a single-payload
/// variant delegates entirely to its payload's own rendering — the label
/// plays no part.
pub open spec fn rendered(shape: VariantShape, label: Seq<char>, payload: Seq<char>) -> Seq<char> {
    match shape {
        VariantShape::NoPayload => label,
        VariantShape::EmptyPayload => label + "()"@,
        VariantShape::SinglePayload => payload,
    }
}

/// Render one value of a classified variant, given the text that its
/// payload renders as (`payload` is ignored unless the shape is
/// `SinglePayload`, exactly as the generated code ignores the label for
/// that shape).
pub fn format_variant(d: &VariantDescriptor, payload: &str) -> (r: String)
    ensures
        r@ == rendered(d.shape, d.label@, payload@),
{
    match d.shape {
        VariantShape::NoPayload => d.label.clone(),
        VariantShape::EmptyPayload => {
            let mut out = d.label.clone();
            out.append("()");
            out
        },
        VariantShape::SinglePayload => String::from_str(payload),
    }
}

} // verus!
