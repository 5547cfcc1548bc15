use vstd::prelude::*;

use crate::extract::find_override;
use crate::extract::label_of;
use crate::extract::lemma_variants_model_ok_iff;
use crate::extract::shape_of;
use crate::extract::strip_quotes;
use crate::extract::variant_model;
use crate::extract::variants_model;
use crate::generate;
use crate::model::Attribute;
use crate::model::Error;
use crate::model::FieldList;
use crate::model::TypeBody;
use crate::model::TypeDecl;
use crate::model::VariantInput;
use crate::model::VariantModel;
use crate::render::rendered;

verus! {

/// A no-payload variant with no override renders exactly its own name:
/// it classifies, its resolved label is its name, and the generated arm
/// writes that name with no decoration, whatever its payload text would
/// have been.
pub proof fn lemma_no_payload_renders_name(v: VariantInput, payload: Seq<char>)
    requires
        v.fields is Unit,
        find_override(v.attrs@) is None,
    ensures
        variant_model(v) is Ok,
        rendered(variant_model(v)->Ok_0.shape, variant_model(v)->Ok_0.label, payload) == v.name@,
{
}

/// An empty-payload variant with no override renders its own name
/// followed by `()`.
pub proof fn lemma_empty_payload_renders_name(v: VariantInput, payload: Seq<char>)
    requires
        v.fields == FieldList::Unnamed(0),
        find_override(v.attrs@) is None,
    ensures
        variant_model(v) is Ok,
        rendered(variant_model(v)->Ok_0.shape, variant_model(v)->Ok_0.label, payload) == v.name@
            + "()"@,
{
}

/// A single-payload variant delegates entirely: whatever its label
/// resolved to — the default or an override — the rendering is the
/// payload's own text.
pub proof fn lemma_single_payload_delegates(v: VariantInput, payload: Seq<char>)
    requires
        v.fields == FieldList::Unnamed(1),
        label_of(v) is Ok,
    ensures
        variant_model(v) is Ok,
        rendered(variant_model(v)->Ok_0.shape, variant_model(v)->Ok_0.label, payload) == payload,
{
}

/// With a well-formed override annotation carrying the literal token
/// `lit`, the resolved label is the stripped literal text: a no-payload
/// variant renders exactly that label, an empty-payload variant renders
/// it followed by `()`, and a single-payload variant still renders its
/// payload, ignoring the label entirely.
pub proof fn lemma_override_label(v: VariantInput, a: Attribute, lit: String, payload: Seq<char>)
    requires
        find_override(v.attrs@) == Some(a),
        a.literal == Some(lit),
        shape_of(v.fields) is Ok,
    ensures
        variant_model(v) is Ok,
        variant_model(v)->Ok_0.label == strip_quotes(lit@),
        v.fields is Unit ==> rendered(
            variant_model(v)->Ok_0.shape,
            variant_model(v)->Ok_0.label,
            payload,
        ) == strip_quotes(lit@),
        v.fields == FieldList::Unnamed(0) ==> rendered(
            variant_model(v)->Ok_0.shape,
            variant_model(v)->Ok_0.label,
            payload,
        ) == strip_quotes(lit@) + "()"@,
        v.fields == FieldList::Unnamed(1) ==> rendered(
            variant_model(v)->Ok_0.shape,
            variant_model(v)->Ok_0.label,
            payload,
        ) == payload,
{
}

/// Label resolution is a pure function of the variant alone: equal
/// inputs yield equal labels, so resolving a variant's label twice
/// yields the same text.
pub proof fn lemma_label_resolution_deterministic(v1: VariantInput, v2: VariantInput)
    requires
        v1 == v2,
    ensures
        label_of(v1) == label_of(v2),
{
}

/// A declaration that is not an enumeration is rejected with
/// `UnsupportedTypeKind`, and no output is produced.
pub proof fn lemma_rejects_non_enum(decl: TypeDecl)
    requires
        !(decl.body is Enum),
    ensures
        generate(decl) == Err::<Seq<char>, Error>(Error::UnsupportedTypeKind),
{
}

/// Generation succeeds exactly when the declaration is an enumeration,
/// every variant's shape is supported, and every override annotation
/// present is well-formed; success is owed on every such declaration, and
/// on no other.
pub proof fn lemma_generation_succeeds_iff(decl: TypeDecl)
    ensures
        generate(decl) is Ok <==> (decl.body is Enum && forall|k: int|
            0 <= k < decl.body->Enum_0@.len() ==> ((#[trigger] label_of(
                decl.body->Enum_0@[k],
            )) is Ok && shape_of(decl.body->Enum_0@[k].fields) is Ok)),
{
    if decl.body is Enum {
        let vs = decl.body->Enum_0@;
        lemma_variants_model_ok_iff(vs);
        if generate(decl) is Ok {
            assert forall|k: int|
                0 <= k < vs.len() implies ((#[trigger] label_of(vs[k])) is Ok && shape_of(
                vs[k].fields,
            ) is Ok) by {
                assert(variant_model(vs[k]) is Ok);
            }
        } else {
            if forall|k: int|
                0 <= k < vs.len() ==> ((#[trigger] label_of(vs[k])) is Ok && shape_of(
                    vs[k].fields,
                ) is Ok) {
                assert forall|k: int| 0 <= k < vs.len() implies (#[trigger] variant_model(
                    vs[k],
                )) is Ok by {
                    assert(label_of(vs[k]) is Ok && shape_of(vs[k].fields) is Ok);
                }
                assert(false);
            }
        }
    }
}

proof fn lemma_variants_bad_shape(vs: Seq<VariantInput>, i: int)
    requires
        0 <= i < vs.len(),
        shape_of(vs[i].fields) is Err,
        forall|k: int| 0 <= k < vs.len() ==> label_of(#[trigger] vs[k]) is Ok,
    ensures
        variants_model(vs) == Err::<Seq<VariantModel>, Error>(Error::UnsupportedVariantShape),
    decreases vs.len(),
{
    if variant_model(vs[0]) is Err {
        assert(label_of(vs[0]) is Ok);
        assert(variant_model(vs[0])->Err_0 == Error::UnsupportedVariantShape);
    } else {
        let rest = vs.drop_first();
        assert(forall|k: int| 0 <= k < rest.len() ==> rest[k] == vs[k + 1]);
        assert(i != 0);
        lemma_variants_bad_shape(rest, i - 1);
    }
}

/// A variant with named fields, or with an unnamed field list of two or
/// more, makes generation fail for the whole declaration with
/// `UnsupportedVariantShape`: no output is produced for any variant.
/// (Every variant's label is assumed to resolve; a malformed override
/// annotation would be reported in its place.)
pub proof fn lemma_rejects_bad_shape(decl: TypeDecl, i: int)
    requires
        decl.body is Enum,
        0 <= i < decl.body->Enum_0@.len(),
        shape_of(decl.body->Enum_0@[i].fields) is Err,
        forall|k: int|
            0 <= k < decl.body->Enum_0@.len() ==> label_of(#[trigger] decl.body->Enum_0@[k]) is Ok,
    ensures
        generate(decl) == Err::<Seq<char>, Error>(Error::UnsupportedVariantShape),
{
    lemma_variants_bad_shape(decl.body->Enum_0@, i);
}

} // verus!
