use vstd::prelude::*;
use vstd::string::*;

use crate::model::Attribute;
use crate::model::Error;
use crate::model::FieldList;
use crate::model::TypeBody;
use crate::model::TypeDecl;
use crate::model::VariantDescriptor;
use crate::model::VariantInput;
use crate::model::VariantModel;
use crate::model::VariantShape;
use crate::model::models_of;

verus! {

/// The number of leading double-quote characters of `s`.
pub open spec fn leading_quotes(s: Seq<char>) -> nat
    decreases s.len(),
{
    if s.len() == 0 || s[0] != '"' {
        0
    } else {
        1 + leading_quotes(s.drop_first())
    }
}

/// The number of trailing double-quote characters of `s`.
pub open spec fn trailing_quotes(s: Seq<char>) -> nat
    decreases s.len(),
{
    if s.len() == 0 || s.last() != '"' {
        0
    } else {
        1 + trailing_quotes(s.drop_last())
    }
}

/// The text of a literal token with every leading and every trailing
/// double-quote character removed; a text consisting of nothing but
/// quote characters strips to the empty text.
pub open spec fn strip_quotes(s: Seq<char>) -> Seq<char> {
    if leading_quotes(s) == s.len() {
        Seq::empty()
    } else {
        s.subrange(leading_quotes(s) as int, s.len() - trailing_quotes(s))
    }
}

proof fn lemma_leading_quotes_from_scan(s: Seq<char>, i: int)
    requires
        0 <= i <= s.len(),
        forall|k: int| 0 <= k < i ==> s[k] == '"',
        i == s.len() || s[i] != '"',
    ensures
        leading_quotes(s) == i,
    decreases i,
{
    if i > 0 {
        let rest = s.drop_first();
        assert(forall|k: int| 0 <= k < rest.len() ==> rest[k] == s[k + 1]);
        lemma_leading_quotes_from_scan(rest, i - 1);
    }
}

proof fn lemma_trailing_quotes_from_scan(s: Seq<char>, j: int)
    requires
        0 <= j <= s.len(),
        forall|k: int| j <= k < s.len() ==> s[k] == '"',
        j == 0 || s[j - 1] != '"',
    ensures
        trailing_quotes(s) == s.len() - j,
    decreases s.len() - j,
{
    if j < s.len() {
        let rest = s.drop_last();
        assert(forall|k: int| 0 <= k < rest.len() ==> rest[k] == s[k]);
        lemma_trailing_quotes_from_scan(rest, j);
    }
}

/// Strip the quote characters that surround a literal's token text, as
/// label-override resolution requires.
pub fn trim_quote_marks(s: &str) -> (r: String)
    ensures
        r@ == strip_quotes(s@),
{
    let n: usize = s.unicode_len();
    let mut i: usize = 0;
    while i < n && s.get_char(i) == '"'
        invariant
            n == s@.len(),
            0 <= i <= n,
            forall|k: int| 0 <= k < i ==> s@[k] == '"',
        decreases n - i,
    {
        i = i + 1;
    }
    let mut j: usize = n;
    while j > i && s.get_char(j - 1) == '"'
        invariant
            n == s@.len(),
            0 <= i <= j <= n,
            forall|k: int| j <= k < n ==> s@[k] == '"',
        decreases j,
    {
        j = j - 1;
    }
    proof {
        lemma_leading_quotes_from_scan(s@, i as int);
        if i < n {
            if j == i {
                assert(s@[i as int] == '"');
            }
            lemma_trailing_quotes_from_scan(s@, j as int);
        }
        assert(strip_quotes(s@) =~= s@.subrange(i as int, j as int));
    }
    String::from_str(s.substring_char(i, j))
}

/// The first annotation named `display` among a variant's annotations,
/// if any: the recognized label-override annotation.
pub open spec fn find_override(attrs: Seq<Attribute>) -> Option<Attribute>
    decreases attrs.len(),
{
    if attrs.len() == 0 {
        None
    } else if attrs[0].name@ == "display"@ {
        Some(attrs[0])
    } else {
        find_override(attrs.drop_first())
    }
}

/// The resolved display label of a variant: the stripped text of its
/// override annotation when one is present and well-formed, the
/// variant's own name when none is present, and an error when the
/// override's argument is not a single literal.
pub open spec fn label_of(v: VariantInput) -> Result<Seq<char>, Error> {
    match find_override(v.attrs@) {
        None => Ok(v.name@),
        Some(a) => match a.literal {
            Some(lit) => Ok(strip_quotes(lit@)),
            None => Err(Error::MalformedOverrideAnnotation),
        },
    }
}

fn find_display_attr(attrs: &Vec<Attribute>) -> (r: Option<usize>)
    ensures
        match r {
            Some(idx) => idx < attrs@.len() && find_override(attrs@) == Some(attrs@[idx as int]),
            None => find_override(attrs@) is None,
        },
{
    let display_name: String = String::from_str("display");
    let mut i: usize = 0;
    proof {
        assert(attrs@.skip(0) =~= attrs@);
    }
    while i < attrs.len()
        invariant
            0 <= i <= attrs@.len(),
            display_name@ == "display"@,
            find_override(attrs@) == find_override(attrs@.skip(i as int)),
        decreases attrs@.len() - i,
    {
        if attrs[i].name == display_name {
            proof {
                assert(attrs@.skip(i as int)[0] == attrs@[i as int]);
            }
            return Some(i);
        }
        proof {
            assert(attrs@.skip(i as int)[0] == attrs@[i as int]);
            assert(attrs@.skip(i as int).drop_first() =~= attrs@.skip(i as int + 1));
        }
        i = i + 1;
    }
    proof {
        assert(attrs@.skip(attrs@.len() as int) =~= Seq::<Attribute>::empty());
    }
    None
}

/// Resolve the display label of one variant.
///
/// The label is a pure function of the variant alone: resolving it twice
/// from the same input yields the same text.
pub fn resolve_label(v: &VariantInput) -> (r: Result<String, Error>)
    ensures
        r is Ok <==> label_of(*v) is Ok,
        r is Ok ==> r->Ok_0@ == label_of(*v)->Ok_0,
        r is Err ==> r->Err_0 == label_of(*v)->Err_0,
{
    match find_display_attr(&v.attrs) {
        None => Ok(v.name.clone()),
        Some(idx) => match &v.attrs[idx].literal {
            Some(lit) => Ok(trim_quote_marks(lit.as_str())),
            None => Err(Error::MalformedOverrideAnnotation),
        },
    }
}

/// The shape of a field list, or the rejection of that field list:
/// named fields and unnamed field lists of two or more are refused.
pub open spec fn shape_of(fields: FieldList) -> Result<VariantShape, Error> {
    match fields {
        FieldList::Unit => Ok(VariantShape::NoPayload),
        FieldList::Unnamed(n) => if n == 0 {
            Ok(VariantShape::EmptyPayload)
        } else if n == 1 {
            Ok(VariantShape::SinglePayload)
        } else {
            Err(Error::UnsupportedVariantShape)
        },
        FieldList::Named(_) => Err(Error::UnsupportedVariantShape),
    }
}

/// The classification of one variant: its descriptor model, or the first
/// error met while resolving its label and then its shape.
pub open spec fn variant_model(v: VariantInput) -> Result<VariantModel, Error> {
    match label_of(v) {
        Err(e) => Err(e),
        Ok(label) => match shape_of(v.fields) {
            Err(e) => Err(e),
            Ok(shape) => Ok(VariantModel { name: v.name@, shape: shape, label: label }),
        },
    }
}

/// The classification of a sequence of variants, in order: the sequence
/// of their descriptor models, or the error of the first variant that
/// fails.
pub open spec fn variants_model(vs: Seq<VariantInput>) -> Result<Seq<VariantModel>, Error>
    decreases vs.len(),
{
    if vs.len() == 0 {
        Ok(Seq::empty())
    } else {
        match variant_model(vs[0]) {
            Err(e) => Err(e),
            Ok(m) => match variants_model(vs.drop_first()) {
                Err(e) => Err(e),
                Ok(ms) => Ok(seq![m] + ms),
            },
        }
    }
}

/// The classification of a whole declaration: rejection unless it is an
/// enumeration, then the classification of its variants.
pub open spec fn classification_of(decl: TypeDecl) -> Result<Seq<VariantModel>, Error> {
    match decl.body {
        TypeBody::Enum(vs) => variants_model(vs@),
        _ => Err(Error::UnsupportedTypeKind),
    }
}

/// When every variant classifies, the whole sequence classifies to the
/// models of its variants, element by element.
pub proof fn lemma_variants_model_all_ok(vs: Seq<VariantInput>)
    requires
        forall|k: int| 0 <= k < vs.len() ==> (#[trigger] variant_model(vs[k])) is Ok,
    ensures
        variants_model(vs) is Ok,
        variants_model(vs)->Ok_0.len() == vs.len(),
        forall|k: int|
            0 <= k < vs.len() ==> variants_model(vs)->Ok_0[k] == (#[trigger] variant_model(
                vs[k],
            ))->Ok_0,
    decreases vs.len(),
{
    if vs.len() > 0 {
        let rest = vs.drop_first();
        assert(forall|k: int| 0 <= k < rest.len() ==> rest[k] == vs[k + 1]);
        lemma_variants_model_all_ok(rest);
        assert forall|k: int|
            0 <= k < vs.len() implies variants_model(vs)->Ok_0[k] == (#[trigger] variant_model(
            vs[k],
        ))->Ok_0 by {
            if k > 0 {
                assert(variants_model(rest)->Ok_0[k - 1] == variant_model(rest[k - 1])->Ok_0);
                assert(rest[k - 1] == vs[k]);
            }
        }
    }
}

/// A sequence of variants classifies exactly when every one of its
/// variants classifies.
pub proof fn lemma_variants_model_ok_iff(vs: Seq<VariantInput>)
    ensures
        variants_model(vs) is Ok <==> (forall|k: int|
            0 <= k < vs.len() ==> (#[trigger] variant_model(vs[k])) is Ok),
    decreases vs.len(),
{
    if vs.len() > 0 {
        let rest = vs.drop_first();
        assert(forall|k: int| 0 <= k < rest.len() ==> rest[k] == vs[k + 1]);
        lemma_variants_model_ok_iff(rest);
        if variants_model(vs) is Ok {
            assert forall|k: int| 0 <= k < vs.len() implies (#[trigger] variant_model(
                vs[k],
            )) is Ok by {
                if k > 0 {
                    assert(rest[k - 1] == vs[k]);
                    assert(variant_model(rest[k - 1]) is Ok);
                }
            }
        } else {
            if forall|k: int| 0 <= k < vs.len() ==> (#[trigger] variant_model(vs[k])) is Ok {
                assert(forall|k: int|
                    0 <= k < rest.len() ==> (#[trigger] variant_model(rest[k])) is Ok);
                assert(false);
            }
        }
    }
}

/// When the variants before `i` classify and the variant at `i` fails,
/// the whole sequence fails with that variant's error.
pub proof fn lemma_variants_model_first_err(vs: Seq<VariantInput>, i: int)
    requires
        0 <= i < vs.len(),
        forall|k: int| 0 <= k < i ==> (#[trigger] variant_model(vs[k])) is Ok,
        variant_model(vs[i]) is Err,
    ensures
        variants_model(vs) == Err::<Seq<VariantModel>, Error>(variant_model(vs[i])->Err_0),
    decreases i,
{
    if i > 0 {
        let rest = vs.drop_first();
        assert(forall|k: int| 0 <= k < rest.len() ==> rest[k] == vs[k + 1]);
        lemma_variants_model_first_err(rest, i - 1);
        assert(variant_model(vs[0]) is Ok);
    }
}

/// Classify one variant: resolve its label, then its shape.
pub fn classify_variant(v: &VariantInput) -> (r: Result<VariantDescriptor, Error>)
    ensures
        r is Ok <==> variant_model(*v) is Ok,
        r is Ok ==> r->Ok_0@ == variant_model(*v)->Ok_0,
        r is Err ==> r->Err_0 == variant_model(*v)->Err_0,
{
    let label = match resolve_label(v) {
        Ok(l) => l,
        Err(e) => {
            return Err(e);
        },
    };
    let shape = match v.fields {
        FieldList::Unit => VariantShape::NoPayload,
        FieldList::Unnamed(n) => {
            if n == 0 {
                VariantShape::EmptyPayload
            } else if n == 1 {
                VariantShape::SinglePayload
            } else {
                return Err(Error::UnsupportedVariantShape);
            }
        },
        FieldList::Named(_) => {
            return Err(Error::UnsupportedVariantShape);
        },
    };
    Ok(VariantDescriptor { name: v.name.clone(), shape: shape, label: label })
}

/// Classify a whole declaration: reject anything that is not an
/// enumeration, then classify every variant in order, stopping at the
/// first failure.
pub fn classify(decl: &TypeDecl) -> (r: Result<Vec<VariantDescriptor>, Error>)
    ensures
        r is Ok <==> classification_of(*decl) is Ok,
        r is Ok ==> models_of(r->Ok_0@) == classification_of(*decl)->Ok_0,
        r is Err ==> r->Err_0 == classification_of(*decl)->Err_0,
{
    let vs = match &decl.body {
        TypeBody::Enum(vs) => vs,
        _ => {
            return Err(Error::UnsupportedTypeKind);
        },
    };
    let mut descriptors: Vec<VariantDescriptor> = Vec::new();
    let mut i: usize = 0;
    while i < vs.len()
        invariant
            decl.body == TypeBody::Enum(*vs),
            0 <= i <= vs@.len(),
            descriptors@.len() == i,
            forall|k: int| 0 <= k < i ==> (#[trigger] variant_model(vs@[k])) is Ok,
            forall|k: int| 0 <= k < i ==> (#[trigger] descriptors@[k])@ == variant_model(vs@[k])->Ok_0,
        decreases vs@.len() - i,
    {
        match classify_variant(&vs[i]) {
            Ok(d) => {
                descriptors.push(d);
            },
            Err(e) => {
                proof {
                    lemma_variants_model_first_err(vs@, i as int);
                }
                return Err(e);
            },
        }
        i = i + 1;
    }
    proof {
        lemma_variants_model_all_ok(vs@);
        assert(models_of(descriptors@) =~= variants_model(vs@)->Ok_0);
    }
    Ok(descriptors)
}

} // verus!
