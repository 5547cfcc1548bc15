use vstd::prelude::*;
use vstd::string::*;

use crate::model::VariantDescriptor;
use crate::model::VariantModel;
use crate::model::VariantShape;
use crate::model::models_of;

verus! {

/// The opening of the generated implementation: the impl header, the
/// signature of the formatting method, and the opening of the match on
/// the scrutinized value.
pub open spec fn header_text(name: Seq<char>) -> Seq<char> {
    "impl Display for "@ + name
        + " {\n    fn fmt(&self, f: &mut ::std::fmt::Formatter) -> Result<(), ::std::fmt::Error> {\n        match *self {\n"@
}

/// The closing braces of the match, the method and the impl.
pub open spec fn footer_text() -> Seq<char> {
    "        }\n    }\n}\n"@
}

/// One character of a label as it is spliced between the quote
/// characters of a string literal in the generated source: backslash and
/// quote characters are escaped, every other character stands as itself,
/// so that the spliced literal denotes the label's own characters.
pub open spec fn escaped_char(c: char) -> Seq<char> {
    if c == '\\' {
        "\\\\"@
    } else if c == '"' {
        "\\\""@
    } else {
        seq![c]
    }
}

/// The escaped form of a whole label, character by character.
pub open spec fn escaped(s: Seq<char>) -> Seq<char>
    decreases s.len(),
{
    if s.len() == 0 {
        Seq::empty()
    } else {
        escaped(s.drop_last()) + escaped_char(s.last())
    }
}

/// A label holding neither backslash nor quote characters — every
/// default label, since those are variant names — is spliced verbatim:
/// escaping changes nothing.
pub proof fn lemma_escaped_plain(s: Seq<char>)
    requires
        forall|k: int| 0 <= k < s.len() ==> (#[trigger] s[k]) != '\\' && s[k] != '"',
    ensures
        escaped(s) == s,
    decreases s.len(),
{
    if s.len() > 0 {
        let rest = s.drop_last();
        assert(forall|k: int| 0 <= k < rest.len() ==> rest[k] == s[k]);
        lemma_escaped_plain(rest);
        assert(escaped(s) =~= s);
    }
}

fn escape_label(s: &str) -> (r: String)
    ensures
        r@ == escaped(s@),
{
    let n: usize = s.unicode_len();
    let mut out = String::new();
    let mut i: usize = 0;
    proof {
        assert(s@.take(0) =~= Seq::<char>::empty());
    }
    while i < n
        invariant
            n == s@.len(),
            0 <= i <= n,
            out@ == escaped(s@.take(i as int)),
        decreases n - i,
    {
        let c = s.get_char(i);
        if c == '\\' {
            out.append("\\\\");
        } else if c == '"' {
            out.append("\\\"");
        } else {
            out.append(s.substring_char(i, i + 1));
        }
        proof {
            assert(s@.take(i as int + 1).drop_last() =~= s@.take(i as int));
            assert(s@.take(i as int + 1).last() == s@[i as int]);
            assert(out@ =~= escaped(s@.take(i as int + 1)));
        }
        i = i + 1;
    }
    proof {
        assert(s@.take(n as int) =~= s@);
    }
    out
}

/// The text of one generated match arm, by the per-shape emission table:
/// a no-payload variant writes its label, an empty-payload variant
/// writes its label and then `()`, and a single-payload variant hands
/// its payload to that payload's own formatting implementation.  The
/// label is spliced in escaped form, so the written string literal
/// denotes the resolved label exactly.
pub open spec fn arm_text(name: Seq<char>, m: VariantModel) -> Seq<char> {
    match m.shape {
        VariantShape::NoPayload => "            "@ + name + "::"@ + m.name + " => f.write_str(\""@
            + escaped(m.label) + "\"),\n"@,
        VariantShape::EmptyPayload => "            "@ + name + "::"@ + m.name
            + "() => { f.write_str(\""@ + escaped(m.label) + "\")?; f.write_str(\"()\") }\n"@,
        VariantShape::SinglePayload => "            "@ + name + "::"@ + m.name
            + "(ref inner) => ::std::fmt::Display::fmt(inner, f),\n"@,
    }
}

/// The generated match arms for a sequence of descriptors, one per
/// descriptor, in the order of the sequence.
pub open spec fn arms_text(name: Seq<char>, ms: Seq<VariantModel>) -> Seq<char>
    decreases ms.len(),
{
    if ms.len() == 0 {
        Seq::empty()
    } else {
        arms_text(name, ms.drop_last()) + arm_text(name, ms.last())
    }
}

/// The whole generated implementation for a type of the given name and
/// classified variants.
pub open spec fn impl_text(name: Seq<char>, ms: Seq<VariantModel>) -> Seq<char> {
    header_text(name) + arms_text(name, ms) + footer_text()
}

fn emit_arm(out: &mut String, name: &str, d: &VariantDescriptor)
    ensures
        final(out)@ == old(out)@ + arm_text(name@, d@),
{
    out.append("            ");
    out.append(name);
    out.append("::");
    out.append(d.name.as_str());
    match d.shape {
        VariantShape::NoPayload => {
            out.append(" => f.write_str(\"");
            let esc = escape_label(d.label.as_str());
            out.append(esc.as_str());
            out.append("\"),\n");
        },
        VariantShape::EmptyPayload => {
            out.append("() => { f.write_str(\"");
            let esc = escape_label(d.label.as_str());
            out.append(esc.as_str());
            out.append("\")?; f.write_str(\"()\") }\n");
        },
        VariantShape::SinglePayload => {
            out.append("(ref inner) => ::std::fmt::Display::fmt(inner, f),\n");
        },
    }
    proof {
        assert(out@ =~= old(out)@ + arm_text(name@, d@));
    }
}

/// Emit the source text of the formatting implementation for a type of
/// the given name from its classified variants: one match arm per
/// descriptor, in the order given.
pub fn emit(name: &str, descriptors: &Vec<VariantDescriptor>) -> (r: String)
    ensures
        r@ == impl_text(name@, models_of(descriptors@)),
{
    let mut out = String::new();
    out.append("impl Display for ");
    out.append(name);
    out.append(
        " {\n    fn fmt(&self, f: &mut ::std::fmt::Formatter) -> Result<(), ::std::fmt::Error> {\n        match *self {\n",
    );
    proof {
        assert(out@ =~= header_text(name@));
        assert(models_of(descriptors@).take(0) =~= Seq::<VariantModel>::empty());
        assert(out@ =~= header_text(name@) + arms_text(name@, models_of(descriptors@).take(0)));
    }
    let mut i: usize = 0;
    while i < descriptors.len()
        invariant
            0 <= i <= descriptors@.len(),
            out@ == header_text(name@) + arms_text(name@, models_of(descriptors@).take(i as int)),
        decreases descriptors@.len() - i,
    {
        emit_arm(&mut out, name, &descriptors[i]);
        proof {
            let ms = models_of(descriptors@);
            assert(ms.take(i as int + 1).drop_last() =~= ms.take(i as int));
            assert(ms.take(i as int + 1).last() == descriptors@[i as int]@);
            assert(out@ =~= header_text(name@) + arms_text(name@, ms.take(i as int + 1)));
        }
        i = i + 1;
    }
    out.append("        }\n    }\n}\n");
    proof {
        let ms = models_of(descriptors@);
        assert(ms.take(descriptors@.len() as int) =~= ms);
        assert(out@ =~= impl_text(name@, ms));
    }
    out
}

} // verus!
