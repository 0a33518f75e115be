//! Feature-description XML extraction.
//!
//! At connect the GDB server hands over its target description as XML: a
//! top-level document whose `href` attributes name included sub-documents,
//! and included documents whose `reg` elements carry a register name and a
//! protocol register number.  Two outside parsers read the raw XML; their
//! results are named, and everything that interprets them — picking the
//! include targets, recognizing register elements, building the name
//! table — is verified against those names.

use crate::errors::Error;
use crate::util::{dec_value_chars, is_dec_chars, parse_u32_dec_str, str_eq};
use vstd::prelude::*;

verus! {

/// The attribute name/value pairs of an XML document, in document order.
pub uninterp spec fn attr_pairs_of(s: Seq<char>) -> Seq<(Seq<char>, Seq<char>)>;

/// Relies on xmlparser's `Tokenizer`: the attribute tokens it yields for a
/// document depend on the document text alone; tokens the tokenizer
/// rejects are skipped.
#[verifier::external_body]
fn xml_attr_pairs(xml: &str) -> (r: Vec<(String, String)>)
    ensures
        r@.len() == attr_pairs_of(xml@).len(),
        forall|i: int|
            0 <= i < r@.len() ==> (#[trigger] r@[i]).0@ == attr_pairs_of(xml@)[i].0 && r@[i].1@
                == attr_pairs_of(xml@)[i].1,
{
    xmlparser::Tokenizer::from(xml).filter_map(
        |t| match t {
            Ok(xmlparser::Token::Attribute { local, value, .. }) => Some(
                (local.as_str().to_string(), value.as_str().to_string()),
            ),
            _ => None,
        },
    ).collect()
}

/// The values of the `href` attributes among a run of attribute pairs, in
/// order.
pub open spec fn hrefs_of(pairs: Seq<(Seq<char>, Seq<char>)>) -> Seq<Seq<char>>
    decreases pairs.len(),
{
    if pairs.len() == 0 {
        Seq::empty()
    } else {
        let pre = hrefs_of(pairs.drop_last());
        if pairs.last().0 == "href"@ {
            pre.push(pairs.last().1)
        } else {
            pre
        }
    }
}

/// The include targets of a feature document: the values of its `href`
/// attributes, in document order.  The top-level document cannot be read
/// as a tree while its includes are unresolved, so the targets come from
/// the raw attribute stream.
pub fn feature_includes(xml: &str) -> (r: Vec<String>)
    ensures
        r@.len() == hrefs_of(attr_pairs_of(xml@)).len(),
        forall|i: int|
            0 <= i < r@.len() ==> (#[trigger] r@[i])@ == hrefs_of(attr_pairs_of(xml@))[i],
{
    let pairs = xml_attr_pairs(xml);
    let ghost ap = attr_pairs_of(xml@);
    let mut out: Vec<String> = Vec::new();
    let mut i: usize = 0;
    proof {
        assert(ap.take(0) =~= Seq::<(Seq<char>, Seq<char>)>::empty());
    }
    while i < pairs.len()
        invariant
            i <= pairs@.len(),
            pairs@.len() == ap.len(),
            forall|j: int|
                0 <= j < pairs@.len() ==> (#[trigger] pairs@[j]).0@ == ap[j].0 && pairs@[j].1@
                    == ap[j].1,
            out@.len() == hrefs_of(ap.take(i as int)).len(),
            forall|j: int|
                0 <= j < out@.len() ==> (#[trigger] out@[j])@ == hrefs_of(ap.take(i as int))[j],
        decreases pairs@.len() - i,
    {
        proof {
            assert(ap.take(i + 1).drop_last() =~= ap.take(i as int));
            assert(ap.take(i + 1).last() == ap[i as int]);
        }
        if str_eq(pairs[i].0.as_str(), "href") {
            out.push(pairs[i].1.clone());
        }
        i = i + 1;
    }
    proof {
        assert(ap.take(ap.len() as int) =~= ap);
    }
    out
}

/// The elements of an XML document's root, in order: each child's tag
/// name with its attribute name/value pairs.
pub uninterp spec fn elements_of(s: Seq<char>) -> Seq<(Seq<char>, Seq<(Seq<char>, Seq<char>)>)>;

/// Whether the XML parser accepts the document; like the element tree
/// itself, acceptance depends on the document text alone.
pub uninterp spec fn elements_ok(s: Seq<char>) -> bool;

/// Whether an extracted element carries exactly the named tag and
/// attribute pairs.
pub open spec fn element_matches(
    e: (String, Vec<(String, String)>),
    s: (Seq<char>, Seq<(Seq<char>, Seq<char>)>),
) -> bool {
    &&& e.0@ == s.0
    &&& e.1@.len() == s.1.len()
    &&& forall|j: int|
        0 <= j < s.1.len() ==> (#[trigger] e.1@[j]).0@ == s.1[j].0 && e.1@[j].1@ == s.1[j].1
}

/// Relies on roxmltree's `Document::parse`: the element tree it builds
/// for a document depends on the document text alone; a document it
/// cannot parse yields nothing.
#[verifier::external_body]
fn xml_elements(xml: &str) -> (r: Option<Vec<(String, Vec<(String, String)>)>>)
    ensures
        r is Some <==> elements_ok(xml@),
        r matches Some(v) ==> v@.len() == elements_of(xml@).len() && forall|i: int|
            0 <= i < v@.len() ==> element_matches(#[trigger] v@[i], elements_of(xml@)[i]),
{
    let doc = match roxmltree::Document::parse(xml) {
        Ok(d) => d,
        Err(_) => {
            return None;
        },
    };
    Some(
        doc.root_element().children().map(
            |n| (
                n.tag_name().name().to_string(),
                n.attributes().map(|a| (a.name().to_string(), a.value().to_string())).collect(),
            ),
        ).collect(),
    )
}

/// The register entries among a document's elements: every `reg` element
/// carrying exactly three attributes whose third is `regnum` contributes
/// its first attribute's value as the name and the `regnum` value, read
/// as a decimal number, as the protocol id.  A `regnum` value that is not
/// a decimal number fitting the id type fails the extraction.
pub open spec fn reg_entries_of(elems: Seq<(Seq<char>, Seq<(Seq<char>, Seq<char>)>)>) -> Result<
    Seq<(Seq<char>, u32)>,
    Error,
>
    decreases elems.len(),
{
    if elems.len() == 0 {
        Ok(Seq::empty())
    } else {
        match reg_entries_of(elems.drop_last()) {
            Ok(pre) => {
                let el = elems.last();
                if el.0 == "reg"@ && el.1.len() == 3 && el.1[2].0 == "regnum"@ {
                    if is_dec_chars(el.1[2].1) && dec_value_chars(el.1[2].1) <= u32::MAX {
                        Ok(pre.push((el.1[0].1, dec_value_chars(el.1[2].1) as u32)))
                    } else {
                        Err(Error::BadInteger)
                    }
                } else {
                    Ok(pre)
                }
            },
            Err(e) => Err(e),
        }
    }
}

/// Once a prefix of the element run fails, the whole run fails the same
/// way.
proof fn lemma_reg_entries_err(elems: Seq<(Seq<char>, Seq<(Seq<char>, Seq<char>)>)>, i: int)
    requires
        0 <= i <= elems.len(),
        reg_entries_of(elems.take(i)) is Err,
    ensures
        reg_entries_of(elems) == reg_entries_of(elems.take(i)),
    decreases elems.len() - i,
{
    if i < elems.len() {
        assert(elems.take(i + 1).drop_last() =~= elems.take(i));
        lemma_reg_entries_err(elems, i + 1);
    } else {
        assert(elems.take(i) =~= elems);
    }
}

/// Extracts the register name/number entries out of one included feature
/// document.  A document the XML parser rejects is a protocol failure.
pub fn parse_feature_regs(xml: &str) -> (r: Result<Vec<(String, u32)>, Error>)
    ensures
        match r {
            Ok(v) => elements_ok(xml@) && (reg_entries_of(elements_of(xml@)) matches Ok(s)
                && v@.len() == s.len() && forall|i: int|
                0 <= i < v@.len() ==> (#[trigger] v@[i]).0@ == s[i].0 && v@[i].1 == s[i].1),
            Err(e) => {
                if elements_ok(xml@) {
                    reg_entries_of(elements_of(xml@)) matches Err(e2) && e == e2
                } else {
                    e == Error::BadResponse
                }
            },
        },
{
    let elems = match xml_elements(xml) {
        Some(v) => v,
        None => {
            return Err(Error::BadResponse);
        },
    };
    let ghost es = elements_of(xml@);
    let mut out: Vec<(String, u32)> = Vec::new();
    let mut i: usize = 0;
    proof {
        assert(es.take(0) =~= Seq::<(Seq<char>, Seq<(Seq<char>, Seq<char>)>)>::empty());
    }
    while i < elems.len()
        invariant
            i <= elems@.len(),
            elements_ok(xml@),
            es == elements_of(xml@),
            elems@.len() == es.len(),
            forall|j: int|
                0 <= j < elems@.len() ==> element_matches(#[trigger] elems@[j], es[j]),
            reg_entries_of(es.take(i as int)) matches Ok(s) && out@.len() == s.len() && forall|j:
                int|
                0 <= j < out@.len() ==> (#[trigger] out@[j]).0@ == s[j].0 && out@[j].1 == s[j].1,
        decreases elems@.len() - i,
    {
        proof {
            assert(es.take(i + 1).drop_last() =~= es.take(i as int));
            assert(es.take(i + 1).last() == es[i as int]);
            assert(element_matches(elems@[i as int], es[i as int]));
        }
        let tag_is_reg = str_eq(elems[i].0.as_str(), "reg");
        if tag_is_reg && elems[i].1.len() == 3 && str_eq(elems[i].1[2].0.as_str(), "regnum") {
            let num = match parse_u32_dec_str(elems[i].1[2].1.as_str()) {
                Some(v) => v,
                None => {
                    proof {
                        assert(elems@[i as int].1@[2].0@ == es[i as int].1[2].0);
                        assert(elems@[i as int].1@[2].1@ == es[i as int].1[2].1);
                        assert(reg_entries_of(es.take(i + 1)) == Err::<
                            Seq<(Seq<char>, u32)>,
                            Error,
                        >(Error::BadInteger));
                        lemma_reg_entries_err(es, i + 1);
                    }
                    return Err(Error::BadInteger);
                },
            };
            out.push((elems[i].1[0].1.clone(), num));
        }
        i = i + 1;
    }
    proof {
        assert(es.take(es.len() as int) =~= es);
    }
    Ok(out)
}

} // verus!
