//! Aggregation of paginated backend listings and the XML document the
//! gateway returns for them. The backend hands back one page of entries
//! per continuation step; aggregation concatenates the pages exactly, in
//! page order, adding and dropping nothing.

use vstd::prelude::*;

use crate::digits::dec_rep;
use crate::digits::u64_to_dec;

verus! {

/// One listed object, as the gateway models a backend listing entry:
/// key, size in bytes, and the backend's last-modified text.
#[derive(Debug)]
pub struct ObjectEntry {
    pub key: String,
    pub size: u64,
    pub last_modified: String,
}

/// The pages as mathematical sequences.
pub open spec fn spec_pages_model(pages: Seq<Vec<ObjectEntry>>) -> Seq<Seq<ObjectEntry>> {
    pages.map_values(|p: Vec<ObjectEntry>| p@)
}

/// Total number of entries across the pages.
pub open spec fn spec_pages_total(pages: Seq<Seq<ObjectEntry>>) -> nat
    decreases pages.len(),
{
    if pages.len() == 0 {
        0
    } else {
        pages.first().len() + spec_pages_total(pages.drop_first())
    }
}

/// Law: an aggregated listing holds exactly as many entries as the pages
/// held together — a bucket of N objects listed across any pagination
/// boundaries yields exactly N entries, none duplicated, none dropped.
pub proof fn lemma_flatten_counts_every_entry(pages: Seq<Seq<ObjectEntry>>)
    ensures
        pages.flatten().len() == spec_pages_total(pages),
    decreases pages.len(),
{
    if pages.len() > 0 {
        lemma_flatten_counts_every_entry(pages.drop_first());
    }
}

/// Concatenate backend pages into one listing, preserving page order and
/// the order within each page, with no entry added or dropped.
pub fn aggregate_pages(pages: Vec<Vec<ObjectEntry>>) -> (r: Vec<ObjectEntry>)
    ensures
        r@ == spec_pages_model(pages@).flatten(),
{
    let ghost orig = pages@;
    let mut rest = pages;
    let mut out: Vec<ObjectEntry> = Vec::new();
    while rest.len() > 0
        invariant
            out@ + spec_pages_model(rest@).flatten() == spec_pages_model(orig).flatten(),
        decreases rest@.len(),
    {
        let ghost before = rest@;
        let ghost out_before = out@;
        let mut page = rest.remove(0);
        let ghost page_view = page@;
        proof {
            assert(spec_pages_model(before).drop_first() =~= spec_pages_model(rest@));
            assert(spec_pages_model(before).first() == page_view);
            assert(spec_pages_model(before).flatten() == page_view + spec_pages_model(
                rest@,
            ).flatten());
        }
        out.append(&mut page);
        proof {
            assert(out@ + spec_pages_model(rest@).flatten() =~= out_before + (page_view
                + spec_pages_model(rest@).flatten()));
        }
    }
    proof {
        assert(out@ + spec_pages_model(rest@).flatten() =~= out@);
    }
    out
}

/// XML block for one listed object, as it stands in the listing document.
pub open spec fn spec_xml_entry(o: ObjectEntry) -> Seq<char> {
    "        <Contents>\n            <Key>"@ + o.key@ + "</Key>\n            <Size>"@ + dec_rep(
        o.size as nat,
    ) + "</Size>\n            <LastModified>"@ + o.last_modified@
        + "</LastModified>\n        </Contents>"@
}

/// The object blocks of a listing document, separated by line breaks.
pub open spec fn spec_xml_content(objs: Seq<ObjectEntry>) -> Seq<char>
    decreases objs.len(),
{
    if objs.len() == 0 {
        Seq::empty()
    } else if objs.len() == 1 {
        spec_xml_entry(objs[0])
    } else {
        spec_xml_content(objs.drop_last()) + "\n"@ + spec_xml_entry(objs.last())
    }
}

/// The whole listing document: declaration, root element, bucket name,
/// echoed prefix, and one block per object in aggregated order.
pub open spec fn spec_list_xml(bucket: Seq<char>, prefix: Seq<char>, objs: Seq<ObjectEntry>) -> Seq<
    char,
> {
    "<?xml version=\"1.0\" encoding=\"UTF-8\"?>\n<ListBucketResult>\n    <Name>"@ + bucket
        + "</Name>\n    <Prefix>"@ + prefix + "</Prefix>\n"@ + spec_xml_content(objs)
        + "\n</ListBucketResult>"@
}

/// XML block for one object.
fn xml_entry(o: &ObjectEntry) -> (s: String)
    ensures
        s@ == spec_xml_entry(*o),
{
    let mut s = String::from_str("        <Contents>\n            <Key>");
    s.append(o.key.as_str());
    s.append("</Key>\n            <Size>");
    let size_dec = u64_to_dec(o.size);
    s.append(size_dec.as_str());
    s.append("</Size>\n            <LastModified>");
    s.append(o.last_modified.as_str());
    s.append("</LastModified>\n        </Contents>");
    proof {
        assert(s@ =~= spec_xml_entry(*o));
    }
    s
}

/// Object blocks of the listing document, one per entry, in order.
pub fn format_xml_content(objects: &Vec<ObjectEntry>) -> (s: String)
    ensures
        s@ == spec_xml_content(objects@),
{
    let mut s = String::new();
    let mut i: usize = 0;
    while i < objects.len()
        invariant
            0 <= i <= objects@.len(),
            s@ == spec_xml_content(objects@.subrange(0, i as int)),
        decreases objects@.len() - i,
    {
        if i > 0 {
            s.append("\n");
        }
        let entry = xml_entry(&objects[i]);
        s.append(entry.as_str());
        proof {
            let sub = objects@.subrange(0, i + 1);
            assert(sub.drop_last() =~= objects@.subrange(0, i as int));
            assert(sub.last() == objects@[i as int]);
            assert(s@ =~= spec_xml_content(sub));
        }
        i = i + 1;
    }
    proof {
        assert(objects@.subrange(0, objects@.len() as int) =~= objects@);
    }
    s
}

/// The whole listing document for a bucket, an echoed prefix, and the
/// aggregated entries.
pub fn render_list_xml(bucket: &str, prefix: &str, objects: &Vec<ObjectEntry>) -> (s: String)
    ensures
        s@ == spec_list_xml(bucket@, prefix@, objects@),
{
    let mut s = String::from_str(
        "<?xml version=\"1.0\" encoding=\"UTF-8\"?>\n<ListBucketResult>\n    <Name>",
    );
    s.append(bucket);
    s.append("</Name>\n    <Prefix>");
    s.append(prefix);
    s.append("</Prefix>\n");
    let content = format_xml_content(objects);
    s.append(content.as_str());
    s.append("\n</ListBucketResult>");
    proof {
        assert(s@ =~= spec_list_xml(bucket@, prefix@, objects@));
    }
    s
}

} // verus!
