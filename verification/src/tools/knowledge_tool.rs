//! Tool that searches the public banking knowledge base.

use vstd::prelude::*;
use vstd::string::StringSliceAdditionalSpecFns;
use vstd::utf8::*;

use crate::knowledge::{is_ranking, Document, PublicKnowledgeBase};
use crate::text::{join, push_str};
use crate::tools::result::ToolResult;

verus! {

/// Longest preview of a document, in bytes.
pub const PREVIEW_BYTES: usize = 800;

/// The first 800 bytes of a text (all of it when shorter).
pub open spec fn preview(content: Seq<char>) -> Seq<char> {
    if encode_utf8(content).len() <= 800 {
        content
    } else {
        decode_utf8(encode_utf8(content).subrange(0, 800))
    }
}

/// A text of more than 800 bytes can be cut at byte 800.
pub open spec fn cuttable(content: Seq<char>) -> bool {
    encode_utf8(content).len() > 800 ==> is_char_boundary(encode_utf8(content), 800)
}

/// How one search hit is shown.
pub open spec fn hit_entry(d: Document) -> Seq<char> {
    "**"@ + d.id@ + "**\n"@ + preview(d.content@)
}

fn preview_of(content: &str) -> (p: &str)
    requires
        cuttable(content@),
    ensures
        p@ == preview(content@),
{
    broadcast use vstd::utf8::group_utf8_lib;
    if content.as_bytes().len() > PREVIEW_BYTES {
        let (head, _) = content.split_at(PREVIEW_BYTES);
        proof {
            encode_utf8_decode_utf8(head@);
            assert(head.spec_bytes() == encode_utf8(head@));
            assert(content.spec_bytes() == encode_utf8(content@));
            assert(encode_utf8(head@) =~= encode_utf8(content@).subrange(0, 800));
        }
        head
    } else {
        assert(content.spec_bytes() == encode_utf8(content@));
        content
    }
}

/// Tool to search the public banking knowledge base.
pub struct SearchPublicInfoTool;

impl SearchPublicInfoTool {
    pub fn name(&self) -> (r: &'static str)
        ensures
            r@ == "search_public_info"@,
    {
        "search_public_info"
    }

    pub fn description(&self) -> (r: &'static str)
        ensures
            r@ == "Search the public banking knowledge base for information about products, fees, branches, and policies"@,
    {
        "Search the public banking knowledge base for information about products, fees, branches, and policies"
    }

    /// An empty query is an error; otherwise the three best hits are shown with a
    /// preview each, separated by rules.
    pub fn call(&self, kb: &PublicKnowledgeBase, query: Option<&str>) -> (r: ToolResult)
        requires
            forall|i: int| 0 <= i < kb@.len() ==> cuttable(#[trigger] kb@[i].content@),
        ensures
            ({
                let q = match query { Some(q) => q@, None => ""@ };
                if q.len() == 0 {
                    r.is_error && r.content@ == "Query is required"@
                } else {
                    !r.is_error && exists|idx: Seq<int>| {
                        &&& is_ranking(kb@, q, idx)
                        &&& if idx.len() == 0 {
                            r.content@ == "No relevant information found in the knowledge base for that query."@
                        } else {
                            let n = if idx.len() < 3 { idx.len() as int } else { 3 };
                            r.content@ == join(Seq::new(n as nat, |k: int| hit_entry(kb@[idx[k]])), "\n\n---\n\n"@)
                        }
                    }
                }
            }),
    {
        let q: &str = match query {
            Some(q) => q,
            None => "",
        };
        if q.is_empty() {
            return ToolResult::error("Query is required".to_owned());
        }
        let results = kb.search(q, 3);
        let ghost idx = choose|idx: Seq<int>| {
            &&& is_ranking(kb@, q@, idx)
            &&& results@.len() == if 3 < idx.len() { 3 } else { idx.len() as int }
            &&& forall|k: int| 0 <= k < results@.len() ==> *results@[k] == kb@[#[trigger] idx[k]]
        };
        if results.len() == 0 {
            return ToolResult::ok("No relevant information found in the knowledge base for that query.".to_owned());
        }
        let ghost entries = Seq::new(results@.len(), |k: int| hit_entry(kb@[idx[k]]));
        let mut out = String::new();
        let mut i: usize = 0;
        while i < results.len()
            invariant
                i <= results@.len(),
                entries == Seq::new(results@.len(), |k: int| hit_entry(kb@[idx[k]])),
                forall|k: int| 0 <= k < results@.len() ==> *results@[k] == kb@[#[trigger] idx[k]],
                forall|k: int| 0 <= k < results@.len() ==> 0 <= #[trigger] idx[k] < kb@.len(),
                forall|m: int| 0 <= m < kb@.len() ==> cuttable(#[trigger] kb@[m].content@),
                out@ == join(entries.take(i as int), "\n\n---\n\n"@),
            decreases results.len() - i,
        {
            let d: &Document = results[i];
            assert(*d == kb@[idx[i as int]]);
            let ghost before = out@;
            if i > 0 {
                push_str(&mut out, "\n\n---\n\n");
            }
            push_str(&mut out, "**");
            push_str(&mut out, d.id.as_str());
            push_str(&mut out, "**\n");
            let p = preview_of(d.content.as_str());
            push_str(&mut out, p);
            proof {
                let next = entries.take(i + 1);
                assert(next.drop_last() =~= entries.take(i as int));
                assert(next.last() == hit_entry(*d));
                if i == 0 {
                    assert(out@ =~= hit_entry(*d));
                } else {
                    assert(out@ =~= before + "\n\n---\n\n"@ + hit_entry(*d));
                }
            }
            i = i + 1;
        }
        assert(entries.take(i as int) =~= entries);
        ToolResult::ok(out)
    }
}

} // verus!
