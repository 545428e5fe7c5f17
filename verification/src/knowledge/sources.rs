//! Public knowledge base of titled, categorised documents.

use vstd::prelude::*;

use crate::text::{contains, contains_seq, spec_to_lowercase, str_eq, to_lowercase};

verus! {

/// A knowledge document.
#[derive(Debug)]
pub struct KnowledgeDocument {
    /// Document ID.
    pub id: String,
    /// Document title.
    pub title: String,
    /// Document content (markdown).
    pub content: String,
    /// Document category.
    pub category: String,
}

/// The lowercased query occurs in the lowercased title or content.
pub open spec fn matches_query(doc: KnowledgeDocument, query: Seq<char>) -> bool {
    contains_seq(spec_to_lowercase(doc.title@), spec_to_lowercase(query))
        || contains_seq(spec_to_lowercase(doc.content@), spec_to_lowercase(query))
}

/// Public knowledge base loaded from static markdown.
pub struct PublicKnowledgeBase {
    documents: Vec<KnowledgeDocument>,
}

impl View for PublicKnowledgeBase {
    type V = Seq<KnowledgeDocument>;

    closed spec fn view(&self) -> Seq<KnowledgeDocument> {
        self.documents@
    }
}

fn doc(id: &str, title: &str, content: String, category: &str) -> (d: KnowledgeDocument)
    ensures
        d.id@ == id@,
        d.title@ == title@,
        d.content == content,
        d.category@ == category@,
{
    KnowledgeDocument { id: id.to_owned(), title: title.to_owned(), content, category: category.to_owned() }
}

impl PublicKnowledgeBase {
    /// Create the knowledge base from the markdown of its five documents.
    pub fn new(
        account_security: String,
        transfer_limits: String,
        dispute_process: String,
        fee_schedule: String,
        faq: String,
    ) -> (kb: Self)
        ensures
            kb@.len() == 5,
            kb@[0].id@ == "kb-001"@ && kb@[0].title@ == "Account Security"@ && kb@[0].content == account_security && kb@[0].category@ == "security"@,
            kb@[1].id@ == "kb-002"@ && kb@[1].title@ == "Transfer Limits"@ && kb@[1].content == transfer_limits && kb@[1].category@ == "transfers"@,
            kb@[2].id@ == "kb-003"@ && kb@[2].title@ == "Dispute Process"@ && kb@[2].content == dispute_process && kb@[2].category@ == "disputes"@,
            kb@[3].id@ == "kb-004"@ && kb@[3].title@ == "Fee Schedule"@ && kb@[3].content == fee_schedule && kb@[3].category@ == "fees"@,
            kb@[4].id@ == "kb-005"@ && kb@[4].title@ == "FAQ"@ && kb@[4].content == faq && kb@[4].category@ == "general"@,
    {
        let mut documents: Vec<KnowledgeDocument> = Vec::new();
        documents.push(doc("kb-001", "Account Security", account_security, "security"));
        documents.push(doc("kb-002", "Transfer Limits", transfer_limits, "transfers"));
        documents.push(doc("kb-003", "Dispute Process", dispute_process, "disputes"));
        documents.push(doc("kb-004", "Fee Schedule", fee_schedule, "fees"));
        documents.push(doc("kb-005", "FAQ", faq, "general"));
        PublicKnowledgeBase { documents }
    }

    /// Get all documents.
    pub fn documents(&self) -> (r: &[KnowledgeDocument])
        ensures
            r@ == self@,
    {
        self.documents.as_slice()
    }

    /// Search documents by keyword: those whose title or content contains the
    /// query, ignoring case, in document order.
    pub fn search(&self, query: &str) -> (r: Vec<&KnowledgeDocument>)
        ensures
            r@.map_values(|d: &KnowledgeDocument| *d) == self@.filter(|d: KnowledgeDocument| matches_query(d, query@)),
    {
        let ghost pred = |d: KnowledgeDocument| matches_query(d, query@);
        let query_lower = to_lowercase(query);
        let mut r: Vec<&KnowledgeDocument> = Vec::new();
        let mut i: usize = 0;
        while i < self.documents.len()
            invariant
                i <= self@.len(),
                pred == (|d: KnowledgeDocument| matches_query(d, query@)),
                query_lower@ == spec_to_lowercase(query@),
                r@.map_values(|d: &KnowledgeDocument| *d) == self@.take(i as int).filter(pred),
            decreases self.documents.len() - i,
        {
            let d = &self.documents[i];
            let title_lower = to_lowercase(d.title.as_str());
            let hit = contains(title_lower.as_str(), query_lower.as_str()) || {
                let content_lower = to_lowercase(d.content.as_str());
                contains(content_lower.as_str(), query_lower.as_str())
            };
            proof {
                self@.take(i as int).lemma_filter_push(self@[i as int], pred);
                assert(self@.take(i + 1) =~= self@.take(i as int).push(self@[i as int]));
            }
            let ghost before = r@;
            if hit {
                r.push(d);
                assert(r@.map_values(|d: &KnowledgeDocument| *d) =~= before.map_values(|d: &KnowledgeDocument| *d).push(*d));
            }
            i = i + 1;
        }
        assert(self@.take(i as int) =~= self@);
        r
    }

    /// Get a document by ID (the first one carrying it).
    pub fn get(&self, id: &str) -> (r: Option<&KnowledgeDocument>)
        ensures
            match r {
                Some(d) => exists|i: int| 0 <= i < self@.len() && *d == self@[i] && self@[i].id@ == id@
                    && forall|k: int| 0 <= k < i ==> self@[k].id@ != id@,
                None => forall|k: int| 0 <= k < self@.len() ==> self@[k].id@ != id@,
            },
    {
        let mut i: usize = 0;
        while i < self.documents.len()
            invariant
                i <= self@.len(),
                forall|k: int| 0 <= k < i ==> self@[k].id@ != id@,
            decreases self.documents.len() - i,
        {
            if str_eq(self.documents[i].id.as_str(), id) {
                return Some(&self.documents[i]);
            }
            i = i + 1;
        }
        None
    }
}

} // verus!
