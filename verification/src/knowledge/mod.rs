//! Public knowledge base: banking product documents ranked by keyword overlap.

pub mod sources;

use vstd::prelude::*;

use std::collections::HashMap;

use crate::text::{contains, contains_seq, spec_to_lowercase, split_whitespace, to_lowercase, words};

verus! {

/// A document in the knowledge base.
#[derive(Debug)]
pub struct Document {
    pub id: String,
    pub content: String,
    pub metadata: HashMap<String, serde_json::Value>,
}

/// How many of the query's words (lowercased, counted with repetition) occur in
/// the lowercased content.
pub open spec fn score(query: Seq<char>, content: Seq<char>) -> nat {
    words(spec_to_lowercase(query)).filter(|w: Seq<char>| contains_seq(spec_to_lowercase(content), w)).len()
}

/// Search ignores the letter case of the query: two queries that lowercase to
/// the same text score every document alike, and so have the same ranking.
pub proof fn lemma_query_case_ignored(docs: Seq<Document>, q1: Seq<char>, q2: Seq<char>, content: Seq<char>, idx: Seq<int>)
    requires
        spec_to_lowercase(q1) == spec_to_lowercase(q2),
    ensures
        score(q1, content) == score(q2, content),
        is_ranking(docs, q1, idx) == is_ranking(docs, q2, idx),
{
    assert forall|c: Seq<char>| #[trigger] score(q1, c) == score(q2, c) by {}
}

/// Matching ignores the letter case of the documents too: two contents that
/// lowercase to the same text get the same score for every query.
pub proof fn lemma_content_case_ignored(query: Seq<char>, c1: Seq<char>, c2: Seq<char>)
    requires
        spec_to_lowercase(c1) == spec_to_lowercase(c2),
    ensures
        score(query, c1) == score(query, c2),
{
}

/// Document `a` ranks before document `b`: a higher score, or the same score and
/// an earlier position.
pub open spec fn ranks_before(docs: Seq<Document>, query: Seq<char>, a: int, b: int) -> bool {
    ||| score(query, docs[a].content@) > score(query, docs[b].content@)
    ||| (score(query, docs[a].content@) == score(query, docs[b].content@) && a < b)
}

/// `idx` lists every document with a positive score exactly once, best first.
pub open spec fn is_ranking(docs: Seq<Document>, query: Seq<char>, idx: Seq<int>) -> bool {
    &&& forall|k: int| 0 <= k < idx.len() ==> 0 <= #[trigger] idx[k] < docs.len() && score(query, docs[idx[k]].content@) > 0
    &&& forall|k1: int, k2: int| 0 <= k1 < k2 < idx.len() ==> ranks_before(docs, query, #[trigger] idx[k1], #[trigger] idx[k2])
    &&& forall|i: int| 0 <= i < docs.len() && score(query, docs[i].content@) > 0 ==> exists|k: int| 0 <= k < idx.len() && #[trigger] idx[k] == i
}

proof fn lemma_ranking_step(docs: Seq<Document>, query: Seq<char>, a: Seq<int>, b: Seq<int>, k: int)
    requires
        is_ranking(docs, query, a),
        is_ranking(docs, query, b),
        0 <= k < a.len(),
        forall|j: int| 0 <= j < k ==> a[j] == b[j],
    ensures
        k < b.len(),
        a[k] == b[k],
{
    let i = a[k];
    assert(0 <= i < docs.len() && score(query, docs[i].content@) > 0);
    let m = choose|m: int| 0 <= m < b.len() && #[trigger] b[m] == i;
    if m < k {
        assert(b[m] == a[m]);
        assert(ranks_before(docs, query, a[m], a[k]));
        assert(false);
    }
    assert(k < b.len());
    if m > k {
        let i2 = b[k];
        assert(0 <= i2 < docs.len() && score(query, docs[i2].content@) > 0);
        let p = choose|p: int| 0 <= p < a.len() && #[trigger] a[p] == i2;
        if p < k {
            assert(a[p] == b[p]);
            assert(ranks_before(docs, query, b[p], b[k]));
            assert(false);
        } else if p > k {
            assert(ranks_before(docs, query, a[k], a[p]));
            assert(ranks_before(docs, query, b[k], b[m]));
            assert(false);
        }
    }
}

proof fn lemma_ranking_prefix(docs: Seq<Document>, query: Seq<char>, a: Seq<int>, b: Seq<int>, n: int)
    requires
        is_ranking(docs, query, a),
        is_ranking(docs, query, b),
        0 <= n <= a.len(),
    ensures
        n <= b.len(),
        forall|j: int| 0 <= j < n ==> a[j] == b[j],
    decreases n,
{
    if n > 0 {
        lemma_ranking_prefix(docs, query, a, b, n - 1);
        lemma_ranking_step(docs, query, a, b, n - 1);
    }
}

/// The ranking of the documents for a query is unique: any two lists that each
/// hold every document with a positive score exactly once, best first with ties
/// in document order, are the same list. A search's result, and the tool reply
/// built on it, are therefore determined by the documents and the query.
pub proof fn lemma_ranking_unique(docs: Seq<Document>, query: Seq<char>, a: Seq<int>, b: Seq<int>)
    requires
        is_ranking(docs, query, a),
        is_ranking(docs, query, b),
    ensures
        a == b,
{
    lemma_ranking_prefix(docs, query, a, b, a.len() as int);
    lemma_ranking_prefix(docs, query, b, a, b.len() as int);
    assert(a =~= b);
}

fn score_of(query_words: &Vec<String>, content: &str) -> (n: usize)
    ensures
        n == query_words@.map_values(|w: String| w@).filter(|w: Seq<char>| contains_seq(spec_to_lowercase(content@), w)).len(),
{
    let lowered = to_lowercase(content);
    let ghost ws = query_words@.map_values(|w: String| w@);
    let ghost pred = |w: Seq<char>| contains_seq(spec_to_lowercase(content@), w);
    let mut n: usize = 0;
    let mut j: usize = 0;
    while j < query_words.len()
        invariant
            j <= query_words@.len(),
            ws == query_words@.map_values(|w: String| w@),
            pred == (|w: Seq<char>| contains_seq(spec_to_lowercase(content@), w)),
            lowered@ == spec_to_lowercase(content@),
            n == ws.take(j as int).filter(pred).len(),
            n <= j,
        decreases query_words.len() - j,
    {
        proof {
            ws.take(j as int).lemma_filter_push(ws[j as int], pred);
            assert(ws.take(j + 1) =~= ws.take(j as int).push(ws[j as int]));
        }
        if contains(lowered.as_str(), query_words[j].as_str()) {
            n = n + 1;
        }
        j = j + 1;
    }
    assert(ws.take(j as int) =~= ws);
    n
}

/// Public knowledge base containing banking product information.
pub struct PublicKnowledgeBase {
    documents: Vec<Document>,
}

impl View for PublicKnowledgeBase {
    type V = Seq<Document>;

    closed spec fn view(&self) -> Seq<Document> {
        self.documents@
    }
}

impl PublicKnowledgeBase {
    fn make_doc(name: &str, content: String) -> (d: Document)
        ensures
            d.id@ == name@,
            d.content == content,
    {
        Document { id: name.to_owned(), content, metadata: HashMap::new() }
    }

    /// Create the knowledge base from the texts of its five documents: the
    /// product catalog, the fee schedule, the branch hours, the security practices
    /// and the account opening guide.
    pub fn new(
        product_catalog: String,
        fee_schedule: String,
        branch_hours: String,
        security_practices: String,
        account_opening_guide: String,
    ) -> (kb: Self)
        ensures
            kb@.len() == 5,
            kb@[0].id@ == "product_catalog"@ && kb@[0].content == product_catalog,
            kb@[1].id@ == "fee_schedule"@ && kb@[1].content == fee_schedule,
            kb@[2].id@ == "branch_hours"@ && kb@[2].content == branch_hours,
            kb@[3].id@ == "security_practices"@ && kb@[3].content == security_practices,
            kb@[4].id@ == "account_opening_guide"@ && kb@[4].content == account_opening_guide,
    {
        let mut docs: Vec<Document> = Vec::new();
        docs.push(Self::make_doc("product_catalog", product_catalog));
        docs.push(Self::make_doc("fee_schedule", fee_schedule));
        docs.push(Self::make_doc("branch_hours", branch_hours));
        docs.push(Self::make_doc("security_practices", security_practices));
        docs.push(Self::make_doc("account_opening_guide", account_opening_guide));
        PublicKnowledgeBase { documents: docs }
    }

    /// The number of documents.
    pub fn len(&self) -> (n: usize)
        ensures
            n == self@.len(),
    {
        self.documents.len()
    }

    /// Search the knowledge base: the documents sharing at least one query word,
    /// most shared words first (ties keep document order), at most `top_k` of them.
    pub fn search(&self, query: &str, top_k: usize) -> (r: Vec<&Document>)
        ensures
            exists|idx: Seq<int>| {
                &&& is_ranking(self@, query@, idx)
                &&& r@.len() == if top_k < idx.len() { top_k as int } else { idx.len() as int }
                &&& forall|k: int| 0 <= k < r@.len() ==> *r@[k] == self@[#[trigger] idx[k]]
            },
    {
        let lowered = to_lowercase(query);
        let query_words = split_whitespace(lowered.as_str());
        proof {
            assert(query_words@.map_values(|w: String| w@) =~= words(spec_to_lowercase(query@)));
        }
        let n = self.documents.len();
        let mut scores: Vec<usize> = Vec::new();
        let mut max_score: usize = 0;
        let mut i: usize = 0;
        while i < n
            invariant
                n == self@.len(),
                i <= n,
                scores@.len() == i,
                query_words@.map_values(|w: String| w@) == words(spec_to_lowercase(query@)),
                forall|k: int| 0 <= k < i ==> #[trigger] scores@[k] == score(query@, self@[k].content@),
                forall|k: int| 0 <= k < i ==> #[trigger] scores@[k] <= max_score,
            decreases n - i,
        {
            let s = score_of(&query_words, self.documents[i].content.as_str());
            scores.push(s);
            if s > max_score {
                max_score = s;
            }
            i = i + 1;
        }

        // Collect positions level by level, from the highest score down to one.
        let mut idx: Vec<usize> = Vec::new();
        let mut level: usize = max_score;
        while level > 0
            invariant
                n == self@.len(),
                scores@.len() == n,
                level <= max_score,
                forall|k: int| 0 <= k < n ==> #[trigger] scores@[k] == score(query@, self@[k].content@),
                forall|k: int| 0 <= k < n ==> #[trigger] scores@[k] <= max_score,
                forall|k: int| 0 <= k < idx@.len() ==> #[trigger] idx@[k] < n && scores@[idx@[k] as int] > level,
                forall|k1: int, k2: int| 0 <= k1 < k2 < idx@.len() ==> ranks_before(self@, query@, #[trigger] idx@[k1] as int, #[trigger] idx@[k2] as int),
                forall|j: int| 0 <= j < n && scores@[j] > level ==> exists|k: int| 0 <= k < idx@.len() && #[trigger] idx@[k] == j,
            decreases level,
        {
            let mut j: usize = 0;
            while j < n
                invariant
                    n == self@.len(),
                    scores@.len() == n,
                    0 < level <= max_score,
                    j <= n,
                    forall|k: int| 0 <= k < n ==> #[trigger] scores@[k] == score(query@, self@[k].content@),
                    forall|k: int| 0 <= k < idx@.len() ==> #[trigger] idx@[k] < n && (scores@[idx@[k] as int] > level || (scores@[idx@[k] as int] == level && idx@[k] < j)),
                    forall|k1: int, k2: int| 0 <= k1 < k2 < idx@.len() ==> ranks_before(self@, query@, #[trigger] idx@[k1] as int, #[trigger] idx@[k2] as int),
                    forall|m: int| 0 <= m < n && (scores@[m] > level || (scores@[m] == level && m < j)) ==> exists|k: int| 0 <= k < idx@.len() && #[trigger] idx@[k] == m,
                decreases n - j,
            {
                if scores[j] == level {
                    let ghost before = idx@;
                    idx.push(j);
                    proof {
                        assert forall|k1: int, k2: int| 0 <= k1 < k2 < idx@.len() implies ranks_before(self@, query@, #[trigger] idx@[k1] as int, #[trigger] idx@[k2] as int) by {
                            if k2 == before.len() {
                                assert(idx@[k1] == before[k1]);
                            } else {
                                assert(idx@[k1] == before[k1] && idx@[k2] == before[k2]);
                            }
                        }
                        assert forall|m: int| 0 <= m < n && (scores@[m] > level || (scores@[m] == level && m < j + 1)) implies exists|k: int| 0 <= k < idx@.len() && #[trigger] idx@[k] == m by {
                            if m == j {
                                assert(idx@[before.len() as int] == m);
                            } else {
                                let k = choose|k: int| 0 <= k < before.len() && #[trigger] before[k] == m;
                                assert(idx@[k] == m);
                            }
                        }
                    }
                }
                j = j + 1;
            }
            level = level - 1;
        }

        let ghost ranking: Seq<int> = idx@.map_values(|p: usize| p as int);
        let mut r: Vec<&Document> = Vec::new();
        let mut k: usize = 0;
        while k < idx.len() && k < top_k
            invariant
                k <= idx@.len(),
                k <= top_k,
                ranking == idx@.map_values(|p: usize| p as int),
                forall|m: int| 0 <= m < idx@.len() ==> #[trigger] idx@[m] < self@.len(),
                r@.len() == k,
                forall|m: int| 0 <= m < k ==> *r@[m] == self@[#[trigger] ranking[m]],
            decreases idx.len() - k,
        {
            r.push(&self.documents[idx[k]]);
            k = k + 1;
        }
        proof {
            assert(is_ranking(self@, query@, ranking)) by {
                assert forall|i: int| 0 <= i < self@.len() && score(query@, self@[i].content@) > 0 implies exists|k: int| 0 <= k < ranking.len() && #[trigger] ranking[k] == i by {
                    assert(scores@[i] > 0);
                    let k = choose|k: int| 0 <= k < idx@.len() && #[trigger] idx@[k] == i;
                    assert(ranking[k] == i);
                }
            }
        }
        r
    }
}

} // verus!
