//! The link extractor: from a base URL and an HTML body to the ordered
//! sequence of absolute, fragment-free links the document references.

use vstd::prelude::*;

use crate::errors::GetLinksError;
use crate::urls::{resolve, resolve_href, url_ok, BaseUrl, ResolvedLink};

verus! {

/// The href attribute values of the anchor (`<a>`) elements of the
/// HTML document `body`, in document order; anchors without an href
/// are left out. The tolerant parse that finds them is a pure function
/// of the document text, so its outcome can be named.
pub uninterp spec fn anchor_hrefs(body: Seq<char>) -> Seq<Seq<char>>;

/// The character sequences of a sequence of strings.
pub open spec fn views_of_strings(v: Seq<String>) -> Seq<Seq<char>> {
    v.map_values(|s: String| s@)
}

/// The character sequences of a sequence of links.
pub open spec fn views_of_links(v: Seq<ResolvedLink>) -> Seq<Seq<char>> {
    v.map_values(|l: ResolvedLink| l@)
}

/// Relies on `select::document::Document` and `select`'s `find` with
/// the `Name("a")` predicate: the parse (html5ever underneath) never
/// fails, nodes are stored and enumerated in document order, and
/// `attr("href")` is the value of the element's href attribute.
#[verifier::external_body]
fn find_anchor_hrefs(body: &str) -> (r: Vec<String>)
    ensures
        views_of_strings(r@) == anchor_hrefs(body@),
{
    let doc = select::document::Document::from(body);
    let mut hrefs = Vec::new();
    for node in doc.find(select::predicate::Name("a")) {
        if let Some(href) = node.attr("href") {
            hrefs.push(href.to_string());
        }
    }
    hrefs
}

/// The links that a sequence of raw hrefs yields against `base`: each
/// href that resolves contributes one entry, in order; an href that
/// does not resolve is dropped and costs nothing else.
pub open spec fn resolve_all(base: Seq<char>, hrefs: Seq<Seq<char>>) -> Seq<Seq<char>>
    decreases hrefs.len(),
{
    if hrefs.len() == 0 {
        Seq::empty()
    } else {
        let rest = resolve_all(base, hrefs.drop_last());
        match resolve_href(base, hrefs.last()) {
            Some(l) => rest.push(l),
            None => rest,
        }
    }
}

/// The full extraction: the links of the document's anchor hrefs,
/// resolved against `base` in document order.
pub open spec fn extracted_links(base: Seq<char>, body: Seq<char>) -> Seq<Seq<char>> {
    resolve_all(base, anchor_hrefs(body))
}

/// The link extractor. It performs no I/O and holds no state: one call
/// turns one base URL and one document body into one link set.
pub struct LinkExtractor {}

impl LinkExtractor {
    /// A fresh extractor.
    pub fn new() -> (r: Self) {
        LinkExtractor {}
    }

    /// Extract every link the document references: enumerate the
    /// anchors' hrefs in document order, resolve each against `base`,
    /// strip fragments, and keep duplicates. Hrefs that cannot be
    /// resolved are skipped; the extraction itself never fails.
    pub fn get_links(&self, base: &BaseUrl, body: &str) -> (links: Vec<ResolvedLink>)
        ensures
            views_of_links(links@) == extracted_links(base@, body@),
            forall|k: int| 0 <= k < links@.len() ==> (#[trigger] links@[k]).wf(),
    {
        let hrefs = find_anchor_hrefs(body);
        let ghost all: Seq<Seq<char>> = anchor_hrefs(body@);
        let mut links: Vec<ResolvedLink> = Vec::new();
        let mut i: usize = 0;
        while i < hrefs.len()
            invariant
                i <= hrefs.len(),
                views_of_strings(hrefs@) == all,
                views_of_links(links@) == resolve_all(base@, all.take(i as int)),
                forall|k: int| 0 <= k < links@.len() ==> (#[trigger] links@[k]).wf(),
            decreases hrefs.len() - i,
        {
            let href: &String = &hrefs[i];
            proof {
                assert(views_of_strings(hrefs@)[i as int] == href@);
                assert(all.take(i as int + 1).drop_last() =~= all.take(i as int));
                assert(all.take(i as int + 1).last() == href@);
            }
            match resolve(base, href.as_str()) {
                Some(l) => {
                    proof {
                        assert(views_of_links(links@.push(l)) =~= views_of_links(links@).push(l@));
                    }
                    links.push(l);
                }
                None => {
                }
            }
            i += 1;
        }
        proof {
            assert(all.take(hrefs@.len() as int) =~= all);
        }
        links
    }
}

/// What one fetch produced: the effective (post-redirect) URL the
/// response came from, the HTTP status, and the body text.
pub struct FetchOutput {
    /// The URL the response was actually served from.
    pub base_url: String,
    /// The HTTP status code of the response.
    pub status: u16,
    /// The response body, decoded as text.
    pub body: String,
}

/// The whole operation once the fetch step has run: a transport
/// failure is passed through untouched and the document is never
/// examined, while a fetched response has its links extracted against
/// the effective URL — the one the response came from, so redirects
/// change the resolution context.
pub fn links_from_fetch(outcome: Result<FetchOutput, GetLinksError>) -> (r: Result<
    Vec<ResolvedLink>,
    GetLinksError,
>)
    ensures
        (outcome matches Err(e) ==> (r matches Err(e2) && e2 == e)),
        (outcome matches Ok(o) ==> match url_ok(o.base_url@) {
            Some(b) => r matches Ok(links) && views_of_links(links@) == extracted_links(
                b,
                o.body@,
            ) && (forall|k: int| 0 <= k < links@.len() ==> (#[trigger] links@[k]).wf()),
            None => r matches Err(e) && e == GetLinksError::InvalidUrl(o.base_url),
        }),
{
    match outcome {
        Ok(o) => match BaseUrl::parse(o.base_url.as_str()) {
            Some(base) => {
                let extractor = LinkExtractor::new();
                Ok(extractor.get_links(&base, o.body.as_str()))
            },
            None => Err(GetLinksError::InvalidUrl(o.base_url)),
        },
        Err(e) => Err(e),
    }
}

/// Law: extraction is local and order-preserving — the links of two
/// href sequences laid end to end are the links of the first followed
/// by the links of the second. In particular every occurrence of a
/// duplicated href contributes its own entry, in document order.
pub proof fn lemma_resolve_all_append(base: Seq<char>, s1: Seq<Seq<char>>, s2: Seq<Seq<char>>)
    ensures
        resolve_all(base, s1 + s2) == resolve_all(base, s1) + resolve_all(base, s2),
    decreases s2.len(),
{
    if s2.len() == 0 {
        assert(s1 + s2 =~= s1);
        assert(resolve_all(base, s1) + resolve_all(base, s2) =~= resolve_all(base, s1));
    } else {
        lemma_resolve_all_append(base, s1, s2.drop_last());
        assert((s1 + s2).drop_last() =~= s1 + s2.drop_last());
        assert((s1 + s2).last() == s2.last());
        match resolve_href(base, s2.last()) {
            Some(l) => {
                assert(resolve_all(base, s1) + resolve_all(base, s2) =~= (resolve_all(base, s1)
                    + resolve_all(base, s2.drop_last())).push(l));
            },
            None => {
            },
        }
    }
}

/// Law: an href that does not resolve leaves no trace — the links of a
/// href sequence holding it are the links of the same sequence without
/// it, so one bad href never spoils the extraction as a whole.
pub proof fn lemma_skipped_href_leaves_no_trace(
    base: Seq<char>,
    before: Seq<Seq<char>>,
    bad: Seq<char>,
    after: Seq<Seq<char>>,
)
    requires
        resolve_href(base, bad) is None,
    ensures
        resolve_all(base, before.push(bad) + after) == resolve_all(base, before + after),
{
    lemma_resolve_all_append(base, before.push(bad), after);
    lemma_resolve_all_append(base, before, after);
    assert(before.push(bad).drop_last() =~= before);
    assert(before.push(bad).last() == bad);
}

/// Law: a document without anchor hrefs — no anchors at all, or none
/// carrying an href — yields the empty link set, and no error.
pub proof fn lemma_no_anchors_no_links(base: Seq<char>, body: Seq<char>)
    requires
        anchor_hrefs(body).len() == 0,
    ensures
        extracted_links(base, body).len() == 0,
{
}

} // verus!
