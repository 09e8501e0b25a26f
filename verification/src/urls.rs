//! URL parsing, joining and fragment handling, modelled over the `url`
//! crate: every outside call stands behind a trusted wrapper whose
//! contract names what the call returns.

use vstd::prelude::*;

verus! {

/// The serialization (`Url::as_str`) of the URL that `url::Url::parse`
/// yields on `s`, or `None` when parsing fails. Parsing is a pure
/// function of the input string, so its outcome can be named.
pub uninterp spec fn url_ok(s: Seq<char>) -> Option<Seq<char>>;

/// Whether `url::Url::parse` fails on `s` with the one recoverable
/// error, `url::ParseError::RelativeUrlWithoutBase`: `s` names no
/// absolute URL of its own but may resolve against a base URL.
pub uninterp spec fn url_is_relative(s: Seq<char>) -> bool;

/// The serialization of the URL that `url::Url::join` yields when
/// `href` is resolved against the URL parsed from `base`; `None` when
/// `base` does not parse or the join fails.
pub uninterp spec fn url_join(base: Seq<char>, href: Seq<char>) -> Option<Seq<char>>;

/// The serialization of the URL parsed from `u` once
/// `url::Url::set_fragment(None)` has cleared its fragment.
pub uninterp spec fn strip_fragment(u: Seq<char>) -> Seq<char>;

/// A serialized URL carries a fragment exactly when it holds a `#`
/// character, because the serializer percent-encodes `#` in every
/// component that comes before the fragment.
pub open spec fn fragment_free(s: Seq<char>) -> bool {
    forall|i: int| 0 <= i < s.len() ==> s[i] != '#'
}

/// How one raw href fares as an absolute URL of its own.
enum HrefParse {
    /// The href is an absolute URL; the field is its serialization.
    Absolute(String),
    /// The href is a relative reference, to be joined against a base.
    Relative,
    /// The href is malformed beyond resolving.
    Malformed,
}

/// Relies on `url::Url::parse` and `url::Url::as_str`: parsing is a
/// pure function of the input, `as_str` is the parsed URL's
/// serialization, and a serialization parses back to a URL that
/// serializes identically (the round trip the crate's `as_str` and
/// `FromStr` documentation shows and its internal invariants assume).
#[verifier::external_body]
fn parse_absolute(s: &str) -> (r: HrefParse)
    ensures
        (r matches HrefParse::Absolute(t) ==> url_ok(s@) == Some(t@) && url_ok(t@) == Some(t@)),
        (r is Relative ==> url_ok(s@) is None && url_is_relative(s@)),
        (r is Malformed ==> url_ok(s@) is None && !url_is_relative(s@)),
{
    match url::Url::parse(s) {
        Ok(u) => HrefParse::Absolute(u.as_str().to_string()),
        Err(url::ParseError::RelativeUrlWithoutBase) => HrefParse::Relative,
        Err(_) => HrefParse::Malformed,
    }
}

/// Relies on `url::Url::join`: resolving `href` against the URL parsed
/// from `base` is a pure function of the two strings, and the joined
/// URL's serialization parses back to itself (same round trip as above).
#[verifier::external_body]
fn join_absolute(base: &str, href: &str) -> (r: Option<String>)
    ensures
        (r matches Some(t) ==> url_join(base@, href@) == Some(t@) && url_ok(t@) == Some(t@)),
        (r is None ==> url_join(base@, href@) is None),
{
    match url::Url::parse(base) {
        Ok(b) => match b.join(href) {
            Ok(u) => Some(u.as_str().to_string()),
            Err(_) => None,
        },
        Err(_) => None,
    }
}

/// Relies on `url::Url::set_fragment(None)`: it removes the `#` and
/// everything after it and touches nothing else, so the result has no
/// raw `#` left (the serializer percent-encodes `#` outside fragments),
/// still parses, and a fragment-free serialization comes back unchanged.
#[verifier::external_body]
fn clear_fragment(u: &str) -> (r: Option<String>)
    ensures
        (r matches Some(t) ==> t@ == strip_fragment(u@) && url_ok(t@) == Some(t@)
            && fragment_free(t@)),
        (r matches Some(t) ==> (url_ok(u@) == Some(u@) && fragment_free(u@) ==> t@ == u@)),
        (r is None ==> url_ok(u@) is None),
{
    match url::Url::parse(u) {
        Ok(mut p) => {
            p.set_fragment(None);
            Some(p.as_str().to_string())
        }
        Err(_) => None,
    }
}

/// An absolute URL in the normal form the `url` crate's parser
/// produces: the resolution context for every relative href of one
/// document. Immutable once parsed.
pub struct BaseUrl {
    text: String,
}

impl View for BaseUrl {
    type V = Seq<char>;

    closed spec fn view(&self) -> Seq<char> {
        self.text@
    }
}

impl BaseUrl {
    /// Well-formedness: the text is a parser serialization, so parsing
    /// it back yields exactly this text.
    pub open spec fn wf(&self) -> bool {
        url_ok(self@) == Some(self@)
    }

    /// Parse a URL string into a base URL. Returns `Some` exactly when
    /// the string parses as an absolute URL; the stored text is the
    /// parsed URL's serialization.
    pub fn parse(s: &str) -> (r: Option<BaseUrl>)
        ensures
            (r matches Some(b) ==> url_ok(s@) == Some(b@) && b.wf()),
            (r is None ==> url_ok(s@) is None),
    {
        match parse_absolute(s) {
            HrefParse::Absolute(t) => Some(BaseUrl { text: t }),
            HrefParse::Relative => None,
            HrefParse::Malformed => None,
        }
    }

    /// The base URL's text.
    pub fn as_str(&self) -> (r: &str)
        ensures
            r@ == self@,
    {
        self.text.as_str()
    }
}

/// One link extracted from a document: an absolute URL whose fragment
/// has been stripped.
#[derive(Debug)]
pub struct ResolvedLink {
    text: String,
}

impl View for ResolvedLink {
    type V = Seq<char>;

    closed spec fn view(&self) -> Seq<char> {
        self.text@
    }
}

impl ResolvedLink {
    /// Invariant of every emitted link: a syntactically valid absolute
    /// URL in normal form, carrying no fragment.
    pub open spec fn wf(&self) -> bool {
        url_ok(self@) == Some(self@) && fragment_free(self@)
    }

    /// The link's text.
    pub fn as_str(&self) -> (r: &str)
        ensures
            r@ == self@,
    {
        self.text.as_str()
    }
}

/// What one href resolves to against a base: an absolute href stands on
/// its own, a relative reference is joined against the base, and in
/// both cases the fragment is stripped; `None` when the href is
/// malformed or the join fails, and such an href is skipped.
pub open spec fn resolve_href(base: Seq<char>, href: Seq<char>) -> Option<Seq<char>> {
    match url_ok(href) {
        Some(t) => Some(strip_fragment(t)),
        None => if url_is_relative(href) {
            match url_join(base, href) {
                Some(t) => Some(strip_fragment(t)),
                None => None,
            }
        } else {
            None
        },
    }
}

/// Resolve one raw href against the base URL, or report that it is to
/// be skipped. An href that is already an absolute URL without a
/// fragment comes through unchanged, up to the parser's normal form.
pub fn resolve(base: &BaseUrl, href: &str) -> (r: Option<ResolvedLink>)
    ensures
        (match r {
            Some(l) => resolve_href(base@, href@) == Some(l@) && l.wf(),
            None => resolve_href(base@, href@) is None,
        }),
        (url_ok(href@) matches Some(t) ==> (fragment_free(t) ==> (r matches Some(l) && l@ == t))),
{
    match parse_absolute(href) {
        HrefParse::Absolute(t) => match clear_fragment(t.as_str()) {
            Some(s) => Some(ResolvedLink { text: s }),
            None => None,
        },
        HrefParse::Relative => match join_absolute(base.as_str(), href) {
            Some(t) => match clear_fragment(t.as_str()) {
                Some(s) => Some(ResolvedLink { text: s }),
                None => None,
            },
            None => None,
        },
        HrefParse::Malformed => None,
    }
}

/// Law: an href that is itself an absolute URL resolves the same way
/// against any base — the base plays no part in its resolution.
pub proof fn lemma_absolute_href_ignores_base(b1: Seq<char>, b2: Seq<char>, href: Seq<char>)
    requires
        url_ok(href) is Some,
    ensures
        resolve_href(b1, href) == resolve_href(b2, href),
{
}

} // verus!
