//! Query builder for searching volumes in the remote book catalog.
//!
//! A query accumulates a search term and optional parameters, and renders
//! them into one canonical request URL. Constructors seed the term with a
//! fixed field prefix; conjunctions append further predicates in call
//! order; option setters overwrite their own option and nothing else.

use vstd::prelude::*;
use vstd::string::StringExecFns;

use crate::encoding::pct_encode_component;
use crate::encoding::pct_encode_path_segment;
use crate::encoding::push_dec_i32;
use crate::encoding::spec_dec_i32;
use crate::encoding::spec_pct_encode;
use crate::encoding::spec_pct_encode_path;
use crate::errors::AppError;

verus! {

/// Response-size mode requested from the remote service.
#[derive(Debug, Clone)]
pub enum Projection {
    /// Includes all volume metadata.
    Full,
    /// Includes only essential metadata and access information.
    Lite,
}

impl Projection {
    /// The word this mode renders to in a query parameter.
    pub open spec fn spec_value(&self) -> Seq<char> {
        match *self {
            Projection::Full => "full"@,
            Projection::Lite => "lite"@,
        }
    }

    /// Renders the mode as its query-parameter value.
    pub fn query_value(&self) -> (r: String)
        ensures
            r@ == self.spec_value(),
    {
        match *self {
            Projection::Full => String::from_str("full"),
            Projection::Lite => String::from_str("lite"),
        }
    }
}

/// Content-category filter for results.
#[derive(Debug, Clone)]
pub enum PrintType {
    /// Returns all content types.
    All,
    /// Returns only books.
    Books,
    /// Returns only magazines.
    Magazines,
}

impl PrintType {
    /// The word this filter renders to in a query parameter.
    pub open spec fn spec_value(&self) -> Seq<char> {
        match *self {
            PrintType::All => "all"@,
            PrintType::Books => "books"@,
            PrintType::Magazines => "magazines"@,
        }
    }

    /// Renders the filter as its query-parameter value.
    pub fn query_value(&self) -> (r: String)
        ensures
            r@ == self.spec_value(),
    {
        match *self {
            PrintType::All => String::from_str("all"),
            PrintType::Books => String::from_str("books"),
            PrintType::Magazines => String::from_str("magazines"),
        }
    }
}

/// The term a constructor builds from a field prefix and a value.
pub open spec fn spec_ctor_term(prefix: Seq<char>, value: Seq<char>) -> Seq<char> {
    prefix + ":"@ + value
}

/// The term after a conjunction appends one more predicate.
pub open spec fn spec_and_term(term: Seq<char>, prefix: Seq<char>, value: Seq<char>) -> Seq<char> {
    term + " "@ + prefix + ":"@ + value
}

/// Query for searching volumes, built fluently: every operation except
/// the constructors returns the updated query.
#[derive(Debug, Clone)]
pub struct VolumeQuery {
    /// Full-text search query string.
    pub q: String,
    /// Maximum number of results to return.
    pub max_results: Option<i32>,
    /// Starting position in results, for pagination.
    pub start_index: Option<i32>,
    /// Language code to filter results, such as "fr" or "en".
    pub lang_restrict: Option<String>,
    /// Metadata projection type.
    pub projection: Option<Projection>,
    /// Print type to filter results.
    pub print_type: Option<PrintType>,
}

impl VolumeQuery {
    /// A query is well formed when its term is not empty; every
    /// constructor establishes this and every operation preserves it.
    pub open spec fn wf(self) -> bool {
        self.q@.len() > 0
    }

    /// Creates a new query with a custom search string; an empty seed
    /// string is rejected.
    pub fn new(search: &str) -> (r: Result<VolumeQuery, AppError>)
        ensures
            match r {
                Ok(q) => search@.len() > 0 && q.q@ == search@ && q.max_results is None
                    && q.start_index is None && q.lang_restrict is None && q.projection is None
                    && q.print_type is None && q.wf(),
                Err(e) => search@.len() == 0 && (e matches AppError::InvalidArgument { .. }),
            },
    {
        if search.is_empty() {
            Err(AppError::InvalidArgument { message: String::from_str("empty seed search string") })
        } else {
            Ok(
                VolumeQuery {
                    q: String::from_str(search),
                    max_results: None,
                    start_index: None,
                    lang_restrict: None,
                    projection: None,
                    print_type: None,
                },
            )
        }
    }

    /// Seeds a query with `<prefix>:<value>`, which is never empty.
    fn prefixed(prefix: &str, value: &str) -> (r: VolumeQuery)
        ensures
            r.q@ == spec_ctor_term(prefix@, value@),
            r.max_results is None,
            r.start_index is None,
            r.lang_restrict is None,
            r.projection is None,
            r.print_type is None,
            r.wf(),
    {
        let mut q = String::from_str(prefix);
        q.append(":");
        q.append(value);
        proof {
            reveal_strlit(":");
        }
        VolumeQuery {
            q,
            max_results: None,
            start_index: None,
            lang_restrict: None,
            projection: None,
            print_type: None,
        }
    }

    /// Creates a search query by ISBN.
    pub fn isbn(isbn: &str) -> (r: Self)
        ensures
            r.q@ == spec_ctor_term("isbn"@, isbn@),
            r.max_results is None && r.start_index is None && r.lang_restrict is None
                && r.projection is None && r.print_type is None,
            r.wf(),
    {
        Self::prefixed("isbn", isbn)
    }

    /// Creates a search query by title.
    pub fn title(title: &str) -> (r: Self)
        ensures
            r.q@ == spec_ctor_term("intitle"@, title@),
            r.max_results is None && r.start_index is None && r.lang_restrict is None
                && r.projection is None && r.print_type is None,
            r.wf(),
    {
        Self::prefixed("intitle", title)
    }

    /// Creates a search query by author.
    pub fn author(author: &str) -> (r: Self)
        ensures
            r.q@ == spec_ctor_term("inauthor"@, author@),
            r.max_results is None && r.start_index is None && r.lang_restrict is None
                && r.projection is None && r.print_type is None,
            r.wf(),
    {
        Self::prefixed("inauthor", author)
    }

    /// Creates a search query by publisher.
    pub fn publisher(publisher: &str) -> (r: Self)
        ensures
            r.q@ == spec_ctor_term("inpublisher"@, publisher@),
            r.max_results is None && r.start_index is None && r.lang_restrict is None
                && r.projection is None && r.print_type is None,
            r.wf(),
    {
        Self::prefixed("inpublisher", publisher)
    }

    /// Creates a search query by subject.
    pub fn subject(subject: &str) -> (r: Self)
        ensures
            r.q@ == spec_ctor_term("subject"@, subject@),
            r.max_results is None && r.start_index is None && r.lang_restrict is None
                && r.projection is None && r.print_type is None,
            r.wf(),
    {
        Self::prefixed("subject", subject)
    }

    /// Creates a search query by Library of Congress control number.
    pub fn lccn(lccn: &str) -> (r: Self)
        ensures
            r.q@ == spec_ctor_term("lccn"@, lccn@),
            r.max_results is None && r.start_index is None && r.lang_restrict is None
                && r.projection is None && r.print_type is None,
            r.wf(),
    {
        Self::prefixed("lccn", lccn)
    }

    /// Creates a search query by OCLC number.
    pub fn oclc(oclc: &str) -> (r: Self)
        ensures
            r.q@ == spec_ctor_term("oclc"@, oclc@),
            r.max_results is None && r.start_index is None && r.lang_restrict is None
                && r.projection is None && r.print_type is None,
            r.wf(),
    {
        Self::prefixed("oclc", oclc)
    }

    /// Appends ` <prefix>:<value>` to the term, preserving every option.
    fn and_prefixed(self, prefix: &str, value: &str) -> (r: VolumeQuery)
        ensures
            r.q@ == spec_and_term(self.q@, prefix@, value@),
            r.max_results == self.max_results,
            r.start_index == self.start_index,
            r.lang_restrict == self.lang_restrict,
            r.projection == self.projection,
            r.print_type == self.print_type,
            r.wf(),
    {
        let mut q = self.q;
        q.append(" ");
        q.append(prefix);
        q.append(":");
        q.append(value);
        proof {
            reveal_strlit(" ");
            reveal_strlit(":");
        }
        VolumeQuery {
            q,
            max_results: self.max_results,
            start_index: self.start_index,
            lang_restrict: self.lang_restrict,
            projection: self.projection,
            print_type: self.print_type,
        }
    }

    /// Appends an ISBN predicate to the term.
    pub fn and_isbn(self, isbn: &str) -> (r: Self)
        ensures
            r.q@ == spec_and_term(self.q@, "isbn"@, isbn@),
            r.max_results == self.max_results && r.start_index == self.start_index
                && r.lang_restrict == self.lang_restrict && r.projection == self.projection
                && r.print_type == self.print_type,
            r.wf(),
    {
        self.and_prefixed("isbn", isbn)
    }

    /// Appends a title predicate to the term.
    pub fn and_title(self, title: &str) -> (r: Self)
        ensures
            r.q@ == spec_and_term(self.q@, "intitle"@, title@),
            r.max_results == self.max_results && r.start_index == self.start_index
                && r.lang_restrict == self.lang_restrict && r.projection == self.projection
                && r.print_type == self.print_type,
            r.wf(),
    {
        self.and_prefixed("intitle", title)
    }

    /// Appends an author predicate to the term.
    pub fn and_author(self, author: &str) -> (r: Self)
        ensures
            r.q@ == spec_and_term(self.q@, "inauthor"@, author@),
            r.max_results == self.max_results && r.start_index == self.start_index
                && r.lang_restrict == self.lang_restrict && r.projection == self.projection
                && r.print_type == self.print_type,
            r.wf(),
    {
        self.and_prefixed("inauthor", author)
    }

    /// Appends a publisher predicate to the term.
    pub fn and_publisher(self, publisher: &str) -> (r: Self)
        ensures
            r.q@ == spec_and_term(self.q@, "inpublisher"@, publisher@),
            r.max_results == self.max_results && r.start_index == self.start_index
                && r.lang_restrict == self.lang_restrict && r.projection == self.projection
                && r.print_type == self.print_type,
            r.wf(),
    {
        self.and_prefixed("inpublisher", publisher)
    }

    /// Appends a subject predicate to the term.
    pub fn and_subject(self, subject: &str) -> (r: Self)
        ensures
            r.q@ == spec_and_term(self.q@, "subject"@, subject@),
            r.max_results == self.max_results && r.start_index == self.start_index
                && r.lang_restrict == self.lang_restrict && r.projection == self.projection
                && r.print_type == self.print_type,
            r.wf(),
    {
        self.and_prefixed("subject", subject)
    }

    /// Appends a Library of Congress control number predicate to the term.
    pub fn and_lccn(self, lccn: &str) -> (r: Self)
        ensures
            r.q@ == spec_and_term(self.q@, "lccn"@, lccn@),
            r.max_results == self.max_results && r.start_index == self.start_index
                && r.lang_restrict == self.lang_restrict && r.projection == self.projection
                && r.print_type == self.print_type,
            r.wf(),
    {
        self.and_prefixed("lccn", lccn)
    }

    /// Appends an OCLC number predicate to the term.
    pub fn and_oclc(self, oclc: &str) -> (r: Self)
        ensures
            r.q@ == spec_and_term(self.q@, "oclc"@, oclc@),
            r.max_results == self.max_results && r.start_index == self.start_index
                && r.lang_restrict == self.lang_restrict && r.projection == self.projection
                && r.print_type == self.print_type,
            r.wf(),
    {
        self.and_prefixed("oclc", oclc)
    }

    /// Sets the maximum number of results; a later call overwrites an
    /// earlier one, and the value is passed through unvalidated.
    pub fn max_results(self, max: i32) -> (r: Self)
        ensures
            r == (VolumeQuery { max_results: Some(max), ..self }),
    {
        VolumeQuery { max_results: Some(max), ..self }
    }

    /// Sets the starting position in the results.
    pub fn start_index(self, index: i32) -> (r: Self)
        ensures
            r == (VolumeQuery { start_index: Some(index), ..self }),
    {
        VolumeQuery { start_index: Some(index), ..self }
    }

    /// Sets the language-restriction code, unvalidated.
    pub fn lang_restrict(self, lang: String) -> (r: Self)
        ensures
            r == (VolumeQuery { lang_restrict: Some(lang), ..self }),
    {
        VolumeQuery { lang_restrict: Some(lang), ..self }
    }

    /// Sets the metadata projection.
    pub fn projection(self, projection: Projection) -> (r: Self)
        ensures
            r == (VolumeQuery { projection: Some(projection), ..self }),
    {
        VolumeQuery { projection: Some(projection), ..self }
    }

    /// Sets the print-type filter.
    pub fn print_type(self, print_type: PrintType) -> (r: Self)
        ensures
            r == (VolumeQuery { print_type: Some(print_type), ..self }),
    {
        VolumeQuery { print_type: Some(print_type), ..self }
    }

    /// Builds the final request URL for this query.
    ///
    /// The URL is the base, the fixed volumes path, and the query string:
    /// `q` first with the percent-encoded term, then each optional
    /// parameter in a fixed order and only if set, then the API key if
    /// one is given. The projection and the print type render under the
    /// two distinct parameter names `projection` and `printType`, so one
    /// can never overwrite the other. Fails only when the resulting text
    /// is not a valid URL, which a well-formed base never produces.
    #[verifier::rlimit(100)]
    pub fn build_url(&self, base: &str, api_key: Option<&str>) -> (r: Result<String, AppError>)
        ensures
            ({
                let u = spec_build_url(*self, base@, spec_opt_str_view(api_key));
                match r {
                    Ok(s) => url_parse_accepts(u) && s@ == u,
                    Err(e) => !url_parse_accepts(u) && (e matches AppError::UrlConstruction {
                        message,
                    } && message@ == u),
                }
            }),
    {
        let mut url = String::from_str(base);
        url.append("/books/v1/volumes");
        url.append("?q=");
        let encoded_term = pct_encode_component(self.q.as_str());
        url.append(encoded_term.as_str());
        append_max_results(&mut url, self.max_results);
        append_start_index(&mut url, self.start_index);
        append_lang(&mut url, &self.lang_restrict);
        append_projection(&mut url, &self.projection);
        append_print_type(&mut url, &self.print_type);
        append_key(&mut url, api_key);
        proof {
            assert(url@ =~= spec_build_url(*self, base@, spec_opt_str_view(api_key)));
        }
        if url_is_valid(url.as_str()) {
            Ok(url)
        } else {
            Err(AppError::UrlConstruction { message: url })
        }
    }
}

/// Appends the `maxResults` parameter when it is set.
fn append_max_results(url: &mut String, opt: Option<i32>)
    ensures
        final(url)@ == old(url)@ + spec_max_results_part(opt),
{
    match opt {
        Some(max) => {
            url.append("&maxResults=");
            push_dec_i32(url, max);
            proof {
                assert(url@ =~= old(url)@ + spec_max_results_part(opt));
            }
        },
        None => {
            proof {
                assert(url@ =~= old(url)@ + spec_max_results_part(opt));
            }
        },
    }
}

/// Appends the `startIndex` parameter when it is set.
fn append_start_index(url: &mut String, opt: Option<i32>)
    ensures
        final(url)@ == old(url)@ + spec_start_index_part(opt),
{
    match opt {
        Some(index) => {
            url.append("&startIndex=");
            push_dec_i32(url, index);
            proof {
                assert(url@ =~= old(url)@ + spec_start_index_part(opt));
            }
        },
        None => {
            proof {
                assert(url@ =~= old(url)@ + spec_start_index_part(opt));
            }
        },
    }
}

/// Appends the `langRestrict` parameter when it is set.
fn append_lang(url: &mut String, opt: &Option<String>)
    ensures
        final(url)@ == old(url)@ + spec_lang_part(*opt),
{
    match opt {
        Some(lang) => {
            url.append("&langRestrict=");
            let encoded = pct_encode_component(lang.as_str());
            url.append(encoded.as_str());
            proof {
                assert(url@ =~= old(url)@ + spec_lang_part(*opt));
            }
        },
        None => {
            proof {
                assert(url@ =~= old(url)@ + spec_lang_part(*opt));
            }
        },
    }
}

/// Appends the `projection` parameter when it is set.
fn append_projection(url: &mut String, opt: &Option<Projection>)
    ensures
        final(url)@ == old(url)@ + spec_projection_part(*opt),
{
    match opt {
        Some(projection) => {
            url.append("&projection=");
            let value = projection.query_value();
            url.append(value.as_str());
            proof {
                assert(url@ =~= old(url)@ + spec_projection_part(*opt));
            }
        },
        None => {
            proof {
                assert(url@ =~= old(url)@ + spec_projection_part(*opt));
            }
        },
    }
}

/// Appends the `printType` parameter when it is set.
fn append_print_type(url: &mut String, opt: &Option<PrintType>)
    ensures
        final(url)@ == old(url)@ + spec_print_type_part(*opt),
{
    match opt {
        Some(print_type) => {
            url.append("&printType=");
            let value = print_type.query_value();
            url.append(value.as_str());
            proof {
                assert(url@ =~= old(url)@ + spec_print_type_part(*opt));
            }
        },
        None => {
            proof {
                assert(url@ =~= old(url)@ + spec_print_type_part(*opt));
            }
        },
    }
}

/// Appends the `key` parameter when an API key is configured.
fn append_key(url: &mut String, key: Option<&str>)
    ensures
        final(url)@ == old(url)@ + spec_key_part(spec_opt_str_view(key)),
{
    match key {
        Some(k) => {
            url.append("&key=");
            let encoded = pct_encode_component(k);
            url.append(encoded.as_str());
            proof {
                assert(url@ =~= old(url)@ + spec_key_part(spec_opt_str_view(key)));
            }
        },
        None => {
            proof {
                assert(url@ =~= old(url)@ + spec_key_part(spec_opt_str_view(key)));
            }
        },
    }
}

/// The view of an optional borrowed string.
pub open spec fn spec_opt_str_view(o: Option<&str>) -> Option<Seq<char>> {
    match o {
        Some(s) => Some(s@),
        None => None,
    }
}

/// The `maxResults` parameter, present exactly when the option is set.
pub open spec fn spec_max_results_part(opt: Option<i32>) -> Seq<char> {
    match opt {
        Some(max) => "&maxResults="@ + spec_dec_i32(max as int),
        None => Seq::empty(),
    }
}

/// The `startIndex` parameter, present exactly when the option is set.
pub open spec fn spec_start_index_part(opt: Option<i32>) -> Seq<char> {
    match opt {
        Some(index) => "&startIndex="@ + spec_dec_i32(index as int),
        None => Seq::empty(),
    }
}

/// The `langRestrict` parameter, present exactly when the option is set.
pub open spec fn spec_lang_part(opt: Option<String>) -> Seq<char> {
    match opt {
        Some(lang) => "&langRestrict="@ + spec_pct_encode(lang@),
        None => Seq::empty(),
    }
}

/// The `projection` parameter, present exactly when the option is set.
pub open spec fn spec_projection_part(opt: Option<Projection>) -> Seq<char> {
    match opt {
        Some(projection) => "&projection="@ + projection.spec_value(),
        None => Seq::empty(),
    }
}

/// The `printType` parameter, present exactly when the option is set.
pub open spec fn spec_print_type_part(opt: Option<PrintType>) -> Seq<char> {
    match opt {
        Some(print_type) => "&printType="@ + print_type.spec_value(),
        None => Seq::empty(),
    }
}

/// The `key` parameter, present exactly when an API key is configured.
pub open spec fn spec_key_part(key: Option<Seq<char>>) -> Seq<char> {
    match key {
        Some(k) => "&key="@ + spec_pct_encode(k),
        None => Seq::empty(),
    }
}

/// The optional parameters in their fixed order.
pub open spec fn spec_query_options(q: VolumeQuery, key: Option<Seq<char>>) -> Seq<char> {
    spec_max_results_part(q.max_results) + spec_start_index_part(q.start_index) + spec_lang_part(
        q.lang_restrict,
    ) + spec_projection_part(q.projection) + spec_print_type_part(q.print_type) + spec_key_part(key)
}

/// The full request URL a query renders to.
pub open spec fn spec_build_url(q: VolumeQuery, base: Seq<char>, key: Option<Seq<char>>) -> Seq<
    char,
> {
    base + "/books/v1/volumes"@ + "?q="@ + spec_pct_encode(q.q@) + spec_query_options(q, key)
}

/// The request URL for fetching one volume by its identifier.
pub open spec fn spec_volume_url(base: Seq<char>, id: Seq<char>) -> Seq<char> {
    base + "/books/v1/volumes/"@ + spec_pct_encode_path(id)
}

/// Whether a URL string is accepted by the URL parser; acceptance
/// depends on the text alone.
pub uninterp spec fn url_parse_accepts(s: Seq<char>) -> bool;

/// Relies on reqwest::Url::parse: it accepts or rejects a URL string as
/// a function of the text alone.
#[verifier::external_body]
fn url_is_valid(s: &str) -> (r: bool)
    ensures
        r == url_parse_accepts(s@),
{
    reqwest::Url::parse(s).is_ok()
}

/// Builds the request URL for fetching one volume by its identifier,
/// `<base>/books/v1/volumes/<id>` with the identifier carrying standard
/// path-segment encoding and nothing more. An empty identifier is
/// rejected.
pub fn build_volume_url(base: &str, id: &str) -> (r: Result<String, AppError>)
    ensures
        match r {
            Ok(u) => id@.len() > 0 && url_parse_accepts(spec_volume_url(base@, id@)) && u@
                == spec_volume_url(base@, id@),
            Err(e) => if id@.len() == 0 {
                e matches AppError::InvalidArgument { .. }
            } else {
                !url_parse_accepts(spec_volume_url(base@, id@)) && (e
                    matches AppError::UrlConstruction { message } && message@ == spec_volume_url(
                    base@,
                    id@,
                ))
            },
        },
{
    if id.is_empty() {
        return Err(AppError::InvalidArgument { message: String::from_str("empty volume id") });
    }
    let mut url = String::from_str(base);
    url.append("/books/v1/volumes/");
    let encoded = pct_encode_path_segment(id);
    url.append(encoded.as_str());
    proof {
        assert(url@ =~= spec_volume_url(base@, id@));
    }
    if url_is_valid(url.as_str()) {
        Ok(url)
    } else {
        Err(AppError::UrlConstruction { message: url })
    }
}

/// Chaining a conjunction after a constructor keeps the predicates in
/// call order: the combined term is the first predicate, one space, then
/// the second predicate.
pub proof fn lemma_chain_keeps_order(
    prefix1: Seq<char>,
    value1: Seq<char>,
    prefix2: Seq<char>,
    value2: Seq<char>,
)
    ensures
        spec_and_term(spec_ctor_term(prefix1, value1), prefix2, value2) == spec_ctor_term(
            prefix1,
            value1,
        ) + " "@ + spec_ctor_term(prefix2, value2),
{
    assert(spec_and_term(spec_ctor_term(prefix1, value1), prefix2, value2) =~= spec_ctor_term(
        prefix1,
        value1,
    ) + " "@ + spec_ctor_term(prefix2, value2));
}

/// The URL a query builds always carries `q=` with the percent-encoded
/// term as its first parameter, and each optional parameter appears in
/// the fixed order, exactly when it is set.
pub proof fn lemma_build_url_shape(q: VolumeQuery, base: Seq<char>, key: Option<Seq<char>>)
    ensures
        spec_build_url(q, base, key) == base + "/books/v1/volumes"@ + "?q="@ + spec_pct_encode(q.q@)
            + spec_max_results_part(q.max_results) + spec_start_index_part(q.start_index)
            + spec_lang_part(q.lang_restrict) + spec_projection_part(q.projection)
            + spec_print_type_part(q.print_type) + spec_key_part(key),
        q.max_results is None <==> spec_max_results_part(q.max_results) == Seq::<char>::empty(),
        q.start_index is None <==> spec_start_index_part(q.start_index) == Seq::<char>::empty(),
        q.lang_restrict is None <==> spec_lang_part(q.lang_restrict) == Seq::<char>::empty(),
        q.projection is None <==> spec_projection_part(q.projection) == Seq::<char>::empty(),
        q.print_type is None <==> spec_print_type_part(q.print_type) == Seq::<char>::empty(),
        key is None <==> spec_key_part(key) == Seq::<char>::empty(),
{
    assert(spec_build_url(q, base, key) =~= base + "/books/v1/volumes"@ + "?q="@ + spec_pct_encode(
        q.q@,
    ) + spec_max_results_part(q.max_results) + spec_start_index_part(q.start_index) + spec_lang_part(
        q.lang_restrict,
    ) + spec_projection_part(q.projection) + spec_print_type_part(q.print_type) + spec_key_part(
        key,
    ));
    lemma_part_nonempty_when_set(q, key);
}

/// Each optional parameter renders to text beginning with `&`, so a set
/// option never renders to the empty string.
proof fn lemma_part_nonempty_when_set(q: VolumeQuery, key: Option<Seq<char>>)
    ensures
        q.max_results is Some ==> spec_max_results_part(q.max_results).len() > 0,
        q.start_index is Some ==> spec_start_index_part(q.start_index).len() > 0,
        q.lang_restrict is Some ==> spec_lang_part(q.lang_restrict).len() > 0,
        q.projection is Some ==> spec_projection_part(q.projection).len() > 0,
        q.print_type is Some ==> spec_print_type_part(q.print_type).len() > 0,
        key is Some ==> spec_key_part(key).len() > 0,
{
    reveal_strlit("&maxResults=");
    reveal_strlit("&startIndex=");
    reveal_strlit("&langRestrict=");
    reveal_strlit("&projection=");
    reveal_strlit("&printType=");
    reveal_strlit("&key=");
}

/// Building a URL is a pure function of the query, the base and the key:
/// two runs on the same inputs yield identical text.
pub proof fn lemma_build_url_deterministic(
    q: VolumeQuery,
    base: Seq<char>,
    key: Option<Seq<char>>,
    url1: Seq<char>,
    url2: Seq<char>,
)
    requires
        url1 == spec_build_url(q, base, key),
        url2 == spec_build_url(q, base, key),
    ensures
        url1 == url2,
{
}

} // verus!
