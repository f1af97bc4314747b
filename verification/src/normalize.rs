//! URL normalization and the address of the ownership marker.
//!
//! A raw string is parsed as an absolute URL and its scheme is looked at: that
//! gives a [`NormalizedUrl`]. The marker's address is derived from the same
//! string: the URL it parses to, with two segments appended to its path.
//! Parsing and serializing are the `url` crate's. What it makes of a string
//! goes by the names [`url_parse`] and [`url_with_segments`] here, and the
//! rules are stated over those.

use vstd::prelude::*;
use vstd::utf8::*;
use crate::text::same_text;

verus! {

/// The first path segment of the marker's address.
pub const WELL_KNOWN_SEGMENT: &'static str = ".well-known";

/// The marker's file name, the last path segment of its address.
pub const MARKER_FILE: &'static str = "girl.technology";

/// The longest text, in bytes, from which a marker address is derived: 16 MiB.
/// The parser keeps positions in 32 bits, and what it serializes can be many
/// times as long as what it was given: percent-encoding makes three bytes of
/// one, and a host that is mapped and then encoded as Punycode grows more
/// than that. This bound leaves room for a serialization 255 times as long as
/// the text, and for the two segments.
pub const MAX_URL_BYTES: usize = 0x100_0000;

/// What the rules read of a parsed URL.
#[derive(Debug, PartialEq, Eq)]
pub struct ParsedUrl {
    /// The scheme, lower-cased, without the `:`.
    pub scheme: String,
    /// The serialization of the whole URL.
    pub href: String,
    /// The serialization up to the path: scheme, credentials, host and port.
    pub before_path: String,
    /// The path.
    pub path: String,
    /// The serialization after the path: query and fragment with their marks.
    pub after_path: String,
    /// Whether the URL has no hierarchical path, as `mailto:` and `data:` URLs.
    pub cannot_be_a_base: bool,
}

/// What is wrong with a string that does not give a usable URL.
#[derive(Debug, PartialEq, Eq)]
pub enum UrlDefect {
    /// The parser refused the string; its diagnostic is kept.
    Parse(String),
    /// The URL has no hierarchical path to append segments to.
    NoPath,
    /// The text is longer than [`MAX_URL_BYTES`].
    TooLong,
}

/// Why a string gives no URL to fetch a marker below.
#[derive(Debug, PartialEq, Eq)]
pub enum UrlError {
    /// The string is no URL that a marker can be fetched below.
    InvalidUrl(UrlDefect),
    /// The URL is well-formed but its scheme, kept here, is neither `http` nor `https`.
    InvalidScheme(String),
}

/// A URL whose scheme is `http` or `https`.
#[derive(Debug, PartialEq, Eq)]
pub struct NormalizedUrl {
    scheme: String,
    href: String,
}

/// The mathematical value of a [`ParsedUrl`].
pub ghost struct ParsedUrlView {
    pub scheme: Seq<char>,
    pub href: Seq<char>,
    pub before_path: Seq<char>,
    pub path: Seq<char>,
    pub after_path: Seq<char>,
    pub cannot_be_a_base: bool,
}

/// The mathematical value of a [`UrlDefect`].
pub ghost enum UrlDefectView {
    Parse(Seq<char>),
    NoPath,
    TooLong,
}

/// The mathematical value of a [`UrlError`].
pub ghost enum UrlErrorView {
    InvalidUrl(UrlDefectView),
    InvalidScheme(Seq<char>),
}

/// The mathematical value of a [`NormalizedUrl`].
pub ghost struct NormalizedUrlView {
    /// The scheme: `http` or `https`.
    pub scheme: Seq<char>,
    /// The serialization of the URL as submitted: the key it is stored under.
    pub href: Seq<char>,
}

impl View for ParsedUrl {
    type V = ParsedUrlView;

    open spec fn view(&self) -> ParsedUrlView {
        ParsedUrlView {
            scheme: self.scheme@,
            href: self.href@,
            before_path: self.before_path@,
            path: self.path@,
            after_path: self.after_path@,
            cannot_be_a_base: self.cannot_be_a_base,
        }
    }
}

impl View for UrlDefect {
    type V = UrlDefectView;

    open spec fn view(&self) -> UrlDefectView {
        match self {
            UrlDefect::Parse(d) => UrlDefectView::Parse(d@),
            UrlDefect::NoPath => UrlDefectView::NoPath,
            UrlDefect::TooLong => UrlDefectView::TooLong,
        }
    }
}

impl View for UrlError {
    type V = UrlErrorView;

    open spec fn view(&self) -> UrlErrorView {
        match self {
            UrlError::InvalidUrl(d) => UrlErrorView::InvalidUrl(d@),
            UrlError::InvalidScheme(s) => UrlErrorView::InvalidScheme(s@),
        }
    }
}

impl View for NormalizedUrl {
    type V = NormalizedUrlView;

    closed spec fn view(&self) -> NormalizedUrlView {
        NormalizedUrlView { scheme: self.scheme@, href: self.href@ }
    }
}

/// The view of a parser outcome.
pub open spec fn parsed_view(r: Result<ParsedUrl, String>) -> Result<ParsedUrlView, Seq<char>> {
    match r {
        Ok(p) => Ok(p@),
        Err(d) => Err(d@),
    }
}

/// The view of an optional text.
pub open spec fn text_view(r: Option<String>) -> Option<Seq<char>> {
    match r {
        Some(m) => Some(m@),
        None => None,
    }
}

/// The view of a marker derivation.
pub open spec fn marker_view(r: Result<String, UrlDefect>) -> Result<Seq<char>, UrlDefectView> {
    match r {
        Ok(m) => Ok(m@),
        Err(d) => Err(d@),
    }
}

/// The view of a normalization result.
pub open spec fn normalized_view(r: Result<NormalizedUrl, UrlError>) -> Result<
    NormalizedUrlView,
    UrlErrorView,
> {
    match r {
        Ok(u) => Ok(u@),
        Err(e) => Err(e@),
    }
}

/// What `url::Url::parse` makes of a string: what the rules read of the URL
/// it parses to, or the text of its diagnostic.
pub uninterp spec fn url_parse(raw: Seq<char>) -> Result<ParsedUrlView, Seq<char>>;

/// The serialization of the URL that `raw` parses to once `first` and
/// `second` are appended to its path by `url::PathSegmentsMut::extend`; `None`
/// where `raw` does not parse or the URL has no path to append to.
pub uninterp spec fn url_with_segments(raw: Seq<char>, first: Seq<char>, second: Seq<char>) -> Option<Seq<char>>;

/// The schemes a listing may have.
pub open spec fn is_web_scheme(scheme: Seq<char>) -> bool {
    scheme == "http"@ || scheme == "https"@
}

/// The parser read a URL with scheme `http` or `https`.
pub open spec fn is_web_url(parsed: Result<ParsedUrlView, Seq<char>>) -> bool {
    parsed matches Ok(p) && is_web_scheme(p.scheme)
}

/// The parser read a URL with a hierarchical path, to which segments can be
/// appended.
pub open spec fn has_path(parsed: Result<ParsedUrlView, Seq<char>>) -> bool {
    parsed matches Ok(p) && !p.cannot_be_a_base
}

/// The path of a parsed URL lies in its serialization between what stands
/// before it and what follows it.
pub open spec fn parts_make_href(url: ParsedUrlView) -> bool {
    url.href == url.before_path + url.path + url.after_path
}

/// The characters that stand in a path as they are: letters, digits, `-`, `.`
/// and `_`.
pub open spec fn is_plain_char(c: char) -> bool {
    ('a' <= c <= 'z') || ('A' <= c <= 'Z') || ('0' <= c <= '9') || c == '-' || c == '.' || c == '_'
}

/// A path segment that is appended as it is: not empty, made of plain
/// characters, and neither `.` nor `..`, which name no segment.
pub open spec fn is_plain_segment(s: Seq<char>) -> bool {
    &&& s.len() >= 1
    &&& forall|i: int| 0 <= i < s.len() ==> is_plain_char(#[trigger] s[i])
    &&& s != "."@
    &&& s != ".."@
}

/// A path with two segments appended. What stood in the path stays; a slash
/// parts it from the new segments unless it is the bare `/`.
pub open spec fn extended_path(path: Seq<char>, first: Seq<char>, second: Seq<char>) -> Seq<char> {
    if path == "/"@ {
        path + first + "/"@ + second
    } else {
        path + "/"@ + first + "/"@ + second
    }
}

/// The serialization of a parsed URL with two segments appended to its path:
/// what stands before the path (scheme, credentials, host, port) and what
/// follows it (query, fragment) are kept.
pub open spec fn with_segments(url: ParsedUrlView, first: Seq<char>, second: Seq<char>) -> Seq<char> {
    url.before_path + extended_path(url.path, first, second) + url.after_path
}

/// What becomes of a parser outcome once the scheme is looked at: a diagnostic
/// is an invalid URL, a scheme other than `http` and `https` is refused by
/// name, and every other URL is accepted.
pub open spec fn screened(parsed: Result<ParsedUrlView, Seq<char>>) -> Result<
    NormalizedUrlView,
    UrlErrorView,
> {
    match parsed {
        Err(d) => Err(UrlErrorView::InvalidUrl(UrlDefectView::Parse(d))),
        Ok(p) => if is_web_scheme(p.scheme) {
            Ok(NormalizedUrlView { scheme: p.scheme, href: p.href })
        } else {
            Err(UrlErrorView::InvalidScheme(p.scheme))
        },
    }
}

/// What normalization makes of a raw string.
pub open spec fn normalized(raw: Seq<char>) -> Result<NormalizedUrlView, UrlErrorView> {
    screened(url_parse(raw))
}

/// The marker's address below the URL that `raw` parses to: that URL with
/// [`WELL_KNOWN_SEGMENT`] and [`MARKER_FILE`] appended to its path.
pub open spec fn marker_of(raw: Seq<char>) -> Result<Seq<char>, UrlDefectView> {
    if encode_utf8(raw).len() > MAX_URL_BYTES {
        Err(UrlDefectView::TooLong)
    } else {
        match url_with_segments(raw, WELL_KNOWN_SEGMENT@, MARKER_FILE@) {
            Some(m) => Ok(m),
            None => Err(UrlDefectView::NoPath),
        }
    }
}

impl UrlErrorView {
    /// The text shown to the submitter.
    pub open spec fn message(self) -> Seq<char> {
        match self {
            UrlErrorView::InvalidUrl(UrlDefectView::Parse(d)) => "error parsing url: "@ + d,
            UrlErrorView::InvalidUrl(UrlDefectView::NoPath) => "url doesn't have a path: ()"@,
            UrlErrorView::InvalidUrl(UrlDefectView::TooLong) => "url is too long"@,
            UrlErrorView::InvalidScheme(s) => "invalid url scheme "@ + s,
        }
    }
}

/// Calls `url::Url::parse`. On success hands out, as the parsed URL gives
/// them, its `scheme()`, whether it `cannot_be_a_base()`, its serialization,
/// and the three slices of the serialization that `url::Position` parts at
/// `BeforePath` and `AfterPath`; on failure the `Display` text of the
/// `ParseError`. Its contract is not proved, and claims two things: that what
/// comes out depends on the characters of `raw` alone, so that it can go by a
/// name, and that the three slices, which meet at their ends, make up the
/// serialization.
#[verifier::external_body]
fn parse_absolute(raw: &str) -> (r: Result<ParsedUrl, String>)
    ensures
        parsed_view(r) == url_parse(raw@),
        r matches Ok(p) ==> parts_make_href(p@),
{
    match url::Url::parse(raw) {
        Ok(u) => Ok(ParsedUrl {
            scheme: u.scheme().to_string(),
            before_path: u[..url::Position::BeforePath].to_string(),
            path: u[url::Position::BeforePath..url::Position::AfterPath].to_string(),
            after_path: u[url::Position::AfterPath..].to_string(),
            cannot_be_a_base: u.cannot_be_a_base(),
            href: u.into(),
        }),
        Err(e) => Err(e.to_string()),
    }
}

/// Parses `raw` with `url::Url::parse`, appends `first` and `second` through
/// `Url::path_segments_mut` and `PathSegmentsMut::extend`, and hands out the
/// new serialization. Its contract is not proved. It claims:
///
/// - that what comes out depends on the characters of the arguments alone, so
///   that it can go by a name;
/// - that there is a result exactly for a string that parses to a URL that
///   can be a base: `path_segments_mut` refuses no other;
/// - of a URL with scheme `http` or `https` and of plain segments, what the
///   documentation of `extend` says: the segments are appended at the end of
///   the path, as they are, with a slash before each, but for the one between
///   the path and the first segment where the path is `/`. What stands before
///   and after the path is put back as it was.
///
/// The bounds keep the new serialization within the parser's 32-bit
/// positions, beyond which `PathSegmentsMut` panics.
#[verifier::external_body]
fn append_segments(raw: &str, first: &str, second: &str) -> (r: Option<String>)
    requires
        encode_utf8(raw@).len() <= MAX_URL_BYTES,
        3 * (encode_utf8(first@).len() + encode_utf8(second@).len()) + 2 <= 0xff,
    ensures
        text_view(r) == url_with_segments(raw@, first@, second@),
        r is Some <==> has_path(url_parse(raw@)),
        r matches Some(m) ==> (is_web_url(url_parse(raw@)) && is_plain_segment(first@)
            && is_plain_segment(second@) ==> m@ == with_segments(
            url_parse(raw@)->Ok_0,
            first@,
            second@,
        )),
{
    let mut u = url::Url::parse(raw).ok()?;
    u.path_segments_mut().ok()?.extend([first, second]);
    Some(u.into())
}

/// Whether `scheme` is `http` or `https`.
pub fn is_web(scheme: &str) -> (r: bool)
    ensures
        r == is_web_scheme(scheme@),
{
    same_text(scheme, "http") || same_text(scheme, "https")
}

/// Looks at the scheme of a parser outcome: accepts a URL with scheme `http`
/// or `https`, whatever its host, port, credentials, path, query and fragment.
pub fn screen_scheme(parsed: Result<ParsedUrl, String>) -> (r: Result<NormalizedUrl, UrlError>)
    ensures
        normalized_view(r) == screened(parsed_view(parsed)),
        r is Ok <==> is_web_url(parsed_view(parsed)),
{
    match parsed {
        Err(d) => Err(UrlError::InvalidUrl(UrlDefect::Parse(d))),
        Ok(p) => if is_web(p.scheme.as_str()) {
            Ok(NormalizedUrl { scheme: p.scheme, href: p.href })
        } else {
            Err(UrlError::InvalidScheme(p.scheme))
        },
    }
}

/// Checks that a given URL is valid, and returns the normalized version of it.
///
/// The string is parsed as an absolute URL. A string that does not parse is an
/// invalid URL; a URL with a scheme other than `http` and `https` is refused
/// for its scheme; every other URL is accepted, and comes back as the parser
/// serializes it.
pub fn parse_url(url: String) -> (r: Result<NormalizedUrl, UrlError>)
    ensures
        normalized_view(r) == normalized(url@),
        r is Ok <==> is_web_url(url_parse(url@)),
        r matches Ok(u) ==> u@.href == url_parse(url@)->Ok_0.href && parts_make_href(
            url_parse(url@)->Ok_0,
        ),
        url_parse(url@) matches Err(d) ==> normalized_view(r) == Err::<
            NormalizedUrlView,
            UrlErrorView,
        >(UrlErrorView::InvalidUrl(UrlDefectView::Parse(d))),
        url_parse(url@) matches Ok(p) ==> (!is_web_scheme(p.scheme) ==> normalized_view(r) == Err::<
            NormalizedUrlView,
            UrlErrorView,
        >(UrlErrorView::InvalidScheme(p.scheme))),
{
    screen_scheme(parse_absolute(url.as_str()))
}

/// Derives the address of the ownership marker from the text of a URL: the
/// URL it parses to, with `.well-known` and the marker's file name appended
/// to its path.
///
/// There is an address for every text of up to [`MAX_URL_BYTES`] that parses
/// to a URL with a hierarchical path. Of a URL with scheme `http` or `https`
/// nothing but the path changes, and nothing of the path is dropped or
/// replaced: the address is what stands before the path, the path, the two
/// segments, and what follows the path.
pub fn marker_address(raw: &str) -> (r: Result<String, UrlDefect>)
    ensures
        marker_view(r) == marker_of(raw@),
        r is Ok <==> encode_utf8(raw@).len() <= MAX_URL_BYTES && has_path(url_parse(raw@)),
        r matches Ok(m) ==> (is_web_url(url_parse(raw@)) ==> m@ == with_segments(
            url_parse(raw@)->Ok_0,
            WELL_KNOWN_SEGMENT@,
            MARKER_FILE@,
        )),
{
    if raw.as_bytes().len() > MAX_URL_BYTES {
        return Err(UrlDefect::TooLong);
    }
    proof {
        reveal_strlit(".well-known");
        reveal_strlit("girl.technology");
        reveal_strlit(".");
        reveal_strlit("..");
        is_ascii_chars_encode_utf8(WELL_KNOWN_SEGMENT@);
        is_ascii_chars_encode_utf8(MARKER_FILE@);
        assert(is_plain_segment(WELL_KNOWN_SEGMENT@));
        assert(is_plain_segment(MARKER_FILE@));
    }
    match append_segments(raw, WELL_KNOWN_SEGMENT, MARKER_FILE) {
        Some(m) => Ok(m),
        None => Err(UrlDefect::NoPath),
    }
}

impl UrlError {
    /// The text shown to the submitter.
    pub fn message(&self) -> (text: String)
        ensures
            text@ == self@.message(),
    {
        match self {
            UrlError::InvalidUrl(UrlDefect::Parse(d)) => "error parsing url: ".to_owned().concat(
                d.as_str(),
            ),
            UrlError::InvalidUrl(UrlDefect::NoPath) => "url doesn't have a path: ()".to_owned(),
            UrlError::InvalidUrl(UrlDefect::TooLong) => "url is too long".to_owned(),
            UrlError::InvalidScheme(s) => "invalid url scheme ".to_owned().concat(s.as_str()),
        }
    }
}

impl NormalizedUrl {
    #[verifier::type_invariant]
    spec fn scheme_is_web(&self) -> bool {
        is_web_scheme(self.scheme@)
    }

    /// The scheme: `http` or `https`.
    pub fn scheme(&self) -> (s: &str)
        ensures
            s@ == self@.scheme,
            is_web_scheme(s@),
    {
        proof {
            use_type_invariant(self);
        }
        self.scheme.as_str()
    }

    /// The serialization of the URL: the key the listing is stored under.
    pub fn as_str(&self) -> (s: &str)
        ensures
            s@ == self@.href,
    {
        self.href.as_str()
    }
}

impl Clone for NormalizedUrl {
    fn clone(&self) -> (r: Self)
        ensures
            r@ == self@,
    {
        proof {
            use_type_invariant(self);
        }
        NormalizedUrl { scheme: self.scheme.clone(), href: self.href.clone() }
    }
}

} // verus!
