//! The addresses of the site itself, and the answers of the browsing pages.

use vstd::prelude::*;
use crate::models::Listing;

verus! {

/// The address the server listens on when none is configured.
pub const DEFAULT_IP: &'static str = "127.0.0.1";

/// The port the server listens on when none is configured.
pub const DEFAULT_PORT: &'static str = "3000";

/// A request that is refused: a status code and a text.
#[derive(Debug, PartialEq, Eq)]
pub struct Rejection {
    /// The HTTP status.
    pub status: u16,
    /// The text sent with it.
    pub message: String,
}

/// Where the site is served.
#[derive(Debug, PartialEq, Eq)]
pub struct Site {
    /// Whether the site runs without a public domain, on the listening address.
    pub is_local: bool,
    /// The public domain, or the listening address of a local site.
    pub main_domain: String,
}

/// The text of an optional setting, or its default.
pub open spec fn or_default(setting: Option<String>, default: Seq<char>) -> Seq<char> {
    match setting {
        Some(s) => s@,
        None => default,
    }
}

/// The listening address: IP and port with a colon between them.
pub open spec fn bind_addr_of(ip: Option<String>, port: Option<String>) -> Seq<char> {
    or_default(ip, DEFAULT_IP@) + ":"@ + or_default(port, DEFAULT_PORT@)
}

/// The scheme of the site's own addresses: plain on a local site.
pub open spec fn scheme_of(is_local: bool) -> Seq<char> {
    if is_local {
        "http"@
    } else {
        "https"@
    }
}

/// The address of the site's front page.
pub open spec fn main_url_of(is_local: bool, main_domain: Seq<char>) -> Seq<char> {
    scheme_of(is_local) + "://"@ + main_domain + "/"@
}

/// The address of a category's page: a path on a local site, a subdomain on a
/// public one.
pub open spec fn category_url_of(is_local: bool, main_domain: Seq<char>, category: Seq<char>) -> Seq<
    char,
> {
    if is_local {
        scheme_of(is_local) + "://"@ + main_domain + "/category/"@ + category
    } else {
        scheme_of(is_local) + "://"@ + category + "."@ + main_domain + "/"@
    }
}

/// The text that says a category has no listing.
pub open spec fn not_found_text(category: Seq<char>) -> Seq<char> {
    "listing for "@ + category + " not found"@
}

/// The listening address made of the configured IP and port, each with its default.
pub fn bind_addr(ip: Option<String>, port: Option<String>) -> (addr: String)
    ensures
        addr@ == bind_addr_of(ip, port),
{
    let ip = match ip {
        Some(ip) => ip,
        None => DEFAULT_IP.to_owned(),
    };
    let port = match port {
        Some(port) => port,
        None => DEFAULT_PORT.to_owned(),
    };
    ip.concat(":").concat(port.as_str())
}

/// A `500 Internal Server Error` with the text of any fault.
pub fn internal_error(message: String) -> (r: Rejection)
    ensures
        r.status == 500,
        r.message@ == message@,
{
    Rejection { status: 500, message }
}

/// A `400 Bad Request` with the text of any fault.
pub fn external_error(message: String) -> (r: Rejection)
    ensures
        r.status == 400,
        r.message@ == message@,
{
    Rejection { status: 400, message }
}

impl Site {
    /// The site under the configured public domain; without one, a local site
    /// on the listening address.
    pub fn new(main_domain: Option<String>, bind_addr: &str) -> (site: Site)
        ensures
            site.is_local == (main_domain is None),
            site.main_domain@ == or_default(main_domain, bind_addr@),
    {
        match main_domain {
            Some(domain) => Site { is_local: false, main_domain: domain },
            None => Site { is_local: true, main_domain: bind_addr.to_owned() },
        }
    }

    /// The scheme of the site's own addresses.
    pub fn scheme(&self) -> (s: &'static str)
        ensures
            s@ == scheme_of(self.is_local),
    {
        if self.is_local {
            "http"
        } else {
            "https"
        }
    }

    /// The address of the front page.
    pub fn main_url(&self) -> (url: String)
        ensures
            url@ == main_url_of(self.is_local, self.main_domain@),
    {
        self.scheme().to_owned().concat("://").concat(self.main_domain.as_str()).concat("/")
    }

    /// The address of the page of `category`.
    pub fn category_to_url(&self, category: &str) -> (url: String)
        ensures
            url@ == category_url_of(self.is_local, self.main_domain@, category@),
    {
        let start = self.scheme().to_owned().concat("://");
        if self.is_local {
            start.concat(self.main_domain.as_str()).concat("/category/").concat(category)
        } else {
            start.concat(category).concat(".").concat(self.main_domain.as_str()).concat("/")
        }
    }
}

/// Where a visitor of a category's page is sent: to the URL of the first
/// listing found under the category. A category without a listing is a bad
/// request.
pub fn category_redirect(results: &Vec<Listing>, input_category: &str) -> (r: Result<
    String,
    Rejection,
>)
    ensures
        results@.len() > 0 ==> (r matches Ok(url) && url@ == results@[0]@.url),
        results@.len() == 0 ==> (r matches Err(e) && e.status == 400 && e.message@
            == not_found_text(input_category@)),
{
    if results.len() > 0 {
        Ok(results[0].url.clone())
    } else {
        Err(external_error("listing for ".to_owned().concat(input_category).concat(" not found")))
    }
}

} // verus!
