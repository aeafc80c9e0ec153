use crate::text::{
    after_first, after_last, append, before_first, chars_of, copy_of, cut_after, cut_before, ends_with,
    has_suffix, replace, replace_all, same, string_of, tail_after,
};
use vstd::prelude::*;

verus! {

/// What follows the scheme separator `://`; the whole text when there is none.
pub open spec fn after_scheme(url: Seq<char>) -> Seq<char> {
    match after_first(url, "://"@) {
        Some(rest) => rest,
        None => url,
    }
}

/// The host of a URL: what follows the scheme, up to the first of `/`, `?`,
/// `#` and `:`.
pub open spec fn host_of(url: Seq<char>) -> Seq<char> {
    before_first(
        before_first(before_first(before_first(after_scheme(url), "/"@), "?"@), "#"@),
        ":"@,
    )
}

/// The host of `url` is `domain` or one of its subdomains.
pub open spec fn in_domain(url: Seq<char>, domain: Seq<char>) -> bool {
    host_of(url) == domain || has_suffix(host_of(url), "."@ + domain)
}

/// A URL without its query and fragment.
pub open spec fn without_query(url: Seq<char>) -> Seq<char> {
    before_first(before_first(url, "?"@), "#"@)
}

/// The last path segment of a URL: what follows the last `/` once query and
/// fragment are cut off.
pub open spec fn last_part(url: Seq<char>) -> Seq<char> {
    after_last(without_query(url), '/')
}

/// A line with its quote characters percent-encoded: `"` as `%22`, then `'`
/// as `%27`.
pub open spec fn escaped_quotes(s: Seq<char>) -> Seq<char> {
    replace_all(replace_all(s, "\""@, "%22"@), "'"@, "%27"@)
}

/// A URL of the archive `arxiv.org` with each `/abs/` turned into `/pdf/`, so
/// that it names the document and not its landing page; any other URL as it
/// is.
pub open spec fn document_link(url: Seq<char>) -> Seq<char> {
    if in_domain(url, "arxiv.org"@) {
        replace_all(url, "/abs/"@, "/pdf/"@)
    } else {
        url
    }
}

pub(crate) fn host_chars(url: &Vec<char>) -> (out: Vec<char>)
    ensures
        out@ == host_of(url@),
{
    let rest = match cut_after(url, &chars_of("://")) {
        Some(rest) => rest,
        None => copy_of(url),
    };
    let a = cut_before(&rest, &chars_of("/"));
    let b = cut_before(&a, &chars_of("?"));
    let c = cut_before(&b, &chars_of("#"));
    cut_before(&c, &chars_of(":"))
}

pub(crate) fn domain_holds(url: &Vec<char>, domain: &Vec<char>) -> (b: bool)
    ensures
        b == in_domain(url@, domain@),
{
    let host = host_chars(url);
    if same(&host, domain) {
        return true;
    }
    let mut dotted = chars_of(".");
    append(&mut dotted, domain);
    ends_with(&host, &dotted)
}

pub(crate) fn last_part_chars(url: &Vec<char>) -> (out: Vec<char>)
    ensures
        out@ == last_part(url@),
{
    let a = cut_before(url, &chars_of("?"));
    let b = cut_before(&a, &chars_of("#"));
    tail_after(&b, '/')
}

pub(crate) fn escape_chars(line: &Vec<char>) -> (out: Vec<char>)
    ensures
        out@ == escaped_quotes(line@),
{
    let a = replace(line, &chars_of("\""), &chars_of("%22"));
    replace(&a, &chars_of("'"), &chars_of("%27"))
}

pub(crate) fn document_chars(url: &Vec<char>) -> (out: Vec<char>)
    ensures
        out@ == document_link(url@),
{
    if domain_holds(url, &chars_of("arxiv.org")) {
        replace(url, &chars_of("/abs/"), &chars_of("/pdf/"))
    } else {
        copy_of(url)
    }
}

/// Questions about a URL that need nothing but its text.
pub struct UrlMisc;

impl UrlMisc {
    /// Whether the host of `url` is `domain` or a subdomain of it.
    pub fn check_domain(url: &str, domain: &str) -> (b: bool)
        ensures
            b == in_domain(url@, domain@),
    {
        domain_holds(&chars_of(url), &chars_of(domain))
    }

    /// The last path segment of `url`.
    pub fn get_last_part(url: &str) -> (out: String)
        ensures
            out@ == last_part(url@),
    {
        string_of(&last_part_chars(&chars_of(url)))
    }

    /// `line` with its quote characters percent-encoded.
    pub fn escape_quotes(line: &str) -> (out: String)
        ensures
            out@ == escaped_quotes(line@),
    {
        string_of(&escape_chars(&chars_of(line)))
    }

    /// `url` pointing at the document where it named an abstract page of
    /// `arxiv.org`.
    pub fn document_url(url: &str) -> (out: String)
        ensures
            out@ == document_link(url@),
    {
        string_of(&document_chars(&chars_of(url)))
    }
}

} // verus!
