use crate::error::ErrorKind;
use crate::text::{
    after_first, append, before_first, chars_of, contains, copy_of, cut_after, cut_before,
    has_prefix, includes, starts_with, string_of, text_view, trim, trimmed, unquote, unquoted,
};
use crate::utils::url::{domain_holds, host_chars, host_of, in_domain, last_part, last_part_chars};
use vstd::prelude::*;

verus! {

/// Who knows how to download a URL.
#[derive(Clone, Copy, Debug, PartialEq, Eq, Structural)]
pub enum Provider {
    /// The encyclopedia `wikipedia.org`: the URL alone tells everything.
    Wiki,
    /// The mirror `sci-hub.se`: its page has to be read for the document.
    Mirror,
    /// Any other site: its headers are asked for a name.
    Generic,
}

/// Where to fetch from, and what to call the file.
#[derive(Clone, Debug, PartialEq, Eq)]
pub struct ProviderResolution {
    pub fetch_uri: String,
    pub filename: String,
}

/// A `ProviderResolution` with its texts as sequences of characters.
pub struct ResolutionView {
    pub fetch_uri: Seq<char>,
    pub filename: Seq<char>,
}

impl View for ProviderResolution {
    type V = ResolutionView;

    open spec fn view(&self) -> ResolutionView {
        ResolutionView { fetch_uri: self.fetch_uri@, filename: self.filename@ }
    }
}

/// The provider of a URL: the encyclopedia is asked first, the mirror second,
/// and what belongs to neither is generic.
pub open spec fn select_spec(url: Seq<char>) -> Provider {
    if in_domain(url, "wikipedia.org"@) {
        Provider::Wiki
    } else if in_domain(url, "sci-hub.se"@) {
        Provider::Mirror
    } else {
        Provider::Generic
    }
}

/// What the encyclopedia's URL resolves to: the page rendered as a document
/// by the host's own service, under the name of the page with `.pdf` behind.
pub open spec fn wikipedia_spec(url: Seq<char>) -> ResolutionView {
    ResolutionView {
        fetch_uri: "https://"@ + host_of(url) + "/api/rest_v1/page/pdf/"@ + last_part(url),
        filename: last_part(url) + ".pdf"@,
    }
}

/// The link that the mirror's page embeds: the value of its first `src="`
/// attribute, if that attribute is there and closed.
pub open spec fn embedded_link(page: Seq<char>) -> Option<Seq<char>> {
    match after_first(page, "src=\""@) {
        None => None,
        Some(rest) => if contains(rest, "\""@) {
            Some(before_first(rest, "\""@))
        } else {
            None
        },
    }
}

/// A link with a scheme: one that begins with `//` gets `https:` in front.
pub open spec fn with_scheme(link: Seq<char>) -> Seq<char> {
    if has_prefix(link, "//"@) {
        "https:"@ + link
    } else {
        link
    }
}

/// What the mirror's page resolves to: the embedded link, with a scheme and
/// without its fragment, under the name of its last path segment. There is
/// none where the page embeds no link or the link names no file.
pub open spec fn scihub_spec(page: Seq<char>) -> Option<ResolutionView> {
    match embedded_link(page) {
        None => None,
        Some(link) => {
            let uri = before_first(with_scheme(link), "#"@);
            if last_part(uri).len() == 0 {
                None
            } else {
                Some(ResolutionView { fetch_uri: uri, filename: last_part(uri) })
            }
        },
    }
}

/// The file name that a `Content-Disposition` header gives: what follows
/// `filename=` up to the next `;`, without white space at its ends and without
/// enclosing double quotes. Empty where the header names no file.
pub open spec fn disposition_name(header: Seq<char>) -> Seq<char> {
    match after_first(header, "filename="@) {
        None => Seq::empty(),
        Some(rest) => unquote(trim(before_first(rest, ";"@))),
    }
}

/// The name of the file behind any other URL: the one that the header gives,
/// or else the last path segment of the URL.
pub open spec fn generic_name(url: Seq<char>, disposition: Option<Seq<char>>) -> Seq<char> {
    let named = match disposition {
        Some(header) => disposition_name(header),
        None => Seq::empty(),
    };
    if named.len() > 0 {
        named
    } else {
        last_part(url)
    }
}

/// What any other URL resolves to: itself, under its name. There is none
/// where neither the header nor the URL yields a name.
pub open spec fn generic_spec(url: Seq<char>, disposition: Option<Seq<char>>) -> Option<
    ResolutionView,
> {
    if generic_name(url, disposition).len() == 0 {
        None
    } else {
        Some(ResolutionView { fetch_uri: url, filename: generic_name(url, disposition) })
    }
}

/// What a URL resolves to, given what its provider looked up: the mirror's
/// page, or the `Content-Disposition` header of any other site. The
/// encyclopedia's answer does not depend on the lookup.
pub open spec fn resolve_spec(url: Seq<char>, answer: Option<Seq<char>>) -> Option<
    ResolutionView,
> {
    match select_spec(url) {
        Provider::Wiki => Some(wikipedia_spec(url)),
        Provider::Mirror => match answer {
            Some(page) => scihub_spec(page),
            None => None,
        },
        Provider::Generic => generic_spec(url, answer),
    }
}

/// The three ways of turning a URL into a place to fetch from and a name.
pub struct Providers;

impl Providers {
    /// The provider that `url` belongs to.
    pub fn select(url: &str) -> (p: Provider)
        ensures
            p == select_spec(url@),
    {
        let cs = chars_of(url);
        if domain_holds(&cs, &chars_of("wikipedia.org")) {
            Provider::Wiki
        } else if domain_holds(&cs, &chars_of("sci-hub.se")) {
            Provider::Mirror
        } else {
            Provider::Generic
        }
    }

    /// Resolves a URL of the encyclopedia, from its text alone.
    pub fn wikipedia(url: &str) -> (r: ProviderResolution)
        ensures
            r@ == wikipedia_spec(url@),
    {
        let cs = chars_of(url);
        let name = last_part_chars(&cs);
        let mut uri = chars_of("https://");
        append(&mut uri, &host_chars(&cs));
        append(&mut uri, &chars_of("/api/rest_v1/page/pdf/"));
        append(&mut uri, &name);
        let mut filename = copy_of(&name);
        append(&mut filename, &chars_of(".pdf"));
        ProviderResolution { fetch_uri: string_of(&uri), filename: string_of(&filename) }
    }

    /// Resolves a URL of the mirror from the page that the mirror answered
    /// with. Fails with `Resolution` where the page yields no document.
    pub fn scihub(page: &str) -> (r: Result<ProviderResolution, ErrorKind>)
        ensures
            match r {
                Ok(res) => scihub_spec(page@) == Some(res@),
                Err(e) => e == ErrorKind::Resolution && scihub_spec(page@) is None,
            },
    {
        let cs = chars_of(page);
        let rest = match cut_after(&cs, &chars_of("src=\"")) {
            Some(rest) => rest,
            None => {
                return Err(ErrorKind::Resolution);
            },
        };
        let quote = chars_of("\"");
        if !includes(&rest, &quote) {
            return Err(ErrorKind::Resolution);
        }
        let link = cut_before(&rest, &quote);
        let full = if starts_with(&link, &chars_of("//")) {
            let mut full = chars_of("https:");
            append(&mut full, &link);
            full
        } else {
            link
        };
        let uri = cut_before(&full, &chars_of("#"));
        let name = last_part_chars(&uri);
        if name.len() == 0 {
            return Err(ErrorKind::Resolution);
        }
        Ok(ProviderResolution { fetch_uri: string_of(&uri), filename: string_of(&name) })
    }

    /// Resolves any other URL from the `Content-Disposition` header that a
    /// probe of it reported, if it reported one. Fails with `Resolution`
    /// where neither the header nor the URL yields a name.
    pub fn generic(url: &str, disposition: Option<&str>) -> (r: Result<
        ProviderResolution,
        ErrorKind,
    >)
        ensures
            match r {
                Ok(res) => generic_spec(url@, text_view(disposition)) == Some(res@),
                Err(e) => e == ErrorKind::Resolution && generic_spec(url@, text_view(disposition))
                    is None,
            },
    {
        let cs = chars_of(url);
        let named: Vec<char> = match disposition {
            Some(header) => match cut_after(&chars_of(header), &chars_of("filename=")) {
                Some(rest) => unquoted(&trimmed(&cut_before(&rest, &chars_of(";")))),
                None => Vec::new(),
            },
            None => Vec::new(),
        };
        let name = if named.len() > 0 {
            named
        } else {
            last_part_chars(&cs)
        };
        if name.len() == 0 {
            return Err(ErrorKind::Resolution);
        }
        Ok(ProviderResolution { fetch_uri: string_of(&cs), filename: string_of(&name) })
    }

    /// Resolves `url` with what its provider looked up: the mirror's page, or
    /// the `Content-Disposition` header of any other site. A URL of the
    /// encyclopedia resolves from its text alone, whatever `answer` holds.
    /// Fails with `Resolution` where the provider finds no document.
    pub fn resolve(url: &str, answer: Option<&str>) -> (r: Result<ProviderResolution, ErrorKind>)
        ensures
            match r {
                Ok(res) => resolve_spec(url@, text_view(answer)) == Some(res@),
                Err(e) => e == ErrorKind::Resolution && resolve_spec(url@, text_view(answer))
                    is None,
            },
    {
        match Providers::select(url) {
            Provider::Wiki => Ok(Providers::wikipedia(url)),
            Provider::Mirror => match answer {
                Some(page) => Providers::scihub(page),
                None => Err(ErrorKind::Resolution),
            },
            Provider::Generic => Providers::generic(url, answer),
        }
    }
}

/// A URL of the encyclopedia resolves to the same place and name whatever a
/// lookup may have brought: its resolution is a function of its text alone.
pub proof fn lemma_wiki_resolves_alone(
    url: Seq<char>,
    first: Option<Seq<char>>,
    second: Option<Seq<char>>,
)
    requires
        in_domain(url, "wikipedia.org"@),
    ensures
        resolve_spec(url, first) == Some(wikipedia_spec(url)),
        resolve_spec(url, first) == resolve_spec(url, second),
{
}

} // verus!
