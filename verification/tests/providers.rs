use paimon::configs::providers::{Provider, ProviderResolution, Providers};
use paimon::error::ErrorKind;

fn resolution(fetch_uri: &str, filename: &str) -> ProviderResolution {
    ProviderResolution { fetch_uri: fetch_uri.to_string(), filename: filename.to_string() }
}

#[test]
fn providers_in_priority_order() {
    assert_eq!(Providers::select("https://en.wikipedia.org/wiki/Example"), Provider::Wiki);
    assert_eq!(Providers::select("https://sci-hub.se/10.1000/xyz"), Provider::Mirror);
    assert_eq!(Providers::select("https://arxiv.org/pdf/1234.5678"), Provider::Generic);
    assert_eq!(Providers::select("https://example.com/sci-hub.se"), Provider::Generic);
    assert_eq!(Providers::select(""), Provider::Generic);
}

#[test]
fn scenario_wiki_resolves_from_the_url() {
    let r = Providers::wikipedia("https://en.wikipedia.org/wiki/Example");
    assert_eq!(
        r,
        resolution("https://en.wikipedia.org/api/rest_v1/page/pdf/Example", "Example.pdf")
    );
    assert!(r.filename.ends_with(".pdf"));
    assert_eq!(r, Providers::wikipedia("https://en.wikipedia.org/wiki/Example"));
}

#[test]
fn wiki_resolution_ignores_the_lookup() {
    let url = "https://pt.wikipedia.org/wiki/Rust?action=view";
    let expected = resolution("https://pt.wikipedia.org/api/rest_v1/page/pdf/Rust", "Rust.pdf");
    assert_eq!(Providers::resolve(url, None), Ok(expected.clone()));
    assert_eq!(Providers::resolve(url, Some("<embed src=\"//x/y.pdf\">")), Ok(expected.clone()));
    assert_eq!(Providers::resolve(url, Some("")), Ok(expected));
}

#[test]
fn mirror_page_with_embedded_document() {
    let page = "<html><embed type=\"application/pdf\" \
                src=\"//sci-hub.se/downloads/2020/paper.pdf#navpanes=0&view=FitH\" id=\"pdf\"></html>";
    assert_eq!(
        Providers::scihub(page),
        Ok(resolution("https://sci-hub.se/downloads/2020/paper.pdf", "paper.pdf"))
    );
    assert_eq!(
        Providers::scihub("<iframe src=\"https://cdn.example.org/f/doc.pdf?download=true\">"),
        Ok(resolution("https://cdn.example.org/f/doc.pdf?download=true", "doc.pdf"))
    );
    assert_eq!(
        Providers::resolve("https://sci-hub.se/10.1000/xyz", Some("<embed src=\"/a/b.pdf\">")),
        Ok(resolution("/a/b.pdf", "b.pdf"))
    );
}

#[test]
fn mirror_page_without_document_is_a_resolution_error() {
    assert_eq!(Providers::scihub("<html>article not found</html>"), Err(ErrorKind::Resolution));
    assert_eq!(Providers::scihub("<embed src=\"//sci-hub.se/a.pdf"), Err(ErrorKind::Resolution));
    assert_eq!(Providers::scihub("<embed src=\"//sci-hub.se/dir/\">"), Err(ErrorKind::Resolution));
    assert_eq!(Providers::scihub(""), Err(ErrorKind::Resolution));
    assert_eq!(
        Providers::resolve("https://sci-hub.se/10.1000/xyz", None),
        Err(ErrorKind::Resolution)
    );
}

#[test]
fn generic_name_from_header_or_url() {
    let url = "https://example.com/files/get?id=7";
    assert_eq!(
        Providers::generic(url, Some("attachment; filename=\"report.pdf\"")),
        Ok(resolution(url, "report.pdf"))
    );
    assert_eq!(
        Providers::generic(url, Some("attachment; filename=plain.pdf ; size=3")),
        Ok(resolution(url, "plain.pdf"))
    );
    assert_eq!(Providers::generic(url, Some("inline")), Ok(resolution(url, "get")));
    assert_eq!(Providers::generic(url, Some("attachment; filename=\"\"")), Ok(resolution(url, "get")));
    assert_eq!(Providers::generic(url, None), Ok(resolution(url, "get")));
    assert_eq!(
        Providers::resolve("https://arxiv.org/pdf/1234.5678", None),
        Ok(resolution("https://arxiv.org/pdf/1234.5678", "1234.5678"))
    );
}

#[test]
fn generic_without_any_name_is_a_resolution_error() {
    assert_eq!(Providers::generic("https://example.com/", None), Err(ErrorKind::Resolution));
    assert_eq!(
        Providers::generic("https://example.com/?q=1", Some("inline")),
        Err(ErrorKind::Resolution)
    );
    assert_eq!(
        Providers::generic("https://example.com/", Some("attachment; filename=x.pdf")),
        Ok(resolution("https://example.com/", "x.pdf"))
    );
}
