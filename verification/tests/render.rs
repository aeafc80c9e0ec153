use paimon::configs::settings::Setting;
use paimon::prime_down::inject::pd_inject_css::PrimeDownInjectCSS;
use paimon::render::injection::render_inject::{Assets, RenderMarkdownInject};

fn text(s: &str) -> Setting {
    Setting::Text(s.to_string())
}

fn assets() -> Assets {
    Assets {
        css_cdn: "<link a>".to_string(),
        css_local: "<style>b</style>".to_string(),
        js_cdn: "<script src=c>".to_string(),
        js_local: "<script>d</script>".to_string(),
    }
}

#[test]
fn settings_compare_with_plain_values() {
    assert!(text("paimon").is_text("paimon"));
    assert!(!text("paimon").is_text("other"));
    assert!(!Setting::Null.is_text(""));
    assert!(!Setting::Flag(true).is_text("true"));
    assert!(Setting::Flag(true).is_flag(true));
    assert!(!Setting::Flag(false).is_flag(true));
    assert!(Setting::Flag(false).is_flag(false));
    assert!(!text("true").is_flag(true));
    assert!(!Setting::Other.is_flag(false));
    assert!(!Setting::List(Vec::new()).is_flag(false));
}

#[test]
fn injection_depends_on_the_mode() {
    assert!(RenderMarkdownInject::injects(&text("paimon")));
    assert!(!RenderMarkdownInject::injects(&text("github")));
    assert!(!RenderMarkdownInject::injects(&Setting::Null));
    assert_eq!(RenderMarkdownInject::get_js(&text("paimon"), "<a>", "<b>"), "<a><b>");
    assert_eq!(RenderMarkdownInject::get_js(&text("github"), "<a>", "<b>"), "");
    assert_eq!(RenderMarkdownInject::get_css(&text("paimon"), "<a>", "<b>"), "<a><b>");
    assert_eq!(RenderMarkdownInject::get_css(&Setting::Flag(true), "<a>", "<b>"), "");
}

#[test]
fn content_fills_the_placeholders() {
    let template = "<title>{{ page_title }}</title>{{ inject_css }}<body>{{ markdown_content }}\
                    </body>{{ inject_js }}{{ page_title }}"
        .to_string();
    let page = RenderMarkdownInject::content(
        "notes.md",
        template.clone(),
        "<h1>Hi</h1>".to_string(),
        &text("paimon"),
        &assets(),
    );
    assert_eq!(
        page,
        "<title>Paimon: notes.md: README</title><link a><style>b</style><body><h1>Hi</h1>\
         </body><script src=c><script>d</script>Paimon: notes.md: README"
    );
    let page = RenderMarkdownInject::content(
        "notes.md",
        template,
        "<h1>Hi</h1>".to_string(),
        &text("plain"),
        &assets(),
    );
    assert_eq!(
        page,
        "<title>Paimon: notes.md: README</title><body><h1>Hi</h1></body>Paimon: notes.md: README"
    );
}

#[test]
fn content_fills_in_order() {
    let page = RenderMarkdownInject::content(
        "{{ inject_js }}",
        "{{ page_title }}|{{ markdown_content }}".to_string(),
        "{{ inject_css }} {{ page_title }}".to_string(),
        &text("paimon"),
        &assets(),
    );
    assert_eq!(
        page,
        "Paimon: <script src=c><script>d</script>: README|<link a><style>b</style> {{ page_title }}"
    );
    assert_eq!(
        RenderMarkdownInject::content("f", String::new(), "x".to_string(), &text("paimon"), &assets()),
        ""
    );
}

#[test]
fn link_tags_for_the_listed_sheets() {
    let list = vec![Some("a.css".to_string()), None, Some("https://cdn.example.com/b.css".to_string())];
    assert_eq!(
        PrimeDownInjectCSS::generate_link_tags(&list),
        "<link rel=\"stylesheet\" href=\"a.css\">\n\
         <link rel=\"stylesheet\" href=\"https://cdn.example.com/b.css\">\n"
    );
    assert_eq!(PrimeDownInjectCSS::generate_link_tags(&Vec::new()), "");
    assert_eq!(
        PrimeDownInjectCSS::from_cdn(&Setting::List(list)),
        Some(
            "<link rel=\"stylesheet\" href=\"a.css\">\n\
             <link rel=\"stylesheet\" href=\"https://cdn.example.com/b.css\">\n"
                .to_string()
        )
    );
    assert_eq!(PrimeDownInjectCSS::from_cdn(&Setting::Null), None);
    assert_eq!(PrimeDownInjectCSS::from_cdn(&text("a.css")), None);
}

#[test]
fn yaml_is_made_ready() {
    assert_eq!(PrimeDownInjectCSS::tidy("|\n  <link a>\n  <link b>\n"), "<link a>\n  <link b>");
    assert_eq!(PrimeDownInjectCSS::tidy("null\n"), "null");
    assert_eq!(PrimeDownInjectCSS::tidy(""), "");
    assert_eq!(PrimeDownInjectCSS::tidy("a|\nb|\n"), "a\nb");
}

#[test]
fn load_from_cdn_writes_the_tags_as_yaml() {
    let list = Setting::List(vec![Some("a.css".to_string()), Some("b.css".to_string())]);
    assert_eq!(
        PrimeDownInjectCSS::load_from_cdn(&list),
        "<link rel=\"stylesheet\" href=\"a.css\">\n  <link rel=\"stylesheet\" href=\"b.css\">"
    );
    assert_eq!(PrimeDownInjectCSS::load_from_cdn(&Setting::Null), "null");
    assert_eq!(PrimeDownInjectCSS::load_from_cdn(&text("a.css")), "null");
    assert_eq!(PrimeDownInjectCSS::load_from_cdn(&Setting::List(Vec::new())), "''");
}

#[test]
fn local_sheets_go_into_one_style_element() {
    let sheets = vec!["a { color: red }".to_string(), "b { color: blue }".to_string()];
    assert_eq!(PrimeDownInjectCSS::stylesheet(&sheets), "a { color: red }\nb { color: blue }\n");
    assert_eq!(PrimeDownInjectCSS::stylesheet(&Vec::new()), "");
    assert_eq!(
        PrimeDownInjectCSS::load_from_files(&sheets, None),
        "<style>a { color: red }\nb { color: blue }\n</style>"
    );
    assert_eq!(
        PrimeDownInjectCSS::load_from_files(&sheets, Some("a{color:red}b{color:blue}")),
        "<style>a{color:red}b{color:blue}</style>"
    );
    assert_eq!(PrimeDownInjectCSS::load_from_files(&Vec::new(), None), "<style></style>");
}

#[test]
fn null_is_written_as_the_word_null() {
    assert_eq!(serde_yaml::to_string(&serde_yaml::Value::Null).unwrap(), "null\n");
    assert_eq!(PrimeDownInjectCSS::load_from_cdn(&Setting::Flag(true)), "null");
    assert_eq!(PrimeDownInjectCSS::load_from_cdn(&Setting::Other), "null");
}
