use paimon::cmd::syntax::{Directive, Lexico};

#[test]
fn classify_gives_each_line_one_directive() {
    assert_eq!(Lexico::classify("!open_link https://example.com"), Directive::OpenLinkDirective);
    assert_eq!(Lexico::classify("  // a note  "), Directive::Comment);
    assert_eq!(
        Lexico::classify("path \"papers\""),
        Directive::PathDeclaration("papers".to_string())
    );
    assert_eq!(
        Lexico::classify("path  docs/new  "),
        Directive::PathDeclaration("docs/new".to_string())
    );
    assert_eq!(
        Lexico::classify("https://example.com/a.pdf !ignore"),
        Directive::IgnoreAnnotation("https://example.com/a.pdf".to_string())
    );
    assert_eq!(
        Lexico::classify(" https://example.com/a.pdf\r"),
        Directive::Plain("https://example.com/a.pdf".to_string())
    );
    assert_eq!(Lexico::classify(""), Directive::Plain(String::new()));
    assert_eq!(Lexico::classify("path"), Directive::Plain("path".to_string()));
}

#[test]
fn classify_goes_by_priority() {
    assert_eq!(Lexico::classify("!open_link // x !ignore"), Directive::OpenLinkDirective);
    assert_eq!(Lexico::classify("// https://example.com !ignore"), Directive::Comment);
    assert_eq!(
        Lexico::classify("path a !ignore"),
        Directive::PathDeclaration("a !ignore".to_string())
    );
}

#[test]
fn macro_lines() {
    assert!(Lexico::handle_check_macro_line("!open_link https://example.com", "open_link"));
    assert!(Lexico::handle_check_macro_line("   !open_link", "open_link"));
    assert!(!Lexico::handle_check_macro_line("open_link", "open_link"));
    assert!(!Lexico::handle_check_macro_line("https://example.com !open_link", "open_link"));
    assert!(Lexico::handle_check_macro_line("!ignore x", "ignore"));
}

#[test]
fn comments_are_skipped_unless_switched_off() {
    assert!(Lexico::handle_comments("// note", false));
    assert!(Lexico::handle_comments("   // note", false));
    assert!(!Lexico::handle_comments("// note", true));
    assert!(!Lexico::handle_comments("https://example.com", false));
    assert!(!Lexico::handle_comments("/ note", false));
}

#[test]
fn scenario_ignore_annotation() {
    let line = "https://example.com/a.pdf !ignore";
    assert_eq!(
        Lexico::handle_ignore_macro_flag(line, false),
        Some("https://example.com/a.pdf".to_string())
    );
    assert_eq!(Lexico::handle_ignore_macro_flag(line, true), None);
    assert_eq!(Lexico::target(line, false, false), Some("https://example.com/a.pdf".to_string()));
    assert_eq!(Lexico::target(line, true, false), None);
}

#[test]
fn lines_without_annotation_go_on_as_they_are() {
    assert_eq!(
        Lexico::handle_ignore_macro_flag("https://example.com/a.pdf", false),
        Some("https://example.com/a.pdf".to_string())
    );
    assert_eq!(
        Lexico::handle_ignore_macro_flag("https://example.com/a.pdf", true),
        Some("https://example.com/a.pdf".to_string())
    );
    assert_eq!(
        Lexico::handle_ignore_macro_flag("!ignore https://example.com/a.pdf !ignore", false),
        Some("https://example.com/a.pdf".to_string())
    );
}

#[test]
fn output_path_of_a_line() {
    assert_eq!(Lexico::handle_get_path("path \"papers\""), "papers");
    assert_eq!(Lexico::handle_get_path("  path papers/2024 "), "papers/2024");
    assert_eq!(
        Lexico::handle_get_path("https://arxiv.org/abs/1234.5678"),
        "https___arxiv.org_abs_1234.5678"
    );
    assert_eq!(Lexico::handle_get_path("a b-c_d.é"), "a_b-c_d._");
    assert_eq!(Lexico::handle_get_path(""), "");
}

#[test]
fn target_of_a_line() {
    assert_eq!(Lexico::target("// note", false, false), None);
    assert_eq!(Lexico::target("// note", false, true), Some("// note".to_string()));
    assert_eq!(Lexico::target("!open_link https://example.com", false, true), None);
    assert_eq!(Lexico::target("path \"papers\"", false, false), None);
    assert_eq!(
        Lexico::target("  https://example.com/a.pdf ", true, true),
        Some("https://example.com/a.pdf".to_string())
    );
}

#[test]
fn a_comment_that_goes_on_is_plain_text() {
    let line = "// https://example.com/a.pdf !ignore";
    assert_eq!(Lexico::target(line, true, true), None);
    assert_eq!(Lexico::target(line, false, true), Some("// https://example.com/a.pdf".to_string()));
    assert_eq!(Lexico::target(line, false, false), None);
    assert_eq!(Lexico::target(line, true, false), None);
}
