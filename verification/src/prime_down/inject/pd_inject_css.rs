use crate::configs::settings::{entry_views, Setting, SettingView};
use crate::text::{
    append, chars_of, replace, replace_all, string_of, string_view, text_view, trim, trim_end,
    trim_start, trimmed,
};
use vstd::prelude::*;

verus! {

/// The YAML document that the crate `serde_yaml` writes for a scalar: for a
/// text, or for null where there is none. It is empty where the crate fails
/// to write one.
pub uninterp spec fn yaml_text(value: Option<Seq<char>>) -> Seq<char>;

/// Has `serde_yaml::to_string` write a text, or null, as a YAML document,
/// and takes a failure to write for an empty document. What comes back
/// depends on the value alone, and is what `yaml_text` names. For null the
/// crate writes the plain scalar `null` and ends the line.
#[verifier::external_body]
fn yaml_of(value: Option<&str>) -> (out: String)
    ensures
        out@ == yaml_text(text_view(value)),
        value is None ==> out@ == "null\n"@,
{
    let value = match value {
        Some(text) => serde_yaml::Value::String(text.to_owned()),
        None => serde_yaml::Value::Null,
    };
    serde_yaml::to_string(&value).unwrap_or_default()
}

/// The tag that links one style sheet.
pub open spec fn link_tag(name: Seq<char>) -> Seq<char> {
    "<link rel=\"stylesheet\" href=\""@ + name + "\">\n"@
}

/// The tags that link the style sheets of a list, in order. An entry that is
/// no text gives no tag.
pub open spec fn link_tags(entries: Seq<Option<Seq<char>>>) -> Seq<char>
    decreases entries.len(),
{
    if entries.len() == 0 {
        Seq::empty()
    } else {
        link_tags(entries.drop_last()) + match entries.last() {
            Some(name) => link_tag(name),
            None => Seq::empty(),
        }
    }
}

/// The tags for the style sheets that a setting lists; none where the setting
/// is no list.
pub open spec fn from_cdn_spec(setting: SettingView) -> Option<Seq<char>> {
    match setting {
        SettingView::List(entries) => Some(link_tags(entries)),
        _ => None,
    }
}

/// A YAML document as it goes into a page: each block marker with its line
/// break, `|` and a new line, gives way to the line break alone, and white
/// space at the ends goes.
pub open spec fn tidy_spec(yaml: Seq<char>) -> Seq<char> {
    trim(replace_all(yaml, "|\n"@, "\n"@))
}

/// Style sheets joined into one, each followed by a line break.
pub open spec fn joined_sheets(sheets: Seq<String>) -> Seq<char>
    decreases sheets.len(),
{
    if sheets.len() == 0 {
        Seq::empty()
    } else {
        joined_sheets(sheets.drop_last()) + sheets.last()@ + "\n"@
    }
}

/// A style sheet inside its `<style>` element.
pub open spec fn style_block(css: Seq<char>) -> Seq<char> {
    "<style>"@ + css + "</style>"@
}

/// The YAML document for null, made ready, is the word `null`.
proof fn lemma_tidy_null()
    ensures
        tidy_spec("null\n"@) == "null"@,
{
    reveal_strlit("null\n");
    reveal_strlit("null");
    reveal_strlit("|\n");
    reveal_strlit("\n");
    let s = "null\n"@;
    let pat = "|\n"@;
    let to = "\n"@;
    let s1 = s.skip(1);
    let s2 = s1.skip(1);
    let s3 = s2.skip(1);
    let s4 = s3.skip(1);
    assert(s.subrange(0, 2)[0] != pat[0]);
    assert(s1.subrange(0, 2)[0] != pat[0]);
    assert(s2.subrange(0, 2)[0] != pat[0]);
    assert(s3.subrange(0, 2)[0] != pat[0]);
    assert(replace_all(s4, pat, to) == s4);
    assert(replace_all(s3, pat, to) =~= s3);
    assert(replace_all(s2, pat, to) =~= s2);
    assert(replace_all(s1, pat, to) =~= s1);
    assert(replace_all(s, pat, to) =~= s);
    assert(trim_start(s) == s);
    assert(s.drop_last() =~= "null"@);
    assert(trim_end(s.drop_last()) == s.drop_last());
    assert(trim_end(s) == s.drop_last());
}

/// The style sheets that go into a rendered page.
pub struct PrimeDownInjectCSS;

impl PrimeDownInjectCSS {
    /// The tags that link the style sheets of `css_list`.
    pub fn generate_link_tags(css_list: &Vec<Option<String>>) -> (tags: String)
        ensures
            tags@ == link_tags(entry_views(css_list@)),
    {
        let ghost all = entry_views(css_list@);
        let mut tags: Vec<char> = Vec::new();
        let mut i: usize = 0;
        assert(all.take(0) =~= Seq::<Option<Seq<char>>>::empty());
        while i < css_list.len()
            invariant
                i <= css_list.len(),
                all == entry_views(css_list@),
                tags@ == link_tags(all.take(i as int)),
            decreases css_list.len() - i,
        {
            proof {
                assert(all.take(i + 1).drop_last() =~= all.take(i as int));
            }
            let ghost before = tags@;
            match &css_list[i] {
                Some(name) => {
                    append(&mut tags, &chars_of("<link rel=\"stylesheet\" href=\""));
                    append(&mut tags, &chars_of(name.as_str()));
                    append(&mut tags, &chars_of("\">\n"));
                    assert(tags@ =~= before + link_tag(name@));
                },
                None => {
                    assert(tags@ =~= before + Seq::<char>::empty());
                },
            }
            i += 1;
        }
        assert(all.take(css_list@.len() as int) =~= all);
        string_of(&tags)
    }

    /// The tags for the style sheets that the setting lists, if it is a list.
    pub fn from_cdn(css_list: &Setting) -> (tags: Option<String>)
        ensures
            string_view(tags) == from_cdn_spec(css_list@),
    {
        match css_list {
            Setting::List(entries) => Some(PrimeDownInjectCSS::generate_link_tags(entries)),
            _ => None,
        }
    }

    /// A YAML document made ready to go into a page.
    pub fn tidy(yaml: &str) -> (out: String)
        ensures
            out@ == tidy_spec(yaml@),
    {
        string_of(&trimmed(&replace(&chars_of(yaml), &chars_of("|\n"), &chars_of("\n"))))
    }

    /// What goes into a page for the style sheets that the setting lists:
    /// their tags, written as a YAML document and made ready.
    pub fn load_from_cdn(css_list: &Setting) -> (out: String)
        ensures
            out@ == tidy_spec(yaml_text(from_cdn_spec(css_list@))),
            !(css_list@ is List) ==> out@ == "null"@,
    {
        let yaml = match PrimeDownInjectCSS::from_cdn(css_list) {
            Some(tags) => yaml_of(Some(tags.as_str())),
            None => yaml_of(None),
        };
        proof {
            lemma_tidy_null();
        }
        PrimeDownInjectCSS::tidy(yaml.as_str())
    }

    /// The style sheets `sheets` joined into one.
    pub fn stylesheet(sheets: &Vec<String>) -> (css: String)
        ensures
            css@ == joined_sheets(sheets@),
    {
        let mut css: Vec<char> = Vec::new();
        let mut i: usize = 0;
        assert(sheets@.take(0) =~= Seq::<String>::empty());
        while i < sheets.len()
            invariant
                i <= sheets.len(),
                css@ == joined_sheets(sheets@.take(i as int)),
            decreases sheets.len() - i,
        {
            proof {
                assert(sheets@.take(i + 1).drop_last() =~= sheets@.take(i as int));
            }
            append(&mut css, &chars_of(sheets[i].as_str()));
            append(&mut css, &chars_of("\n"));
            i += 1;
        }
        assert(sheets@.take(sheets@.len() as int) =~= sheets@);
        string_of(&css)
    }

    /// What goes into a page for the local style sheets `sheets`: one
    /// `<style>` element. It holds `minified` where the joined sheets were
    /// minified, and the joined sheets themselves where they were not.
    pub fn load_from_files(sheets: &Vec<String>, minified: Option<&str>) -> (out: String)
        ensures
            out@ == style_block(
                match minified {
                    Some(css) => css@,
                    None => joined_sheets(sheets@),
                },
            ),
    {
        let css = match minified {
            Some(css) => chars_of(css),
            None => chars_of(PrimeDownInjectCSS::stylesheet(sheets).as_str()),
        };
        let mut out = chars_of("<style>");
        append(&mut out, &css);
        append(&mut out, &chars_of("</style>"));
        string_of(&out)
    }
}

} // verus!
