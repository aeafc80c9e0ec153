use crate::text::{
    append, chars_of, contains, copy_of, has_prefix, includes, replace, replace_all, slice_of,
    starts_with, string_of, string_view, trim, trimmed, unquote, unquoted,
};
use vstd::prelude::*;

verus! {

/// What one line of a list asks for.
#[derive(Clone, Debug, PartialEq, Eq)]
pub enum Directive {
    /// A note for the reader: the line begins with `//`.
    Comment,
    /// A line that carries `!ignore`; the payload is the line without it.
    IgnoreAnnotation(String),
    /// `path <directory>`: the directory that the downloads go to.
    PathDeclaration(String),
    /// The line begins with `!open_link`.
    OpenLinkDirective,
    /// Anything else: text to be taken as a URL.
    Plain(String),
}

/// A `Directive` with its texts as sequences of characters.
pub enum DirectiveView {
    Comment,
    IgnoreAnnotation(Seq<char>),
    PathDeclaration(Seq<char>),
    OpenLinkDirective,
    Plain(Seq<char>),
}

impl View for Directive {
    type V = DirectiveView;

    open spec fn view(&self) -> DirectiveView {
        match *self {
            Directive::Comment => DirectiveView::Comment,
            Directive::IgnoreAnnotation(s) => DirectiveView::IgnoreAnnotation(s@),
            Directive::PathDeclaration(s) => DirectiveView::PathDeclaration(s@),
            Directive::OpenLinkDirective => DirectiveView::OpenLinkDirective,
            Directive::Plain(s) => DirectiveView::Plain(s@),
        }
    }
}

/// A macro is written as `!` and a word.
pub open spec fn macro_token(word: Seq<char>) -> Seq<char> {
    "!"@ + word
}

/// The line, white space aside, begins with the macro `word`.
pub open spec fn is_macro_line(line: Seq<char>, word: Seq<char>) -> bool {
    has_prefix(trim(line), macro_token(word))
}

/// The line, white space aside, begins with the comment marker `//`.
pub open spec fn is_comment(line: Seq<char>) -> bool {
    has_prefix(trim(line), "//"@)
}

/// The line carries the annotation `!ignore`.
pub open spec fn carries_ignore(line: Seq<char>) -> bool {
    contains(line, macro_token("ignore"@))
}

/// The line without any `!ignore`, and without the white space left at its
/// ends.
pub open spec fn strip_ignore(line: Seq<char>) -> Seq<char> {
    trim(replace_all(line, macro_token("ignore"@), Seq::empty()))
}

/// What goes on of a line as far as the annotation `!ignore` has a say: a
/// line without it goes on as it is; an annotated one goes on without its
/// annotation, or not at all where `no_ignore` turns annotated lines away.
pub open spec fn ignore_flag_spec(line: Seq<char>, no_ignore: bool) -> Option<Seq<char>> {
    if !carries_ignore(line) {
        Some(line)
    } else if no_ignore {
        None
    } else {
        Some(strip_ignore(line))
    }
}

/// The line declares the output directory: it begins with `path` and a
/// space.
pub open spec fn is_path_line(line: Seq<char>) -> bool {
    has_prefix(line, "path "@)
}

/// The directory that a path declaration names: what follows the keyword,
/// without white space at its ends and without enclosing double quotes.
pub open spec fn declared_path(line: Seq<char>) -> Seq<char> {
    unquote(trim(line.skip("path "@.len() as int)))
}

/// A character that a directory name keeps: an ASCII letter or digit, `-`,
/// `_` or `.`.
pub open spec fn is_slug_char(c: char) -> bool {
    let n = c as u32;
    (0x30 <= n <= 0x39) || (0x41 <= n <= 0x5a) || (0x61 <= n <= 0x7a) || n == 0x2d || n == 0x5f
        || n == 0x2e
}

/// A directory name made from a line: every character that a directory name
/// does not keep becomes `_`.
pub open spec fn slug(line: Seq<char>) -> Seq<char> {
    Seq::new(
        line.len(),
        |i: int|
            if is_slug_char(line[i]) {
                line[i]
            } else {
                '_'
            },
    )
}

/// The output directory that a trimmed line stands for: the declared one, or
/// the slug of the line.
pub open spec fn derived_path(line: Seq<char>) -> Seq<char> {
    if is_path_line(line) {
        declared_path(line)
    } else {
        slug(line)
    }
}

/// The one directive that a line is. The open-link macro wins over all else,
/// then the comment marker, the path declaration and the ignore annotation;
/// what is none of them is plain.
pub open spec fn classify_spec(line: Seq<char>) -> DirectiveView {
    let t = trim(line);
    if has_prefix(t, macro_token("open_link"@)) {
        DirectiveView::OpenLinkDirective
    } else if has_prefix(t, "//"@) {
        DirectiveView::Comment
    } else if is_path_line(t) {
        DirectiveView::PathDeclaration(declared_path(t))
    } else if carries_ignore(t) {
        DirectiveView::IgnoreAnnotation(strip_ignore(t))
    } else {
        DirectiveView::Plain(t)
    }
}

/// The text of a line that goes on to be downloaded, if any. A plain line
/// goes on as it is. An annotated line goes on without its annotation unless
/// annotated lines are turned away (`no_ignore`). A comment goes on only
/// where comments are not skipped (`no_comments`), and then as plain text: as
/// it stands, or as an annotated line does where it carries the annotation.
/// Open-link lines and path declarations never go on.
pub open spec fn target_spec(line: Seq<char>, no_ignore: bool, no_comments: bool) -> Option<
    Seq<char>,
> {
    match classify_spec(line) {
        DirectiveView::OpenLinkDirective => None,
        DirectiveView::PathDeclaration(_) => None,
        DirectiveView::Comment => if no_comments {
            ignore_flag_spec(trim(line), no_ignore)
        } else {
            None
        },
        DirectiveView::IgnoreAnnotation(cleaned) => if no_ignore {
            None
        } else {
            Some(cleaned)
        },
        DirectiveView::Plain(url) => Some(url),
    }
}

pub(crate) fn macro_chars(word: &str) -> (out: Vec<char>)
    ensures
        out@ == macro_token(word@),
{
    let mut out = chars_of("!");
    append(&mut out, &chars_of(word));
    out
}

pub(crate) fn strip_ignore_chars(line: &Vec<char>) -> (out: Vec<char>)
    ensures
        out@ == strip_ignore(line@),
{
    trimmed(&replace(line, &macro_chars("ignore"), &Vec::new()))
}

pub(crate) fn declared_path_chars(line: &Vec<char>) -> (out: Vec<char>)
    requires
        is_path_line(line@),
    ensures
        out@ == declared_path(line@),
{
    let keyword = chars_of("path ");
    let rest = slice_of(line, keyword.len(), line.len());
    unquoted(&trimmed(&rest))
}

pub(crate) fn slug_chars(line: &Vec<char>) -> (out: Vec<char>)
    ensures
        out@ == slug(line@),
{
    let mut out: Vec<char> = Vec::new();
    let mut i: usize = 0;
    while i < line.len()
        invariant
            i <= line.len(),
            out@ == slug(line@).take(i as int),
        decreases line.len() - i,
    {
        let c: char = line[i];
        let n: u32 = c as u32;
        let keep: bool = (0x30 <= n && n <= 0x39) || (0x41 <= n && n <= 0x5a) || (0x61 <= n && n
            <= 0x7a) || n == 0x2d || n == 0x5f || n == 0x2e;
        if keep {
            out.push(c);
        } else {
            out.push('_');
        }
        assert(out@ =~= slug(line@).take(i + 1));
        i += 1;
    }
    assert(slug(line@).take(line@.len() as int) =~= slug(line@));
    out
}

pub(crate) fn derived_path_chars(line: &Vec<char>) -> (out: Vec<char>)
    ensures
        out@ == derived_path(line@),
{
    if starts_with(line, &chars_of("path ")) {
        declared_path_chars(line)
    } else {
        slug_chars(line)
    }
}

pub(crate) fn target_chars(line: &Vec<char>, no_ignore: bool, no_comments: bool) -> (out: Option<
    Vec<char>,
>)
    ensures
        match out {
            Some(v) => target_spec(line@, no_ignore, no_comments) == Some(v@),
            None => target_spec(line@, no_ignore, no_comments) is None,
        },
{
    let t = trimmed(line);
    if starts_with(&t, &macro_chars("open_link")) {
        None
    } else if starts_with(&t, &chars_of("//")) {
        if no_comments {
            ignore_flag_chars(t, no_ignore)
        } else {
            None
        }
    } else if starts_with(&t, &chars_of("path ")) {
        None
    } else if includes(&t, &macro_chars("ignore")) {
        if no_ignore {
            None
        } else {
            Some(strip_ignore_chars(&t))
        }
    } else {
        Some(t)
    }
}

pub(crate) fn ignore_flag_chars(line: Vec<char>, no_ignore: bool) -> (out: Option<Vec<char>>)
    ensures
        match out {
            Some(v) => ignore_flag_spec(line@, no_ignore) == Some(v@),
            None => ignore_flag_spec(line@, no_ignore) is None,
        },
{
    if !includes(&line, &macro_chars("ignore")) {
        Some(line)
    } else if no_ignore {
        None
    } else {
        Some(strip_ignore_chars(&line))
    }
}

/// The reader of the directives that a list line may hold.
pub struct Lexico;

impl Lexico {
    /// The directive that `line` is.
    pub fn classify(line: &str) -> (d: Directive)
        ensures
            d@ == classify_spec(line@),
    {
        let t = trimmed(&chars_of(line));
        if starts_with(&t, &macro_chars("open_link")) {
            Directive::OpenLinkDirective
        } else if starts_with(&t, &chars_of("//")) {
            Directive::Comment
        } else if starts_with(&t, &chars_of("path ")) {
            Directive::PathDeclaration(string_of(&declared_path_chars(&t)))
        } else if includes(&t, &macro_chars("ignore")) {
            Directive::IgnoreAnnotation(string_of(&strip_ignore_chars(&t)))
        } else {
            Directive::Plain(string_of(&t))
        }
    }

    /// Whether `line` begins with the macro `word`, as `!open_link` does for
    /// the word `open_link`.
    pub fn handle_check_macro_line(line: &str, word: &str) -> (b: bool)
        ensures
            b == is_macro_line(line@, word@),
    {
        starts_with(&trimmed(&chars_of(line)), &macro_chars(word))
    }

    /// Whether `line` is passed over as a comment: it is one, and comments
    /// are skipped.
    pub fn handle_comments(line: &str, no_comments: bool) -> (skip: bool)
        ensures
            skip == (!no_comments && is_comment(line@)),
    {
        !no_comments && starts_with(&trimmed(&chars_of(line)), &chars_of("//"))
    }

    /// The text of `line` that goes on. A line without `!ignore` goes on as
    /// it is. An annotated one goes on without its annotation, or not at all
    /// where `no_ignore` turns annotated lines away.
    pub fn handle_ignore_macro_flag(line: &str, no_ignore: bool) -> (out: Option<String>)
        ensures
            string_view(out) == ignore_flag_spec(line@, no_ignore),
    {
        match ignore_flag_chars(chars_of(line), no_ignore) {
            Some(v) => Some(string_of(&v)),
            None => None,
        }
    }

    /// The output directory that `line` stands for: the one it declares, or
    /// else its slug.
    pub fn handle_get_path(line: &str) -> (out: String)
        ensures
            out@ == derived_path(trim(line@)),
    {
        string_of(&derived_path_chars(&trimmed(&chars_of(line))))
    }

    /// The text of `line` that goes on to be downloaded, if any.
    pub fn target(line: &str, no_ignore: bool, no_comments: bool) -> (out: Option<String>)
        ensures
            string_view(out) == target_spec(line@, no_ignore, no_comments),
    {
        match target_chars(&chars_of(line), no_ignore, no_comments) {
            Some(v) => Some(string_of(&v)),
            None => None,
        }
    }
}

/// A line that goes on and carries the annotation `!ignore`, be it an
/// annotated line or a comment while comments are not skipped, does not go on
/// where annotated lines are turned away; where they are not, what goes on is
/// the line without the annotation.
pub proof fn lemma_annotation_decides(line: Seq<char>, no_comments: bool)
    requires
        carries_ignore(trim(line)),
        classify_spec(line) is IgnoreAnnotation || (classify_spec(line) is Comment && no_comments),
    ensures
        target_spec(line, true, no_comments) is None,
        target_spec(line, false, no_comments) == Some(strip_ignore(trim(line))),
{
}

} // verus!
