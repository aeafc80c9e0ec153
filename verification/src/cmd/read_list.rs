use crate::cmd::download::{
    is_url_text, looks_like_url, start_spec, Download, DownloadOutcome, Job, JobView,
};
use crate::cmd::syntax::{
    carries_ignore, classify_spec, derived_path, ignore_flag_chars, ignore_flag_spec,
    strip_ignore, Directive, DirectiveView, Lexico,
};
use crate::text::{chars_of, has_suffix, string_of, string_view, trim, trimmed};
use crate::utils::url::{document_chars, document_link, escape_chars, escaped_quotes};
use crate::utils::validation::Validate;
use vstd::prelude::*;

verus! {

/// What a run over one list remembers from line to line: the directory that
/// its downloads go to, once a line has established it. It is established at
/// most once in a run.
#[derive(Clone, Debug, PartialEq, Eq)]
pub struct RunState {
    pub current_output_path: Option<String>,
}

impl View for RunState {
    type V = Option<Seq<char>>;

    open spec fn view(&self) -> Option<Seq<char>> {
        string_view(self.current_output_path)
    }
}

/// What is to be done for one line.
#[derive(Clone, Debug, PartialEq, Eq)]
pub enum LineAction {
    /// Nothing.
    Skip,
    /// Hand the line to whatever opens links.
    OpenLink(String),
    /// Create the output directory that the line has just established, by
    /// declaring it or by being the first plain line of the run; a directory
    /// that is there already is no failure.
    CreateDirectory(String),
    /// Run the download. Where `create_directory` is set, the line has just
    /// established the output directory, which is to be created first. Where
    /// `deliver_to` holds a destination, the file is to be handed on to it.
    Download { job: Job, create_directory: bool, deliver_to: Option<String> },
}

pub enum ActionView {
    Skip,
    OpenLink(Seq<char>),
    CreateDirectory(Seq<char>),
    Download { job: JobView, create_directory: bool, deliver_to: Option<Seq<char>> },
}

impl View for LineAction {
    type V = ActionView;

    open spec fn view(&self) -> ActionView {
        match *self {
            LineAction::Skip => ActionView::Skip,
            LineAction::OpenLink(line) => ActionView::OpenLink(line@),
            LineAction::CreateDirectory(path) => ActionView::CreateDirectory(path@),
            LineAction::Download { job, create_directory, deliver_to } => ActionView::Download {
                job: job@,
                create_directory,
                deliver_to: string_view(deliver_to),
            },
        }
    }
}

/// What a whole list asks for.
#[derive(Clone, Debug, PartialEq, Eq)]
pub struct ListPlan {
    /// The name of the list lacks the extension `.txt`: to be reported, not to
    /// stop the run.
    pub unexpected_extension: bool,
    /// What is to be done, line by line.
    pub actions: Vec<LineAction>,
}

/// The texts of a list of lines.
pub open spec fn texts(lines: Seq<String>) -> Seq<Seq<char>> {
    Seq::new(lines.len(), |i: int| lines[i]@)
}

/// The views of a list of actions.
pub open spec fn action_views(actions: Seq<LineAction>) -> Seq<ActionView> {
    Seq::new(actions.len(), |i: int| actions[i]@)
}

/// A text as the download sees it: its quotes escaped, and pointing at the
/// document where it named an abstract page of the archive.
pub open spec fn link_of(text: Seq<char>) -> Seq<char> {
    document_link(escaped_quotes(text))
}

/// The URL that a line asks to download, if it asks for one. A plain line
/// asks for itself. An annotated line asks for what is left without its
/// annotation, unless annotated lines are turned away (`no_ignore`). A
/// comment asks for nothing, unless comments are not skipped
/// (`no_comments`): then it is taken as plain text, as it stands or, where
/// it carries the annotation, as an annotated line is. Open-link lines and
/// path declarations ask for nothing.
pub open spec fn candidate_spec(line: Seq<char>, no_ignore: bool, no_comments: bool) -> Option<
    Seq<char>,
> {
    match classify_spec(line) {
        DirectiveView::OpenLinkDirective => None,
        DirectiveView::PathDeclaration(_) => None,
        DirectiveView::Comment => if no_comments {
            match ignore_flag_spec(trim(line), no_ignore) {
                Some(text) => Some(link_of(text)),
                None => None,
            }
        } else {
            None
        },
        DirectiveView::IgnoreAnnotation(cleaned) => if no_ignore {
            None
        } else {
            Some(link_of(cleaned))
        },
        DirectiveView::Plain(url) => Some(link_of(url)),
    }
}

/// Whether a line that asks for a download is taken for a URL: the line as
/// it stands, white space at its ends aside, escaped and rewritten. The
/// annotation, if it carries one, is still in it.
pub open spec fn recognised_spec(line: Seq<char>, no_ignore: bool, no_comments: bool) -> bool {
    match candidate_spec(line, no_ignore, no_comments) {
        Some(_) => is_url_text(link_of(trim(line))),
        None => false,
    }
}

/// The output directory of a run after a line that goes on as plain: the one
/// established before, or else the one derived from the line. A line from
/// which no directory can be derived establishes none.
pub open spec fn path_after(state: Option<Seq<char>>, line: Seq<char>) -> Option<Seq<char>> {
    match state {
        Some(path) => Some(path),
        None => if derived_path(trim(line)).len() > 0 {
            Some(derived_path(trim(line)))
        } else {
            None
        },
    }
}

/// One step of a run: the state after `line`, and what is to be done for it.
/// `recognised` says whether the line as it stands was taken for a URL.
///
/// An open-link line is handed on, unless `no_open_link` holds that back, and
/// leaves the state as it is. So does a line that asks for no download: a
/// comment while comments are skipped, an annotated line that is turned away.
///
/// The first line of any other kind establishes the output directory of the
/// run, whether its text is taken for a URL or not: a path declaration
/// establishes the directory it names, another line the one derived from it.
/// An empty name establishes nothing, and once the directory is established
/// no line changes it.
///
/// A line whose URL is recognised is downloaded into the directory of the
/// run; while there is none, into the empty path.
pub open spec fn step_spec(
    state: Option<Seq<char>>,
    line: Seq<char>,
    no_ignore: bool,
    no_comments: bool,
    no_open_link: bool,
    kindle: Option<Seq<char>>,
    recognised: bool,
) -> (Option<Seq<char>>, ActionView) {
    match classify_spec(line) {
        DirectiveView::OpenLinkDirective => (
            state,
            if no_open_link {
                ActionView::Skip
            } else {
                ActionView::OpenLink(trim(line))
            },
        ),
        DirectiveView::PathDeclaration(path) => if state is None && path.len() > 0 {
            (Some(path), ActionView::CreateDirectory(path))
        } else {
            (state, ActionView::Skip)
        },
        _ => match candidate_spec(line, no_ignore, no_comments) {
            Some(url) => {
                let next = path_after(state, line);
                if recognised {
                    (
                        next,
                        ActionView::Download {
                            job: start_spec(
                                url,
                                match next {
                                    Some(path) => path,
                                    None => Seq::empty(),
                                },
                            ),
                            create_directory: state is None && next is Some,
                            deliver_to: kindle,
                        },
                    )
                } else if state is None && next is Some {
                    (next, ActionView::CreateDirectory(next->0))
                } else {
                    (state, ActionView::Skip)
                }
            },
            None => (state, ActionView::Skip),
        },
    }
}

/// What a list of lines asks for, from the state `state` on: one action for
/// each line, in order, each step starting from the state that the one
/// before left.
pub open spec fn plan_spec(
    lines: Seq<Seq<char>>,
    state: Option<Seq<char>>,
    no_ignore: bool,
    no_comments: bool,
    no_open_link: bool,
    kindle: Option<Seq<char>>,
) -> Seq<ActionView>
    decreases lines.len(),
{
    if lines.len() == 0 {
        Seq::empty()
    } else {
        let (next, action) = step_spec(
            state,
            lines[0],
            no_ignore,
            no_comments,
            no_open_link,
            kindle,
            recognised_spec(lines[0], no_ignore, no_comments),
        );
        seq![action] + plan_spec(
            lines.skip(1),
            next,
            no_ignore,
            no_comments,
            no_open_link,
            kindle,
        )
    }
}

fn link(text: &Vec<char>) -> (out: String)
    ensures
        out@ == link_of(text@),
{
    string_of(&document_chars(&escape_chars(text)))
}

fn copy_text(s: &Option<String>) -> (out: Option<String>)
    ensures
        string_view(out) == string_view(*s),
{
    match s {
        Some(t) => Some(t.clone()),
        None => None,
    }
}

/// The reader of lists.
pub struct ReadList;

impl ReadList {
    /// The URL that `line` asks to download, if it asks for one.
    pub fn candidate(line: &str, no_ignore: bool, no_comments: bool) -> (out: Option<String>)
        ensures
            string_view(out) == candidate_spec(line@, no_ignore, no_comments),
    {
        match Lexico::classify(line) {
            Directive::OpenLinkDirective => None,
            Directive::PathDeclaration(_) => None,
            Directive::Comment => if no_comments {
                match ignore_flag_chars(trimmed(&chars_of(line)), no_ignore) {
                    Some(text) => Some(link(&text)),
                    None => None,
                }
            } else {
                None
            },
            Directive::IgnoreAnnotation(cleaned) => if no_ignore {
                None
            } else {
                Some(link(&chars_of(cleaned.as_str())))
            },
            Directive::Plain(url) => Some(link(&chars_of(url.as_str()))),
        }
    }

    /// One step of a run: takes the state before `line` and gives the state
    /// after it, with what is to be done for the line. `recognised` says
    /// whether the line as it stands was taken for a URL.
    pub fn step(
        state: RunState,
        line: &str,
        no_ignore: bool,
        no_comments: bool,
        no_open_link: bool,
        kindle: &Option<String>,
        recognised: bool,
    ) -> (r: (RunState, LineAction))
        ensures
            (r.0@, r.1@) == step_spec(
                state@,
                line@,
                no_ignore,
                no_comments,
                no_open_link,
                string_view(*kindle),
                recognised,
            ),
    {
        match Lexico::classify(line) {
            Directive::OpenLinkDirective => {
                let action = if no_open_link {
                    LineAction::Skip
                } else {
                    LineAction::OpenLink(string_of(&trimmed(&chars_of(line))))
                };
                (state, action)
            },
            Directive::PathDeclaration(path) => {
                if state.current_output_path.is_none() && !path.as_str().is_empty() {
                    let declared = path.clone();
                    (
                        RunState { current_output_path: Some(path) },
                        LineAction::CreateDirectory(declared),
                    )
                } else {
                    (state, LineAction::Skip)
                }
            },
            _ => {
                let url = match ReadList::candidate(line, no_ignore, no_comments) {
                    Some(url) => url,
                    None => {
                        return (state, LineAction::Skip);
                    },
                };
                let fresh = state.current_output_path.is_none();
                let next: Option<String> = match state.current_output_path {
                    Some(path) => Some(path),
                    None => {
                        let derived = Lexico::handle_get_path(line);
                        if derived.as_str().is_empty() {
                            None
                        } else {
                            Some(derived)
                        }
                    },
                };
                let established = fresh && next.is_some();
                if recognised {
                    let job = match &next {
                        Some(path) => Download::make_download(url.as_str(), path.as_str()),
                        None => Download::make_download(url.as_str(), ""),
                    };
                    proof {
                        reveal_strlit("");
                        assert(""@ =~= Seq::<char>::empty());
                    }
                    (
                        RunState { current_output_path: next },
                        LineAction::Download {
                            job,
                            create_directory: established,
                            deliver_to: copy_text(kindle),
                        },
                    )
                } else if established {
                    let created = copy_text(&next);
                    match created {
                        Some(path) => (
                            RunState { current_output_path: next },
                            LineAction::CreateDirectory(path),
                        ),
                        None => (RunState { current_output_path: next }, LineAction::Skip),
                    }
                } else {
                    (RunState { current_output_path: next }, LineAction::Skip)
                }
            },
        }
    }

    /// Where the file of a finished download is to be handed on to: the
    /// destination set for its line, where the download stored a file;
    /// nowhere otherwise.
    pub fn delivery(outcome: &DownloadOutcome, deliver_to: &Option<String>) -> (to: Option<String>)
        ensures
            string_view(to) == if outcome@ is Success {
                string_view(*deliver_to)
            } else {
                None
            },
    {
        match outcome {
            DownloadOutcome::Success(_) => copy_text(deliver_to),
            _ => None,
        }
    }

    /// Goes through the lines of a list from a fresh state and says what is
    /// to be done for each.
    pub fn read_lines(
        lines: &Vec<String>,
        no_ignore: bool,
        no_comments: bool,
        no_open_link: bool,
        kindle: &Option<String>,
    ) -> (actions: Vec<LineAction>)
        ensures
            action_views(actions@) == plan_spec(
                texts(lines@),
                None,
                no_ignore,
                no_comments,
                no_open_link,
                string_view(*kindle),
            ),
    {
        let mut actions: Vec<LineAction> = Vec::new();
        let mut state = RunState { current_output_path: None };
        let mut i: usize = 0;
        assert(texts(lines@).skip(0) =~= texts(lines@));
        assert(action_views(actions@) =~= Seq::<ActionView>::empty());
        while i < lines.len()
            invariant
                i <= lines.len(),
                action_views(actions@) + plan_spec(
                    texts(lines@).skip(i as int),
                    state@,
                    no_ignore,
                    no_comments,
                    no_open_link,
                    string_view(*kindle),
                ) == plan_spec(
                    texts(lines@),
                    None,
                    no_ignore,
                    no_comments,
                    no_open_link,
                    string_view(*kindle),
                ),
            decreases lines.len() - i,
        {
            let line = lines[i].as_str();
            let recognised = match ReadList::candidate(line, no_ignore, no_comments) {
                Some(_) => looks_like_url(link(&trimmed(&chars_of(line))).as_str()),
                None => false,
            };
            let ghost before = action_views(actions@);
            let ghost rest = texts(lines@).skip(i as int);
            let ghost old_state = state@;
            let (next, action) = ReadList::step(
                state,
                line,
                no_ignore,
                no_comments,
                no_open_link,
                kindle,
                recognised,
            );
            state = next;
            actions.push(action);
            i += 1;
            proof {
                assert(rest[0] == line@);
                assert(rest.skip(1) =~= texts(lines@).skip(i as int));
                let tail = plan_spec(
                    texts(lines@).skip(i as int),
                    state@,
                    no_ignore,
                    no_comments,
                    no_open_link,
                    string_view(*kindle),
                );
                assert(action_views(actions@) =~= before.push(action@));
                assert(before.push(action@) + tail =~= before + (seq![action@] + tail));
            }
        }
        assert(action_views(actions@) + Seq::<ActionView>::empty() =~= action_views(actions@));
        actions
    }

    /// What the list in the local file `run` asks for, given the lines that
    /// were read from it.
    pub fn read_local_file(
        run: &str,
        lines: &Vec<String>,
        no_ignore: bool,
        no_comments: bool,
        no_open_link: bool,
        kindle: &Option<String>,
    ) -> (plan: ListPlan)
        ensures
            plan.unexpected_extension == !has_suffix(run@, ".txt"@),
            action_views(plan.actions@) == plan_spec(
                texts(lines@),
                None,
                no_ignore,
                no_comments,
                no_open_link,
                string_view(*kindle),
            ),
    {
        ListPlan {
            unexpected_extension: Validate::validate_file_type(run, ".txt").is_err(),
            actions: ReadList::read_lines(lines, no_ignore, no_comments, no_open_link, kindle),
        }
    }

    /// What the list behind the URL `run` asks for, given the lines that
    /// were fetched from it.
    pub fn read_remote_file(
        run: &str,
        lines: &Vec<String>,
        no_ignore: bool,
        no_comments: bool,
        no_open_link: bool,
        kindle: &Option<String>,
    ) -> (plan: ListPlan)
        ensures
            plan.unexpected_extension == !has_suffix(run@, ".txt"@),
            action_views(plan.actions@) == plan_spec(
                texts(lines@),
                None,
                no_ignore,
                no_comments,
                no_open_link,
                string_view(*kindle),
            ),
    {
        ListPlan {
            unexpected_extension: Validate::validate_file_type(run, ".txt").is_err(),
            actions: ReadList::read_lines(lines, no_ignore, no_comments, no_open_link, kindle),
        }
    }
}

/// A comment, while comments are skipped, asks for no download and leaves the
/// state of the run as it is, whatever the state and the other settings are.
pub proof fn lemma_comment_changes_nothing(
    state: Option<Seq<char>>,
    line: Seq<char>,
    no_ignore: bool,
    no_open_link: bool,
    kindle: Option<Seq<char>>,
    recognised: bool,
)
    requires
        classify_spec(line) is Comment,
    ensures
        step_spec(state, line, no_ignore, false, no_open_link, kindle, recognised) == (
            state,
            ActionView::Skip,
        ),
{
}

/// A line that carries the annotation `!ignore`, be it an annotated line or
/// a comment while comments are not skipped, is skipped and leaves the state
/// of the run as it is where annotated lines are turned away. Where they are
/// not, what it asks to download is what is left of it without the
/// annotation, and that is downloaded where the line is taken for a URL.
pub proof fn lemma_annotation_decides(
    state: Option<Seq<char>>,
    line: Seq<char>,
    no_comments: bool,
    no_open_link: bool,
    kindle: Option<Seq<char>>,
    recognised: bool,
)
    requires
        carries_ignore(trim(line)),
        classify_spec(line) is IgnoreAnnotation || (classify_spec(line) is Comment && no_comments),
    ensures
        step_spec(state, line, true, no_comments, no_open_link, kindle, recognised) == (
            state,
            ActionView::Skip,
        ),
        candidate_spec(line, false, no_comments) == Some(link_of(strip_ignore(trim(line)))),
        step_spec(state, line, false, no_comments, no_open_link, kindle, true).1 is Download,
        step_spec(state, line, false, no_comments, no_open_link, kindle, true).1->job.url
            == link_of(strip_ignore(trim(line))),
{
}

/// The first line that goes on as plain establishes the output directory of
/// the run, whether its text is taken for a URL or not: the state after it
/// holds the directory derived from the line. Where the text is not taken for
/// a URL the directory is created and nothing downloaded; where it is, the
/// download goes into that directory, which is created first.
pub proof fn lemma_first_plain_line_establishes(
    line: Seq<char>,
    no_ignore: bool,
    no_comments: bool,
    no_open_link: bool,
    kindle: Option<Seq<char>>,
    recognised: bool,
)
    requires
        candidate_spec(line, no_ignore, no_comments) is Some,
        derived_path(trim(line)).len() > 0,
    ensures
        step_spec(None, line, no_ignore, no_comments, no_open_link, kindle, recognised).0
            == Some(derived_path(trim(line))),
        !recognised ==> step_spec(
            None,
            line,
            no_ignore,
            no_comments,
            no_open_link,
            kindle,
            recognised,
        ).1 == ActionView::CreateDirectory(derived_path(trim(line))),
        recognised ==> step_spec(
            None,
            line,
            no_ignore,
            no_comments,
            no_open_link,
            kindle,
            recognised,
        ).1 == (ActionView::Download {
            job: start_spec(
                candidate_spec(line, no_ignore, no_comments)->0,
                derived_path(trim(line)),
            ),
            create_directory: true,
            deliver_to: kindle,
        }),
{
}

/// A run whose output directory is established keeps it to its end: every
/// download of the lines that follow goes into that directory, and none of
/// them has a directory created.
pub proof fn lemma_run_keeps_its_path(
    lines: Seq<Seq<char>>,
    path: Seq<char>,
    no_ignore: bool,
    no_comments: bool,
    no_open_link: bool,
    kindle: Option<Seq<char>>,
)
    ensures
        plan_spec(lines, Some(path), no_ignore, no_comments, no_open_link, kindle).len()
            == lines.len(),
        forall|i: int|
            0 <= i < lines.len() ==> match #[trigger] plan_spec(
                lines,
                Some(path),
                no_ignore,
                no_comments,
                no_open_link,
                kindle,
            )[i] {
                ActionView::Download { job, create_directory, deliver_to } => job.path == path
                    && !create_directory && deliver_to == kindle,
                ActionView::CreateDirectory(_) => false,
                _ => true,
            },
    decreases lines.len(),
{
    if lines.len() > 0 {
        lemma_run_keeps_its_path(
            lines.skip(1),
            path,
            no_ignore,
            no_comments,
            no_open_link,
            kindle,
        );
        let rest = plan_spec(lines.skip(1), Some(path), no_ignore, no_comments, no_open_link, kindle);
        let all = plan_spec(lines, Some(path), no_ignore, no_comments, no_open_link, kindle);
        assert forall|i: int| 0 < i < lines.len() implies all[i] == rest[i - 1] by {}
    }
}

/// Once a run has its output directory, no line changes it.
pub proof fn lemma_path_set_once(
    path: Seq<char>,
    line: Seq<char>,
    no_ignore: bool,
    no_comments: bool,
    no_open_link: bool,
    kindle: Option<Seq<char>>,
    recognised: bool,
)
    ensures
        step_spec(
            Some(path),
            line,
            no_ignore,
            no_comments,
            no_open_link,
            kindle,
            recognised,
        ).0 == Some(path),
{
}

} // verus!
