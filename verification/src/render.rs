//! A report as lines of text. Each line is made of spans, and each span says
//! in which tone it is meant, so that colouring is left to whoever prints.

use vstd::prelude::*;
use vstd::string::StringExecFns;
use crate::check::{
    any_violated, any_violation, summary_findings, CommitFinding, CommitReport, Findings, Report,
    Summary,
};
use crate::fix::{short_hash, short_hash_text};
use crate::text::{decimal, decimal_text};

verus! {

/// The tone of a piece of text.
#[derive(Debug, Clone, Copy, PartialEq, Eq, Structural)]
pub enum Tone {
    Plain,
    Good,
    GoodBold,
    Bad,
    BadBold,
}

/// A piece of text in one tone.
#[derive(Debug, Clone)]
pub struct Span {
    pub text: String,
    pub tone: Tone,
}

/// A line of spans. An empty line has none.
#[derive(Debug, Clone)]
pub struct Line {
    pub spans: Vec<Span>,
}

/// A span as plain values.
pub ghost struct SpanText {
    pub text: Seq<char>,
    pub tone: Tone,
}

impl View for Span {
    type V = SpanText;

    open spec fn view(&self) -> SpanText {
        SpanText { text: self.text@, tone: self.tone }
    }
}

impl View for Line {
    type V = Seq<SpanText>;

    open spec fn view(&self) -> Seq<SpanText> {
        self.spans@.map_values(|s: Span| s@)
    }
}

/// The views of a list of lines.
pub open spec fn line_views(lines: Seq<Line>) -> Seq<Seq<SpanText>> {
    lines.map_values(|l: Line| l@)
}

/// Text in the plain tone.
pub open spec fn plain(text: Seq<char>) -> SpanText {
    SpanText { text, tone: Tone::Plain }
}

/// `OK` in the good tone, or `INVALID` in the bad one.
pub open spec fn status(ok: bool) -> SpanText {
    if ok {
        SpanText { text: "OK"@, tone: Tone::Good }
    } else {
        SpanText { text: "INVALID"@, tone: Tone::Bad }
    }
}

/// The line for one commit: its short hash, its subject and its status.
pub open spec fn commit_line(c: CommitFinding) -> Seq<SpanText> {
    seq![
        plain("- "@ + short_hash_text(c.hash) + " "@ + c.message + " ["@),
        status(c.valid),
        plain("]"@),
    ]
}

/// The line for one staged secret.
pub open spec fn sensitive_line(path: Seq<char>) -> Seq<SpanText> {
    seq![plain("  - "@), SpanText { text: path, tone: Tone::Bad }]
}

/// The lines about the branch, and the heading of the commits.
pub open spec fn branch_lines(found: Findings) -> Seq<Seq<SpanText>> {
    seq![
        seq![plain("Branch: "@ + found.branch.name)],
        seq![plain("Pattern: "@ + found.branch.pattern)],
        seq![plain("Branch: "@), status(found.branch.valid)],
        Seq::empty(),
        seq![plain("Commits:"@)],
    ]
}

/// The lines about the state of the repository.
pub open spec fn repo_lines(found: Findings) -> Seq<Seq<SpanText>> {
    seq![
        Seq::empty(),
        seq![
            plain("Repo: worktree_clean="@),
            status(found.repo.worktree_clean),
            plain(", upstream_set="@),
            status(found.repo.upstream_set),
        ],
    ]
}

/// The lines about staged secrets: none where none is staged.
pub open spec fn sensitive_lines(paths: Seq<Seq<char>>) -> Seq<Seq<SpanText>> {
    if paths.len() == 0 {
        Seq::empty()
    } else {
        seq![Seq::empty(), seq![SpanText { text: "Sensitive files staged:"@, tone: Tone::BadBold }]]
            + paths.map_values(|p: Seq<char>| sensitive_line(p))
    }
}

/// The last line: that all is well, or what is not.
pub open spec fn summary_line(summary: Summary) -> Seq<SpanText> {
    if !any_violated(summary_findings(summary)) {
        seq![SpanText { text: "Summary: ALL OK"@, tone: Tone::GoodBold }]
    } else {
        seq![
            plain("Summary: branch_ok="@),
            status(summary.branch_valid),
            plain(
                ", invalid_commits="@ + decimal_text(summary.invalid_commits as nat)
                    + ", sensitive_files="@ + decimal_text(summary.sensitive_files as nat),
            ),
        ]
    }
}

/// The whole report: branch, commits, repository, staged secrets, summary.
pub open spec fn report_lines(found: Findings, summary: Summary) -> Seq<Seq<SpanText>> {
    branch_lines(found) + found.commits.map_values(|c: CommitFinding| commit_line(c)) + repo_lines(
        found,
    ) + sensitive_lines(found.sensitive) + seq![Seq::empty(), summary_line(summary)]
}

fn plain_span(text: String) -> (span: Span)
    ensures
        span@ == plain(text@),
{
    Span { text, tone: Tone::Plain }
}

fn status_span(ok: bool) -> (span: Span)
    ensures
        span@ == status(ok),
{
    if ok {
        Span { text: "OK".to_owned(), tone: Tone::Good }
    } else {
        Span { text: "INVALID".to_owned(), tone: Tone::Bad }
    }
}

fn empty_line() -> (line: Line)
    ensures
        line@ == Seq::<SpanText>::empty(),
{
    let line = Line { spans: Vec::new() };
    line
}

fn line_of_one(a: Span) -> (line: Line)
    ensures
        line@ == seq![a@],
{
    let mut spans: Vec<Span> = Vec::new();
    spans.push(a);
    let line = Line { spans };
    line
}

fn line_of_two(a: Span, b: Span) -> (line: Line)
    ensures
        line@ == seq![a@, b@],
{
    let mut spans: Vec<Span> = Vec::new();
    spans.push(a);
    spans.push(b);
    let line = Line { spans };
    line
}

fn line_of_three(a: Span, b: Span, c: Span) -> (line: Line)
    ensures
        line@ == seq![a@, b@, c@],
{
    let mut spans: Vec<Span> = Vec::new();
    spans.push(a);
    spans.push(b);
    spans.push(c);
    let line = Line { spans };
    line
}

fn render_commit(c: &CommitReport) -> (line: Line)
    ensures
        line@ == commit_line(c@),
{
    let lead = "- ".to_owned().concat(short_hash(c.hash.as_str()).as_str()).concat(" ").concat(
        c.message.as_str(),
    ).concat(" [");
    line_of_three(plain_span(lead), status_span(c.valid), plain_span("]".to_owned()))
}

fn render_summary(summary: &Summary) -> (line: Line)
    ensures
        line@ == summary_line(*summary),
{
    let findings = summary.findings();
    if !any_violation(&findings) {
        line_of_one(Span { text: "Summary: ALL OK".to_owned(), tone: Tone::GoodBold })
    } else {
        let counts = ", invalid_commits=".to_owned().concat(
            decimal(summary.invalid_commits).as_str(),
        ).concat(", sensitive_files=").concat(decimal(summary.sensitive_files).as_str());
        line_of_three(
            plain_span("Summary: branch_ok=".to_owned()),
            status_span(summary.branch_valid),
            plain_span(counts),
        )
    }
}

/// Writes the report out as lines.
pub fn render_report(report: &Report) -> (lines: Vec<Line>)
    ensures
        line_views(lines@) == report_lines(report@, report.summary),
{
    let ghost found = report@;
    let mut lines: Vec<Line> = Vec::new();
    lines.push(line_of_one(plain_span("Branch: ".to_owned().concat(report.branch.name.as_str()))));
    lines.push(
        line_of_one(plain_span("Pattern: ".to_owned().concat(report.branch.pattern.as_str()))),
    );
    lines.push(line_of_two(plain_span("Branch: ".to_owned()), status_span(report.branch.valid)));
    lines.push(empty_line());
    lines.push(line_of_one(plain_span("Commits:".to_owned())));

    let ghost commit_to_line = |c: CommitFinding| commit_line(c);
    let mut i: usize = 0;
    while i < report.commits.len()
        invariant
            i <= report.commits.len(),
            found == report@,
            commit_to_line == (|c: CommitFinding| commit_line(c)),
            line_views(lines@) == branch_lines(found) + found.commits.take(i as int).map_values(
                commit_to_line,
            ),
        decreases report.commits.len() - i,
    {
        let ghost before = lines@;
        let line = render_commit(&report.commits[i]);
        lines.push(line);
        assert(line_views(lines@) =~= line_views(before).push(commit_line(report.commits@[i as int]@)));
        i += 1;
    }
    assert(found.commits.take(report.commits.len() as int) =~= found.commits);
    let ghost upper = branch_lines(found) + found.commits.map_values(commit_to_line) + repo_lines(
        found,
    );
    lines.push(empty_line());
    let repo_line = {
        let mut spans: Vec<Span> = Vec::new();
        spans.push(plain_span("Repo: worktree_clean=".to_owned()));
        spans.push(status_span(report.repo.worktree_clean));
        spans.push(plain_span(", upstream_set=".to_owned()));
        spans.push(status_span(report.repo.upstream_set));
        Line { spans }
    };
    assert(repo_line@ =~= repo_lines(found)[1]);
    lines.push(repo_line);

    let ghost path_to_line = |p: Seq<char>| sensitive_line(p);
    if report.sensitive.files.len() > 0 {
        lines.push(empty_line());
        lines.push(
            line_of_one(Span { text: "Sensitive files staged:".to_owned(), tone: Tone::BadBold }),
        );
        let ghost head = upper + seq![
            Seq::empty(),
            seq![SpanText { text: "Sensitive files staged:"@, tone: Tone::BadBold }],
        ];
        let mut k: usize = 0;
        while k < report.sensitive.files.len()
            invariant
                k <= report.sensitive.files.len(),
                found == report@,
                path_to_line == (|p: Seq<char>| sensitive_line(p)),
                line_views(lines@) == head + found.sensitive.take(k as int).map_values(path_to_line),
            decreases report.sensitive.files.len() - k,
        {
            let ghost before = lines@;
            let line = line_of_two(
                plain_span("  - ".to_owned()),
                Span { text: report.sensitive.files[k].clone(), tone: Tone::Bad },
            );
            lines.push(line);
            assert(line_views(lines@) =~= line_views(before).push(
                sensitive_line(report.sensitive.files@[k as int]@),
            ));
            k += 1;
        }
        assert(line_views(lines@) =~= upper + sensitive_lines(found.sensitive));
    }
    lines.push(empty_line());
    lines.push(render_summary(&report.summary));
    lines
}

} // verus!
