//! The hook scripts: what they say, and when a file in the hooks directory
//! may be written or removed.

use vstd::prelude::*;
use vstd::string::StringExecFns;
use crate::text::{
    chars_of, contains_text, has_text, join, joined, same_text, string_of, text_at, texts,
};

verus! {

/// The line that marks a hook file as written by this tool.
pub open spec fn marker() -> Seq<char> {
    "# git-sherpa"@
}

/// The first line of every hook.
pub open spec fn shebang() -> Seq<char> {
    "#!/bin/sh\n"@
}

/// What follows the marker in the pre-commit hook: the check is run in place
/// of the hook, so its exit status is the hook's.
pub open spec fn pre_commit_body() -> Seq<char> {
    "\nexec git-sherpa check\n"@
}

/// What follows the marker in the pre-push hook: a force push is refused
/// before anything else is looked at.
pub open spec fn force_push_guard() -> Seq<char> {
    "\n\n# Block force push\nfor arg in \"$@\"; do\n    case \"$arg\" in\n        --force|-f|--force-with-lease)\n            echo \"git-sherpa: force push is blocked.\"\n            exit 1\n            ;;\n    esac\ndone\n\n"@
}

/// How the test of the current branch begins, up to the protected names.
pub open spec fn branch_test_lead() -> Seq<char> {
    "# Block push to protected branches\ncurrent_branch=$(git rev-parse --abbrev-ref HEAD)\ncase \"$current_branch\" in\n    "@
}

/// How the test of the current branch ends, after the protected names: a
/// push from one of them is refused.
pub open spec fn branch_test_rest() -> Seq<char> {
    ")\n        echo \"git-sherpa: direct push to '$current_branch' is blocked. Use a pull request.\"\n        exit 1\n        ;;\nesac\n\n"@
}

/// The last line of the pre-push hook: the check is run in place of the
/// hook, so its exit status is the hook's.
pub open spec fn delegation() -> Seq<char> {
    "exec git-sherpa check\n"@
}

/// A character that means nothing but itself to the shell, wherever it
/// stands in a word: an ASCII letter or digit, `_`, `-`, `.` or `/`.
pub open spec fn is_plain_char(c: char) -> bool {
    ||| ('a' <= c && c <= 'z')
    ||| ('A' <= c && c <= 'Z')
    ||| ('0' <= c && c <= '9')
    ||| c == '_'
    ||| c == '-'
    ||| c == '.'
    ||| c == '/'
}

/// One character as the shell reads it literally: a plain one as it is, a
/// single quote behind a backslash, any other between single quotes.
pub open spec fn shell_char(c: char) -> Seq<char> {
    if is_plain_char(c) {
        seq![c]
    } else if c == '\'' {
        seq!['\\', '\'']
    } else {
        seq!['\'', c, '\'']
    }
}

/// The characters of a name, each as the shell reads it literally.
pub open spec fn shell_chars(name: Seq<char>) -> Seq<char>
    decreases name.len(),
{
    if name.len() == 0 {
        Seq::empty()
    } else {
        shell_chars(name.drop_last()) + shell_char(name.last())
    }
}

/// A name as one word that the shell compares literally. The empty name and
/// the name `esac`, which the shell would take for the end of the test, stand
/// between single quotes.
pub open spec fn shell_word(name: Seq<char>) -> Seq<char> {
    if name.len() == 0 || name == "esac"@ {
        seq!['\''] + name + seq!['\'']
    } else {
        shell_chars(name)
    }
}

/// Whether a name can stand in a script: it can unless it holds the
/// character with code 0, which no script and no branch name can hold.
pub open spec fn can_be_written(name: Seq<char>) -> bool {
    forall|i: int| 0 <= i < name.len() ==> name[i] != '\0'
}

/// The protected names that can stand in a script, each as a word that the
/// shell compares literally, in their order.
pub open spec fn written_branches(protected_branches: Seq<Seq<char>>) -> Seq<Seq<char>> {
    protected_branches.filter(|name: Seq<char>| can_be_written(name)).map_values(
        |name: Seq<char>| shell_word(name),
    )
}

/// The test of the current branch: it is one of the written names. Where
/// there is no name to test for, there is no test.
pub open spec fn branch_test(protected_branches: Seq<Seq<char>>) -> Seq<char> {
    if written_branches(protected_branches).len() == 0 {
        Seq::empty()
    } else {
        branch_test_lead() + joined(written_branches(protected_branches), "|"@) + branch_test_rest()
    }
}

/// The pre-commit hook.
pub open spec fn pre_commit_script() -> Seq<char> {
    shebang() + marker() + pre_commit_body()
}

/// The pre-push hook for these protected branches: a force push is refused,
/// then a push from a protected branch, and only then is the check run.
pub open spec fn pre_push_script(protected_branches: Seq<Seq<char>>) -> Seq<char> {
    shebang() + marker() + force_push_guard() + branch_test(protected_branches) + delegation()
}

/// The marker line, as written into each hook.
pub fn hook_marker() -> (text: String)
    ensures
        text@ == marker(),
{
    "# git-sherpa".to_owned()
}

/// The content of the pre-commit hook.
pub fn hook_content() -> (script: String)
    ensures
        script@ == pre_commit_script(),
        has_text(script@, marker()),
{
    let script = "#!/bin/sh\n".to_owned().concat("# git-sherpa").concat("\nexec git-sherpa check\n");
    proof {
        lemma_pre_commit_is_marked();
    }
    script
}

fn plain_char(c: char) -> (plain: bool)
    ensures
        plain == is_plain_char(c),
{
    ('a' <= c && c <= 'z') || ('A' <= c && c <= 'Z') || ('0' <= c && c <= '9') || c == '_' || c
        == '-' || c == '.' || c == '/'
}

/// Writes a name as one word that the shell compares literally; nothing for
/// a name that cannot stand in a script.
pub fn write_shell_word(name: &str) -> (word: Option<String>)
    ensures
        match word {
            Some(w) => can_be_written(name@) && w@ == shell_word(name@),
            None => !can_be_written(name@),
        },
{
    let chars = chars_of(name);
    let mut out: Vec<char> = Vec::new();
    if chars.len() == 0 || same_text(name, "esac") {
        proof {
            reveal_strlit("esac");
        }
        out.push('\'');
        let mut k: usize = 0;
        while k < chars.len()
            invariant
                k <= chars.len(),
                out@ == seq!['\''] + chars@.take(k as int),
            decreases chars.len() - k,
        {
            out.push(chars[k]);
            assert(chars@.take(k + 1) =~= chars@.take(k as int).push(chars@[k as int]));
            k += 1;
        }
        out.push('\'');
        return Some(string_of(&out));
    }
    let mut i: usize = 0;
    while i < chars.len()
        invariant
            i <= chars.len(),
            chars@ == name@,
            out@ == shell_chars(chars@.take(i as int)),
            forall|j: int| 0 <= j < i ==> chars@[j] != '\0',
        decreases chars.len() - i,
    {
        let c = chars[i];
        if c == '\0' {
            assert(name@[i as int] == '\0');
            return None;
        }
        proof {
            let upto = chars@.take(i + 1);
            assert(upto.drop_last() =~= chars@.take(i as int));
        }
        if plain_char(c) {
            out.push(c);
        } else if c == '\'' {
            out.push('\\');
            out.push('\'');
        } else {
            out.push('\'');
            out.push(c);
            out.push('\'');
        }
        i += 1;
    }
    assert(chars@.take(chars.len() as int) =~= chars@);
    Some(string_of(&out))
}

/// The content of the pre-push hook for these protected branches. Each name
/// stands in it so that the shell compares it literally; with no name to
/// test for, the hook does not look at the branch.
pub fn pre_push_hook_content(protected_branches: &[String]) -> (script: String)
    ensures
        script@ == pre_push_script(texts(protected_branches@)),
        has_text(script@, marker()),
{
    let ghost names = texts(protected_branches@);
    let ghost writable = |name: Seq<char>| can_be_written(name);
    let ghost to_word = |name: Seq<char>| shell_word(name);
    let mut words: Vec<String> = Vec::new();
    let mut i: usize = 0;
    proof {
        reveal(Seq::filter);
    }
    while i < protected_branches.len()
        invariant
            i <= protected_branches.len(),
            names == texts(protected_branches@),
            writable == (|name: Seq<char>| can_be_written(name)),
            to_word == (|name: Seq<char>| shell_word(name)),
            texts(words@) == names.take(i as int).filter(writable).map_values(to_word),
        decreases protected_branches.len() - i,
    {
        proof {
            reveal(Seq::filter);
            let upto = names.take(i + 1);
            assert(upto.drop_last() =~= names.take(i as int));
        }
        match write_shell_word(protected_branches[i].as_str()) {
            Some(word) => {
                let ghost before = words@;
                words.push(word);
                assert(texts(words@) =~= texts(before).push(shell_word(protected_branches@[i as int]@)));
            },
            None => {},
        }
        i += 1;
    }
    assert(names.take(protected_branches.len() as int) =~= names);

    let mut script = "#!/bin/sh\n".to_owned();
    script.append("# git-sherpa");
    script.append(
        "\n\n# Block force push\nfor arg in \"$@\"; do\n    case \"$arg\" in\n        --force|-f|--force-with-lease)\n            echo \"git-sherpa: force push is blocked.\"\n            exit 1\n            ;;\n    esac\ndone\n\n",
    );
    if words.len() > 0 {
        let branches = join(words.as_slice(), "|");
        script.append(
            "# Block push to protected branches\ncurrent_branch=$(git rev-parse --abbrev-ref HEAD)\ncase \"$current_branch\" in\n    ",
        );
        script.append(branches.as_str());
        script.append(
            ")\n        echo \"git-sherpa: direct push to '$current_branch' is blocked. Use a pull request.\"\n        exit 1\n        ;;\nesac\n\n",
        );
    }
    script.append("exec git-sherpa check\n");
    proof {
        lemma_pre_push_is_marked(names);
    }
    script
}

/// A text that holds the marker after some lead holds the marker.
pub proof fn lemma_marker_after_lead(lead: Seq<char>, rest: Seq<char>)
    ensures
        has_text(lead + marker() + rest, marker()),
{
    let whole = lead + marker() + rest;
    let at = lead.len() as int;
    assert(whole.subrange(at, at + marker().len()) =~= marker());
    assert(text_at(whole, marker(), at));
}

/// The pre-commit hook carries the marker.
pub proof fn lemma_pre_commit_is_marked()
    ensures
        has_text(pre_commit_script(), marker()),
{
    lemma_marker_after_lead(shebang(), pre_commit_body());
}

/// The pre-push hook carries the marker, whatever branches are protected.
pub proof fn lemma_pre_push_is_marked(protected_branches: Seq<Seq<char>>)
    ensures
        has_text(pre_push_script(protected_branches), marker()),
{
    let rest = force_push_guard() + branch_test(protected_branches) + delegation();
    lemma_marker_after_lead(shebang(), rest);
    assert(pre_push_script(protected_branches) =~= shebang() + marker() + rest);
}

/// A name is plain when it is not empty, is not the shell's word `esac`, and
/// is made of plain characters only.
pub open spec fn is_plain_name(name: Seq<char>) -> bool {
    &&& name.len() > 0
    &&& name != "esac"@
    &&& forall|i: int| 0 <= i < name.len() ==> is_plain_char(#[trigger] name[i])
}

proof fn lemma_plain_chars_stay(name: Seq<char>)
    requires
        forall|i: int| 0 <= i < name.len() ==> is_plain_char(#[trigger] name[i]),
    ensures
        shell_chars(name) == name,
    decreases name.len(),
{
    if name.len() > 0 {
        lemma_plain_chars_stay(name.drop_last());
    }
}

/// A plain name is written as it is.
pub proof fn lemma_plain_name_is_written_raw(name: Seq<char>)
    requires
        is_plain_name(name),
    ensures
        can_be_written(name),
        shell_word(name) == name,
{
    lemma_plain_chars_stay(name);
}

/// Where every protected name is plain, the names stand in the hook as they
/// are, with `|` between them.
pub proof fn lemma_plain_branches_are_written_raw(protected_branches: Seq<Seq<char>>)
    requires
        protected_branches.len() > 0,
        forall|i: int|
            0 <= i < protected_branches.len() ==> is_plain_name(#[trigger] protected_branches[i]),
    ensures
        written_branches(protected_branches) == protected_branches,
        pre_push_script(protected_branches) == shebang() + marker() + force_push_guard()
            + branch_test_lead() + joined(protected_branches, "|"@) + branch_test_rest()
            + delegation(),
{
    let writable = |name: Seq<char>| can_be_written(name);
    assert forall|i: int| 0 <= i < protected_branches.len() implies writable(
        #[trigger] protected_branches[i],
    ) && shell_word(protected_branches[i]) == protected_branches[i] by {
        lemma_plain_name_is_written_raw(protected_branches[i]);
    }
    lemma_filter_keeps_all(protected_branches, writable);
    assert(written_branches(protected_branches) =~= protected_branches);
}

proof fn lemma_filter_keeps_all(items: Seq<Seq<char>>, keep: spec_fn(Seq<char>) -> bool)
    requires
        forall|i: int| 0 <= i < items.len() ==> keep(#[trigger] items[i]),
    ensures
        items.filter(keep) == items,
    decreases items.len(),
{
    reveal(Seq::filter);
    if items.len() > 0 {
        lemma_filter_keeps_all(items.drop_last(), keep);
    }
}

/// Where no protected name can be written, and so where none is given, the
/// hook does not look at the branch: after the force push guard it runs the
/// check.
pub proof fn lemma_no_branch_no_test(protected_branches: Seq<Seq<char>>)
    requires
        forall|i: int|
            0 <= i < protected_branches.len() ==> !can_be_written(#[trigger] protected_branches[i]),
    ensures
        pre_push_script(protected_branches) == shebang() + marker() + force_push_guard()
            + delegation(),
{
    let writable = |name: Seq<char>| can_be_written(name);
    let kept = protected_branches.filter(writable);
    if kept.len() > 0 {
        protected_branches.lemma_filter_pred(writable, 0);
        protected_branches.lemma_filter_contains_rev(writable, kept[0]);
    }
}

/// Whether the content of a hook file shows that this tool wrote it.
pub fn is_marked(content: &str) -> (marked: bool)
    ensures
        marked == has_text(content@, marker()),
{
    contains_text(content, "# git-sherpa")
}

/// The two hooks that this tool manages.
#[derive(Debug, Clone, Copy, PartialEq, Eq, Structural)]
pub enum HookName {
    PreCommit,
    PrePush,
}

impl HookName {
    /// The name of the hook's file in the hooks directory.
    pub open spec fn file_name_text(self) -> Seq<char> {
        match self {
            HookName::PreCommit => "pre-commit"@,
            HookName::PrePush => "pre-push"@,
        }
    }

    /// The name of the hook's file in the hooks directory.
    pub fn file_name(&self) -> (name: String)
        ensures
            name@ == self.file_name_text(),
    {
        match self {
            HookName::PreCommit => "pre-commit".to_owned(),
            HookName::PrePush => "pre-push".to_owned(),
        }
    }
}

/// The script that belongs in a hook's file.
pub open spec fn script_of(hook: HookName, protected_branches: Seq<Seq<char>>) -> Seq<char> {
    match hook {
        HookName::PreCommit => pre_commit_script(),
        HookName::PrePush => pre_push_script(protected_branches),
    }
}

/// The mode of an installed hook: read and run by all, written by its owner.
pub const HOOK_MODE: u32 = 0o755;

/// The hooks directory as plain values: the content of each of the two
/// files, if the file is there.
pub ghost struct HookDir {
    pub pre_commit: Option<Seq<char>>,
    pub pre_push: Option<Seq<char>>,
}

impl HookDir {
    /// The content of a hook's file, if the file is there.
    pub open spec fn file(self, hook: HookName) -> Option<Seq<char>> {
        match hook {
            HookName::PreCommit => self.pre_commit,
            HookName::PrePush => self.pre_push,
        }
    }

    /// The directory with one file replaced or taken away.
    pub open spec fn with_file(self, hook: HookName, content: Option<Seq<char>>) -> HookDir {
        match hook {
            HookName::PreCommit => HookDir { pre_commit: content, ..self },
            HookName::PrePush => HookDir { pre_push: content, ..self },
        }
    }

    /// Which of the two files are there.
    pub open spec fn present(self) -> HooksPresent {
        HooksPresent { pre_commit: self.pre_commit is Some, pre_push: self.pre_push is Some }
    }
}

/// Which of the two hook files exist.
#[derive(Debug, Clone, Copy, PartialEq, Eq, Structural)]
pub struct HooksPresent {
    pub pre_commit: bool,
    pub pre_push: bool,
}

impl HooksPresent {
    /// Whether a hook's file exists.
    pub open spec fn has(self, hook: HookName) -> bool {
        match hook {
            HookName::PreCommit => self.pre_commit,
            HookName::PrePush => self.pre_push,
        }
    }
}

/// What installing does about one hook.
#[derive(Debug, Clone)]
pub enum InstallStep {
    /// The file exists and is left as it is; the user is warned.
    Skip { hook: HookName },
    /// The file is written with this content and given this mode.
    Write { hook: HookName, content: String, mode: u32 },
}

/// An install step as plain values.
pub ghost enum InstallAction {
    Skip { hook: HookName },
    Write { hook: HookName, content: Seq<char>, mode: u32 },
}

impl View for InstallStep {
    type V = InstallAction;

    open spec fn view(&self) -> InstallAction {
        match *self {
            InstallStep::Skip { hook } => InstallAction::Skip { hook },
            InstallStep::Write { hook, content, mode } => InstallAction::Write {
                hook,
                content: content@,
                mode,
            },
        }
    }
}

/// What installing does about one hook: an existing file is kept unless
/// `force` is set; otherwise the hook's script is written.
pub open spec fn install_action(
    hook: HookName,
    exists: bool,
    force: bool,
    protected_branches: Seq<Seq<char>>,
) -> InstallAction {
    if exists && !force {
        InstallAction::Skip { hook }
    } else {
        InstallAction::Write { hook, content: script_of(hook, protected_branches), mode: HOOK_MODE }
    }
}

/// What installing does: one step for each hook, neither depending on the
/// other.
pub open spec fn install_actions(
    force: bool,
    protected_branches: Seq<Seq<char>>,
    present: HooksPresent,
) -> Seq<InstallAction> {
    seq![
        install_action(HookName::PreCommit, present.pre_commit, force, protected_branches),
        install_action(HookName::PrePush, present.pre_push, force, protected_branches),
    ]
}

/// The views of a list of install steps.
pub open spec fn install_views(steps: Seq<InstallStep>) -> Seq<InstallAction> {
    steps.map_values(|s: InstallStep| s@)
}

/// Decides, for each of the two hooks, whether its file is written. The
/// caller carries the steps out, each whatever became of the other.
pub fn install_with_config(force: bool, protected_branches: &[String], present: HooksPresent) -> (steps:
    Vec<InstallStep>)
    ensures
        install_views(steps@) == install_actions(force, texts(protected_branches@), present),
{
    let mut steps: Vec<InstallStep> = Vec::new();
    if present.pre_commit && !force {
        steps.push(InstallStep::Skip { hook: HookName::PreCommit });
    } else {
        steps.push(
            InstallStep::Write { hook: HookName::PreCommit, content: hook_content(), mode: HOOK_MODE },
        );
    }
    if present.pre_push && !force {
        steps.push(InstallStep::Skip { hook: HookName::PrePush });
    } else {
        steps.push(
            InstallStep::Write {
                hook: HookName::PrePush,
                content: pre_push_hook_content(protected_branches),
                mode: HOOK_MODE,
            },
        );
    }
    steps
}

/// The directory after one install step was carried out.
pub open spec fn after_install_action(dir: HookDir, action: InstallAction) -> HookDir {
    match action {
        InstallAction::Skip { .. } => dir,
        InstallAction::Write { hook, content, .. } => dir.with_file(hook, Some(content)),
    }
}

/// The directory after the install steps were carried out in their order.
pub open spec fn after_install(dir: HookDir, actions: Seq<InstallAction>) -> HookDir
    decreases actions.len(),
{
    if actions.len() == 0 {
        dir
    } else {
        after_install_action(after_install(dir, actions.drop_last()), actions.last())
    }
}

/// The content of each hook file as it was read, `None` for a file that is
/// not there.
#[derive(Debug, Clone)]
pub struct HookFiles {
    pub pre_commit: Option<String>,
    pub pre_push: Option<String>,
}

/// The content of a file that may be missing, as plain values.
pub open spec fn content_of(file: Option<String>) -> Option<Seq<char>> {
    match file {
        Some(content) => Some(content@),
        None => None,
    }
}

impl View for HookFiles {
    type V = HookDir;

    open spec fn view(&self) -> HookDir {
        HookDir { pre_commit: content_of(self.pre_commit), pre_push: content_of(self.pre_push) }
    }
}

/// What uninstalling does about one hook.
#[derive(Debug, Clone, Copy, PartialEq, Eq, Structural)]
pub enum UninstallStep {
    /// There is no file: nothing is done and nothing is said.
    Absent { hook: HookName },
    /// The file carries the marker and is removed.
    Remove { hook: HookName },
    /// The file does not carry the marker: it is left as it is, and the user
    /// is warned.
    KeepForeign { hook: HookName },
}

/// What uninstalling does about one hook: only a file that carries the
/// marker is removed.
pub open spec fn uninstall_action(hook: HookName, file: Option<Seq<char>>) -> UninstallStep {
    match file {
        None => UninstallStep::Absent { hook },
        Some(content) => if has_text(content, marker()) {
            UninstallStep::Remove { hook }
        } else {
            UninstallStep::KeepForeign { hook }
        },
    }
}

/// What uninstalling does: one step for each hook.
pub open spec fn uninstall_actions(dir: HookDir) -> Seq<UninstallStep> {
    seq![
        uninstall_action(HookName::PreCommit, dir.pre_commit),
        uninstall_action(HookName::PrePush, dir.pre_push),
    ]
}

fn uninstall_one(hook: HookName, file: &Option<String>) -> (step: UninstallStep)
    ensures
        step == uninstall_action(hook, content_of(*file)),
{
    match file {
        None => UninstallStep::Absent { hook },
        Some(content) => {
            if is_marked(content.as_str()) {
                UninstallStep::Remove { hook }
            } else {
                UninstallStep::KeepForeign { hook }
            }
        },
    }
}

/// Decides, for each of the two hooks, whether its file is removed.
pub fn uninstall(files: &HookFiles) -> (steps: Vec<UninstallStep>)
    ensures
        steps@ == uninstall_actions(files@),
{
    let mut steps: Vec<UninstallStep> = Vec::new();
    steps.push(uninstall_one(HookName::PreCommit, &files.pre_commit));
    steps.push(uninstall_one(HookName::PrePush, &files.pre_push));
    steps
}

/// The directory after one uninstall step was carried out.
pub open spec fn after_uninstall_action(dir: HookDir, step: UninstallStep) -> HookDir {
    match step {
        UninstallStep::Remove { hook } => dir.with_file(hook, None),
        _ => dir,
    }
}

/// The directory after the uninstall steps were carried out in their order.
pub open spec fn after_uninstall(dir: HookDir, steps: Seq<UninstallStep>) -> HookDir
    decreases steps.len(),
{
    if steps.len() == 0 {
        dir
    } else {
        after_uninstall_action(after_uninstall(dir, steps.drop_last()), steps.last())
    }
}

impl InstallAction {
    /// The hook that the step is about.
    pub open spec fn hook(self) -> HookName {
        match self {
            InstallAction::Skip { hook } => hook,
            InstallAction::Write { hook, .. } => hook,
        }
    }

    /// Whether the step is told as a warning.
    pub open spec fn is_warning(self) -> bool {
        self is Skip
    }

    /// What is said of the step, for the file at `path`.
    pub open spec fn message(self, path: Seq<char>) -> Seq<char> {
        match self {
            InstallAction::Skip { .. } => "Warning: "@ + path
                + " already exists, skipping (use --force to overwrite)"@,
            InstallAction::Write { .. } => "Installed "@ + path,
        }
    }
}

impl InstallStep {
    /// The hook that the step is about.
    pub fn hook(&self) -> (hook: HookName)
        ensures
            hook == self@.hook(),
    {
        match self {
            InstallStep::Skip { hook } => *hook,
            InstallStep::Write { hook, .. } => *hook,
        }
    }

    /// Whether the step is told as a warning.
    pub fn is_warning(&self) -> (warning: bool)
        ensures
            warning == self@.is_warning(),
    {
        match self {
            InstallStep::Skip { .. } => true,
            InstallStep::Write { .. } => false,
        }
    }

    /// What is said of the step, for the file at `path`; of a write, once it
    /// has been done.
    pub fn message(&self, path: &str) -> (text: String)
        ensures
            text@ == self@.message(path@),
    {
        match self {
            InstallStep::Skip { .. } => "Warning: ".to_owned().concat(path).concat(
                " already exists, skipping (use --force to overwrite)",
            ),
            InstallStep::Write { .. } => "Installed ".to_owned().concat(path),
        }
    }
}

impl UninstallStep {
    /// The hook that the step is about.
    pub open spec fn hook_of(self) -> HookName {
        match self {
            UninstallStep::Absent { hook } => hook,
            UninstallStep::Remove { hook } => hook,
            UninstallStep::KeepForeign { hook } => hook,
        }
    }

    /// The hook that the step is about.
    pub fn hook(&self) -> (hook: HookName)
        ensures
            hook == self.hook_of(),
    {
        match self {
            UninstallStep::Absent { hook } => *hook,
            UninstallStep::Remove { hook } => *hook,
            UninstallStep::KeepForeign { hook } => *hook,
        }
    }

    /// Whether the step is told as a warning: it is where a file is kept
    /// because it lacks the marker.
    pub open spec fn warns(self) -> bool {
        self is KeepForeign
    }

    /// Whether the step is told as a warning.
    pub fn is_warning(&self) -> (warning: bool)
        ensures
            warning == self.warns(),
    {
        match self {
            UninstallStep::KeepForeign { .. } => true,
            _ => false,
        }
    }

    /// What is said of the step, for the file at `path`; nothing of a file
    /// that is not there.
    pub open spec fn message_text(self, path: Seq<char>) -> Option<Seq<char>> {
        match self {
            UninstallStep::Absent { .. } => None,
            UninstallStep::Remove { .. } => Some("Removed "@ + path),
            UninstallStep::KeepForeign { .. } => Some(
                "Warning: "@ + path + " was not installed by git-sherpa, skipping"@,
            ),
        }
    }

    /// What is said of the step, for the file at `path`; of a removal, once
    /// it has been done.
    pub fn message(&self, path: &str) -> (text: Option<String>)
        ensures
            match text {
                Some(t) => self.message_text(path@) == Some(t@),
                None => self.message_text(path@) is None,
            },
    {
        match self {
            UninstallStep::Absent { .. } => None,
            UninstallStep::Remove { .. } => Some("Removed ".to_owned().concat(path)),
            UninstallStep::KeepForeign { .. } => Some(
                "Warning: ".to_owned().concat(path).concat(
                    " was not installed by git-sherpa, skipping",
                ),
            ),
        }
    }
}

/// Where a hook's step stands among the steps.
pub open spec fn step_index(hook: HookName) -> int {
    match hook {
        HookName::PreCommit => 0,
        HookName::PrePush => 1,
    }
}

proof fn lemma_after_install_two(dir: HookDir, first: InstallAction, second: InstallAction)
    ensures
        after_install(dir, seq![first, second]) == after_install_action(
            after_install_action(dir, first),
            second,
        ),
{
    let both = seq![first, second];
    let one = both.drop_last();
    reveal_with_fuel(after_install, 3);
}

proof fn lemma_after_uninstall_two(dir: HookDir, first: UninstallStep, second: UninstallStep)
    ensures
        after_uninstall(dir, seq![first, second]) == after_uninstall_action(
            after_uninstall_action(dir, first),
            second,
        ),
{
    let both = seq![first, second];
    let one = both.drop_last();
    reveal_with_fuel(after_uninstall, 3);
}

/// Installing without `force` leaves a hook file that exists as it is,
/// marked or not, and its step is the one that warns.
pub proof fn lemma_install_keeps_existing(
    protected_branches: Seq<Seq<char>>,
    dir: HookDir,
    hook: HookName,
)
    requires
        dir.file(hook) is Some,
    ensures
        install_actions(false, protected_branches, dir.present())[step_index(hook)]
            == (InstallAction::Skip { hook }),
        install_actions(false, protected_branches, dir.present())[step_index(hook)].is_warning(),
        after_install(dir, install_actions(false, protected_branches, dir.present())).file(hook)
            == dir.file(hook),
{
    let actions = install_actions(false, protected_branches, dir.present());
    lemma_after_install_two(dir, actions[0], actions[1]);
}

/// Installing writes the hook's script where there is no file, and with
/// `force` also where there is one.
pub proof fn lemma_install_writes(
    force: bool,
    protected_branches: Seq<Seq<char>>,
    dir: HookDir,
    hook: HookName,
)
    requires
        force || dir.file(hook) is None,
    ensures
        install_actions(force, protected_branches, dir.present())[step_index(hook)]
            == (InstallAction::Write {
            hook,
            content: script_of(hook, protected_branches),
            mode: HOOK_MODE,
        }),
        after_install(dir, install_actions(force, protected_branches, dir.present())).file(hook)
            == Some(script_of(hook, protected_branches)),
{
    let actions = install_actions(force, protected_branches, dir.present());
    lemma_after_install_two(dir, actions[0], actions[1]);
}

/// Uninstalling leaves a hook file without the marker as it is, and its step
/// is the one that warns.
pub proof fn lemma_uninstall_keeps_foreign(dir: HookDir, hook: HookName)
    requires
        dir.file(hook) matches Some(content) && !has_text(content, marker()),
    ensures
        uninstall_actions(dir)[step_index(hook)] == (UninstallStep::KeepForeign { hook }),
        uninstall_actions(dir)[step_index(hook)].warns(),
        after_uninstall(dir, uninstall_actions(dir)).file(hook) == dir.file(hook),
{
    let steps = uninstall_actions(dir);
    lemma_after_uninstall_two(dir, steps[0], steps[1]);
}

/// Uninstalling removes a hook file that carries the marker, and leaves a
/// missing one missing.
pub proof fn lemma_uninstall_removes_marked(dir: HookDir, hook: HookName)
    requires
        dir.file(hook) matches Some(content) ==> has_text(content, marker()),
    ensures
        after_uninstall(dir, uninstall_actions(dir)).file(hook) is None,
        dir.file(hook) is Some ==> uninstall_actions(dir)[step_index(hook)] == (UninstallStep::Remove {
            hook,
        }),
        dir.file(hook) is None ==> uninstall_actions(dir)[step_index(hook)] == (UninstallStep::Absent {
            hook,
        }),
{
    let steps = uninstall_actions(dir);
    lemma_after_uninstall_two(dir, steps[0], steps[1]);
}

/// What was installed with `force` is removed again by uninstalling: the
/// scripts carry the marker.
pub proof fn lemma_uninstall_undoes_forced_install(
    protected_branches: Seq<Seq<char>>,
    dir: HookDir,
    hook: HookName,
)
    ensures
        ({
            let installed = after_install(dir, install_actions(true, protected_branches, dir.present()));
            after_uninstall(installed, uninstall_actions(installed)).file(hook) is None
        }),
{
    let installed = after_install(dir, install_actions(true, protected_branches, dir.present()));
    lemma_install_writes(true, protected_branches, dir, hook);
    lemma_pre_commit_is_marked();
    lemma_pre_push_is_marked(protected_branches);
    lemma_uninstall_removes_marked(installed, hook);
}

} // verus!
