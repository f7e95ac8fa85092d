//! File system actions, command outcomes and the `pubspec.yaml` dependency
//! edit.
use vstd::prelude::*;

use crate::paths::{is_absolute, join_path, lemma_join_parts, spec_join, to_chars, trim, spec_trim};

verus! {

/// What the directory a command runs in is.
pub struct ExecuterConfig {
    pub base_path: String,
}

impl ExecuterConfig {
    /// A configuration that runs commands in `base_path`.
    pub fn new(base_path: String) -> (config: Self)
        ensures
            config.base_path@ == base_path@,
    {
        ExecuterConfig { base_path }
    }
}

/// A file system action, its paths relative to a base directory.
#[derive(Debug)]
pub enum FSAction {
    CreateDir { path: String },
    CreateFile { path: String, content: Option<String> },
    RemoveDir { path: String, recursive: bool },
    RemoveFile { path: String },
}

/// The value of an `FSAction`.
pub enum FSActionView {
    CreateDir { path: Seq<char> },
    CreateFile { path: Seq<char>, content: Option<Seq<char>> },
    RemoveDir { path: Seq<char>, recursive: bool },
    RemoveFile { path: Seq<char> },
}

pub open spec fn option_view(o: Option<String>) -> Option<Seq<char>> {
    match o {
        Some(s) => Some(s@),
        None => None,
    }
}

impl View for FSAction {
    type V = FSActionView;

    open spec fn view(&self) -> FSActionView {
        match self {
            FSAction::CreateDir { path } => FSActionView::CreateDir { path: path@ },
            FSAction::CreateFile { path, content } => FSActionView::CreateFile {
                path: path@,
                content: option_view(*content),
            },
            FSAction::RemoveDir { path, recursive } => FSActionView::RemoveDir {
                path: path@,
                recursive: *recursive,
            },
            FSAction::RemoveFile { path } => FSActionView::RemoveFile { path: path@ },
        }
    }
}

/// The action `a` with its path taken relative to `base`.
pub open spec fn spec_resolve(a: FSActionView, base: Seq<char>) -> FSActionView {
    match a {
        FSActionView::CreateDir { path } => FSActionView::CreateDir { path: spec_join(base, path) },
        FSActionView::CreateFile { path, content } => FSActionView::CreateFile {
            path: spec_join(base, path),
            content,
        },
        FSActionView::RemoveDir { path, recursive } => FSActionView::RemoveDir {
            path: spec_join(base, path),
            recursive,
        },
        FSActionView::RemoveFile { path } => FSActionView::RemoveFile { path: spec_join(base, path) },
    }
}

fn clone_option_string(o: &Option<String>) -> (c: Option<String>)
    ensures
        option_view(c) == option_view(*o),
{
    match o {
        Some(s) => Some(s.clone()),
        None => None,
    }
}

impl FSAction {
    /// An action that creates the directory `path` and its missing parents.
    pub fn create_dir(path: &str) -> (action: Self)
        ensures
            action@ == (FSActionView::CreateDir { path: path@ }),
    {
        FSAction::CreateDir { path: path.to_owned() }
    }

    /// An action that creates the file `path`, with `content` when given.
    pub fn create_file(path: &str, content: Option<&str>) -> (action: Self)
        ensures
            action@ == (FSActionView::CreateFile {
                path: path@,
                content: match content {
                    Some(c) => Some(c@),
                    None => None,
                },
            }),
    {
        let content = match content {
            Some(c) => Some(c.to_owned()),
            None => None,
        };
        FSAction::CreateFile { path: path.to_owned(), content }
    }

    /// An action that removes the file `path` where it exists.
    pub fn remove_file(path: &str) -> (action: Self)
        ensures
            action@ == (FSActionView::RemoveFile { path: path@ }),
    {
        FSAction::RemoveFile { path: path.to_owned() }
    }

    /// The same action with its path joined onto `base_path`: the action
    /// that performing this one in `base_path` performs.
    pub fn resolve(&self, base_path: &str) -> (resolved: FSAction)
        ensures
            resolved@ == spec_resolve(self@, base_path@),
            action_path(resolved@) == spec_join(base_path@, action_path(self@)),
            same_kind(self@, resolved@),
    {
        match self {
            FSAction::CreateDir { path } => FSAction::CreateDir {
                path: join_path(base_path, path.as_str()),
            },
            FSAction::CreateFile { path, content } => FSAction::CreateFile {
                path: join_path(base_path, path.as_str()),
                content: clone_option_string(content),
            },
            FSAction::RemoveDir { path, recursive } => FSAction::RemoveDir {
                path: join_path(base_path, path.as_str()),
                recursive: *recursive,
            },
            FSAction::RemoveFile { path } => FSAction::RemoveFile {
                path: join_path(base_path, path.as_str()),
            },
        }
    }
}

/// `sub` occurs in `s` starting at index `i`.
pub open spec fn occurs_at(s: Seq<char>, sub: Seq<char>, i: int) -> bool {
    0 <= i && i + sub.len() <= s.len() && s.subrange(i, i + sub.len()) == sub
}

/// `sub` occurs somewhere in `s`.
pub open spec fn occurs_in(s: Seq<char>, sub: Seq<char>) -> bool {
    exists|i: int| occurs_at(s, sub, i)
}

/// `i` is where `sub` first occurs in `s`.
pub open spec fn first_occurrence(s: Seq<char>, sub: Seq<char>, i: int) -> bool {
    occurs_at(s, sub, i) && forall|j: int| 0 <= j < i ==> !occurs_at(s, sub, j)
}

fn matches_at(hay: &Vec<char>, needle: &Vec<char>, i: usize) -> (b: bool)
    requires
        i + needle.len() <= hay.len(),
    ensures
        b == occurs_at(hay@, needle@, i as int),
{
    let m: usize = needle.len();
    let mut k: usize = 0;
    while k < m
        invariant
            m == needle.len(),
            i + m <= hay.len(),
            k <= m,
            forall|l: int| 0 <= l < k ==> hay@[i + l] == needle@[l],
        decreases m - k,
    {
        if hay[i + k] != needle[k] {
            assert(hay@.subrange(i as int, i + m)[k as int] != needle@[k as int]);
            return false;
        }
        k = k + 1;
    }
    assert(hay@.subrange(i as int, i + m) =~= needle@);
    true
}

/// Where `needle` first occurs in `hay`, as `str::find` answers in
/// characters.
pub fn find(hay: &Vec<char>, needle: &Vec<char>) -> (found: Option<usize>)
    ensures
        match found {
            Some(i) => first_occurrence(hay@, needle@, i as int),
            None => !occurs_in(hay@, needle@),
        },
{
    let n: usize = hay.len();
    let m: usize = needle.len();
    if m > n {
        return None;
    }
    let last: usize = n - m;
    let mut i: usize = 0;
    loop
        invariant
            n == hay.len(),
            m == needle.len(),
            last == n - m,
            i <= last,
            forall|j: int| 0 <= j < i ==> !occurs_at(hay@, needle@, j),
        decreases last - i,
    {
        if matches_at(hay, needle, i) {
            return Some(i);
        }
        if i == last {
            return None;
        }
        i = i + 1;
    }
}

proof fn lemma_first_occurrence_unique(s: Seq<char>, sub: Seq<char>, i: int, j: int)
    requires
        first_occurrence(s, sub, i),
        first_occurrence(s, sub, j),
    ensures
        i == j,
{
}

/// The entry that `pubspec.yaml` holds once `package` is among its
/// dependencies.
pub open spec fn dependency_key(package: Seq<char>) -> Seq<char> {
    package + seq![':']
}

/// The section header after which dependencies are listed.
pub open spec fn dependencies_marker() -> Seq<char> {
    "dependencies:\n"@
}

/// The lines that declare `package` as a dependency fetched from `url`.
pub open spec fn git_dependency_block(package: Seq<char>, url: Seq<char>) -> Seq<char> {
    "  "@ + package + ":\n    git:\n      url: "@ + url + "\n"@
}

/// Why a git dependency could not be written into `pubspec.yaml`.
#[derive(Debug, Clone, Copy, PartialEq, Eq, Structural)]
pub enum InjectError {
    EmptyPackageName,
    EmptyGitUrl,
    MissingDependenciesSection,
}

/// The edit of a `pubspec.yaml` with contents `content` that declares
/// `package` from `url`: `Ok(None)` when `package` is already named there,
/// `Ok(Some(new))` with the new contents otherwise.
pub open spec fn spec_inject(content: Seq<char>, package: Seq<char>, url: Seq<char>) -> Result<
    Option<Seq<char>>,
    InjectError,
> {
    if package.len() == 0 {
        Err(InjectError::EmptyPackageName)
    } else if url.len() == 0 {
        Err(InjectError::EmptyGitUrl)
    } else if occurs_in(content, dependency_key(package)) {
        Ok(None)
    } else if !occurs_in(content, dependencies_marker()) {
        Err(InjectError::MissingDependenciesSection)
    } else {
        let i = choose|i: int| first_occurrence(content, dependencies_marker(), i);
        let at = i + dependencies_marker().len();
        Ok(Some(content.take(at) + git_dependency_block(package, url) + content.skip(at)))
    }
}

/// Checks the arguments of a dependency edit before anything is read.
pub fn check_dependency_args(package_name: &str, git_url: &str) -> (checked: Result<(), InjectError>)
    ensures
        checked == (if package_name@.len() == 0 {
            Err(InjectError::EmptyPackageName)
        } else if git_url@.len() == 0 {
            Err(InjectError::EmptyGitUrl)
        } else {
            Ok(())
        }),
{
    if package_name.is_empty() {
        Err(InjectError::EmptyPackageName)
    } else if git_url.is_empty() {
        Err(InjectError::EmptyGitUrl)
    } else {
        Ok(())
    }
}

/// Declares `package_name`, fetched from `git_url`, in the dependencies of a
/// `pubspec.yaml` whose contents are `content`. Nothing changes where the
/// file already names the package; the new lines go right after the first
/// `dependencies:` line.
pub fn inject_git_dependency(content: &str, package_name: &str, git_url: &str) -> (edit: Result<
    Option<String>,
    InjectError,
>)
    ensures
        match edit {
            Ok(Some(new)) => spec_inject(content@, package_name@, git_url@) == Ok::<
                Option<Seq<char>>,
                InjectError,
            >(Some(new@)),
            Ok(None) => spec_inject(content@, package_name@, git_url@) == Ok::<
                Option<Seq<char>>,
                InjectError,
            >(None),
            Err(e) => spec_inject(content@, package_name@, git_url@) == Err::<
                Option<Seq<char>>,
                InjectError,
            >(e),
        },
{
    check_dependency_args(package_name, git_url)?;
    let hay = to_chars(content);
    let key_string = package_name.to_owned().concat(":");
    proof {
        reveal_strlit(":");
    }
    let key = to_chars(key_string.as_str());
    assert(key@ =~= dependency_key(package_name@));
    if let Some(k) = find(&hay, &key) {
        assert(occurs_at(content@, dependency_key(package_name@), k as int));
        return Ok(None);
    }
    let marker = to_chars("dependencies:\n");
    match find(&hay, &marker) {
        None => Err(InjectError::MissingDependenciesSection),
        Some(i) => {
            proof {
                assert(first_occurrence(content@, dependencies_marker(), i as int));
                let c = choose|c: int| first_occurrence(content@, dependencies_marker(), c);
                lemma_first_occurrence_unique(content@, dependencies_marker(), i as int, c);
            }
            let marker_len: usize = marker.len();
            let hay_len: usize = hay.len();
            assert(i + marker_len <= hay_len);
            let at: usize = i + marker_len;
            let block = "  ".to_owned().concat(package_name).concat(
                ":\n    git:\n      url: ",
            ).concat(git_url).concat("\n");
            let updated = content.substring_char(0, at).to_owned().concat(block.as_str()).concat(
                content.substring_char(at, hay.len()),
            );
            proof {
                assert(content@.take(at as int) =~= content@.subrange(0, at as int));
                assert(content@.skip(at as int) =~= content@.subrange(at as int, hay.len() as int));
            }
            Ok(Some(updated))
        },
    }
}

impl InjectError {
    /// The message that reports the error.
    pub fn message(&self) -> (msg: String)
        ensures
            msg@ == match self {
                InjectError::EmptyPackageName => "package_name must not be empty"@,
                InjectError::EmptyGitUrl => "git_url must not be empty"@,
                InjectError::MissingDependenciesSection =>
                    "Could not find `dependencies:` in pubspec.yaml"@,
            },
    {
        match self {
            InjectError::EmptyPackageName => "package_name must not be empty".to_owned(),
            InjectError::EmptyGitUrl => "git_url must not be empty".to_owned(),
            InjectError::MissingDependenciesSection =>
                "Could not find `dependencies:` in pubspec.yaml".to_owned(),
        }
    }
}

proof fn lemma_first_occurrence_exists(s: Seq<char>, sub: Seq<char>, i: int)
    requires
        occurs_at(s, sub, i),
    ensures
        exists|j: int| first_occurrence(s, sub, j),
    decreases i,
{
    if exists|j: int| 0 <= j < i && occurs_at(s, sub, j) {
        let j = choose|j: int| 0 <= j < i && occurs_at(s, sub, j);
        lemma_first_occurrence_exists(s, sub, j);
    } else {
        assert(first_occurrence(s, sub, i));
    }
}

/// Declaring a dependency is idempotent: once an edit has declared `package`,
/// the same edit of the new contents changes nothing.
pub proof fn lemma_inject_idempotent(content: Seq<char>, package: Seq<char>, url: Seq<char>)
    requires
        spec_inject(content, package, url) is Ok,
    ensures
        match spec_inject(content, package, url) {
            Ok(Some(new)) => spec_inject(new, package, url) == Ok::<Option<Seq<char>>, InjectError>(
                None,
            ),
            _ => true,
        },
{
    if let Ok(Some(new)) = spec_inject(content, package, url) {
        let w = choose|w: int| occurs_at(content, dependencies_marker(), w);
        lemma_first_occurrence_exists(content, dependencies_marker(), w);
        let i = choose|i: int| first_occurrence(content, dependencies_marker(), i);
        let at = i + dependencies_marker().len();
        reveal_strlit("  ");
        reveal_strlit(":\n    git:\n      url: ");
        let k = at + 2;
        assert(new.subrange(k, k + package.len() + 1) =~= dependency_key(package));
        assert(occurs_at(new, dependency_key(package), k));
    }
}

/// How a run of a command ended, as the process layer reports it: the
/// command could not be started, or it finished, successfully or not, with
/// its error and standard output decoded to text.
pub enum CommandOutcome {
    NotStarted { reason: String },
    Finished { success: bool, stderr: String, stdout: String },
}

/// Why a command did not succeed.
#[derive(Debug)]
pub enum CommandError {
    NotStarted { command: String, reason: String },
    Failed { command: String, stderr: String, stdout: String },
}

/// The value of a `CommandError`.
pub enum CommandErrorView {
    NotStarted { command: Seq<char>, reason: Seq<char> },
    Failed { command: Seq<char>, stderr: Seq<char>, stdout: Seq<char> },
}

impl View for CommandError {
    type V = CommandErrorView;

    open spec fn view(&self) -> CommandErrorView {
        match self {
            CommandError::NotStarted { command, reason } => CommandErrorView::NotStarted {
                command: command@,
                reason: reason@,
            },
            CommandError::Failed { command, stderr, stdout } => CommandErrorView::Failed {
                command: command@,
                stderr: stderr@,
                stdout: stdout@,
            },
        }
    }
}

/// The message that reports a command error.
pub open spec fn spec_command_message(e: CommandErrorView) -> Seq<char> {
    match e {
        CommandErrorView::NotStarted { command, reason } => "While executing command "@ + command
            + ": "@ + reason,
        CommandErrorView::Failed { command, stderr, stdout } => "Command '"@ + command
            + "' failed."@ + stderr + stdout,
    }
}

/// Judges a run of `command`: it succeeded when it started and finished
/// successfully; otherwise the error names the command and carries the
/// reason, or its trimmed error and standard output.
pub fn execute_command(command: &str, outcome: CommandOutcome) -> (result: Result<(), CommandError>)
    ensures
        match outcome {
            CommandOutcome::NotStarted { reason } => match result {
                Err(e) => e@ == (CommandErrorView::NotStarted { command: command@, reason: reason@ }),
                Ok(_) => false,
            },
            CommandOutcome::Finished { success, stderr, stdout } => if success {
                result is Ok
            } else {
                match result {
                    Err(e) => e@ == (CommandErrorView::Failed {
                        command: command@,
                        stderr: spec_trim(stderr@),
                        stdout: spec_trim(stdout@),
                    }),
                    Ok(_) => false,
                }
            },
        },
{
    match outcome {
        CommandOutcome::NotStarted { reason } => Err(
            CommandError::NotStarted { command: command.to_owned(), reason },
        ),
        CommandOutcome::Finished { success, stderr, stdout } => {
            if success {
                Ok(())
            } else {
                Err(
                    CommandError::Failed {
                        command: command.to_owned(),
                        stderr: trim(stderr.as_str()),
                        stdout: trim(stdout.as_str()),
                    },
                )
            }
        },
    }
}

impl CommandError {
    /// The message that reports the error.
    pub fn message(&self) -> (msg: String)
        ensures
            msg@ == spec_command_message(self@),
    {
        match self {
            CommandError::NotStarted { command, reason } => "While executing command ".to_owned()
                .concat(command.as_str()).concat(": ").concat(reason.as_str()),
            CommandError::Failed { command, stderr, stdout } => "Command '".to_owned().concat(
                command.as_str(),
            ).concat("' failed.").concat(stderr.as_str()).concat(stdout.as_str()),
        }
    }
}

/// The path an action works on.
pub open spec fn action_path(a: FSActionView) -> Seq<char> {
    match a {
        FSActionView::CreateDir { path } => path,
        FSActionView::CreateFile { path, .. } => path,
        FSActionView::RemoveDir { path, .. } => path,
        FSActionView::RemoveFile { path } => path,
    }
}

/// Two actions do the same thing apart from their paths: the same variant,
/// the same content to write, the same recursion.
pub open spec fn same_kind(a: FSActionView, b: FSActionView) -> bool {
    match (a, b) {
        (FSActionView::CreateDir { .. }, FSActionView::CreateDir { .. }) => true,
        (
            FSActionView::CreateFile { content: c1, .. },
            FSActionView::CreateFile { content: c2, .. },
        ) => c1 == c2,
        (
            FSActionView::RemoveDir { recursive: r1, .. },
            FSActionView::RemoveDir { recursive: r2, .. },
        ) => r1 == r2,
        (FSActionView::RemoveFile { .. }, FSActionView::RemoveFile { .. }) => true,
        _ => false,
    }
}

/// Resolving an action against a base directory does the same thing at the
/// path joined onto the base: every variant keeps what it does, its path
/// becomes the base joined with its path, so a relative path ends up under
/// the base (it begins with the base and ends with the path) and an
/// absolute one stays as it is.
pub proof fn lemma_resolve_joins_path(a: FSActionView, base: Seq<char>)
    ensures
        same_kind(a, spec_resolve(a, base)),
        action_path(spec_resolve(a, base)) == spec_join(base, action_path(a)),
        !is_absolute(action_path(a)) ==> action_path(spec_resolve(a, base)).take(base.len() as int)
            == base,
        is_absolute(action_path(a)) ==> action_path(spec_resolve(a, base)) == action_path(a),
        action_path(spec_resolve(a, base)).skip(
            action_path(spec_resolve(a, base)).len() - action_path(a).len(),
        ) == action_path(a),
{
    lemma_join_parts(base, action_path(a));
}

} // verus!
