//! The git synchronisation commands of the front end: what each one checks,
//! which `git` runs it asks for and in which order, and what it answers from
//! their outputs. Running `git` (a child process) and touching files are left
//! to the caller: a command either gives the arguments of one git run and
//! waits for its output, or finishes with its answer.

use vstd::prelude::*;

use crate::text::{
    char_index_at_byte, char_index_at_byte_exec, chars_of, contains_spec, contains_str,
    lines_spec, parse_u32, parse_u32_spec, split_lines, split_whitespace, string_of, trim,
    trim_by, trim_spec, utf8_len, utf8_len_capped, views, words_spec, Strip,
};
use crate::validate::{
    file_name_ok, msg_bad_branch, msg_bad_file_name, msg_bad_ref,
    msg_bad_remote, msg_branch_chars, msg_ref_chars, msg_remote_chars, name_error, name_ok,
    repo_path_outcome, validate_branch, validate_file_name,
    validate_ref, validate_remote, validate_repo_path, NameKind,
};

verus! {

// ---------------------------------------------------------------------------
// Shared types

/// What one git run gave back: its standard output and error as text, and
/// its exit code (-1 when it had none).
pub struct GitOutput {
    pub stdout: String,
    pub stderr: String,
    pub code: i32,
}

/// What a command does next: run git (in the repository) with these
/// arguments and hand back the output; or find out whether this path
/// (relative to the repository) exists and hand back the answer; or finish
/// with this answer.
pub enum GitStep<T> {
    Run(Vec<String>),
    Probe(String),
    Done(Result<T, String>),
}

/// `s` asks whether `path` (relative to the repository) exists.
pub open spec fn is_probe<T>(s: GitStep<T>, path: Seq<char>) -> bool {
    s matches GitStep::Probe(p) && p@ == path
}

/// `s` asks for a git run with arguments `args`.
pub open spec fn is_run<T>(s: GitStep<T>, args: Seq<Seq<char>>) -> bool {
    s matches GitStep::Run(a) && views(a@) == args
}

/// `s` finishes with the error message `msg`.
pub open spec fn is_done_err<T>(s: GitStep<T>, msg: Seq<char>) -> bool {
    s matches GitStep::Done(Err(e)) && e@ == msg
}

/// The view of an optional `String`.
pub open spec fn opt_view(o: Option<String>) -> Option<Seq<char>> {
    match o {
        Some(s) => Some(s@),
        None => None,
    }
}

/// The view of a `Result` against the error that should come: success when
/// none should, else exactly that error message.
pub open spec fn answers<T>(r: Result<T, String>, err: Option<Seq<char>>) -> bool {
    match r {
        Ok(_) => err is None,
        Err(e) => err == Some(e@),
    }
}

/// The first of two errors, in the order the checks run.
pub open spec fn first_error(a: Option<Seq<char>>, b: Option<Seq<char>>) -> Option<Seq<char>> {
    if a is Some {
        a
    } else {
        b
    }
}

/// The error of a command that checks the repository path first (with these
/// answers of the file system) and then runs checks whose first error is
/// `later`.
pub open spec fn repo_then(
    repo: Seq<char>,
    is_dir: bool,
    has_git: bool,
    later: Option<Seq<char>>,
) -> Option<Seq<char>> {
    match repo_path_outcome(repo, is_dir, has_git) {
        Err(m) => Some(m),
        Ok(_) => later,
    }
}

/// The error of the file-name check.
pub open spec fn file_error(name: Seq<char>) -> Option<Seq<char>> {
    if file_name_ok(name) {
        None
    } else {
        Some(msg_bad_file_name())
    }
}

/// The error of the remote-name check.
pub open spec fn remote_error(remote: Seq<char>) -> Option<Seq<char>> {
    if name_ok(NameKind::Remote, remote) {
        None
    } else {
        Some(name_error(remote, msg_bad_remote(), msg_remote_chars()))
    }
}

/// The error of the branch-name check, when a branch is given.
pub open spec fn branch_error(branch: Option<String>) -> Option<Seq<char>> {
    match branch {
        Some(b) => if name_ok(NameKind::Branch, b@) {
            None
        } else {
            Some(name_error(b@, msg_bad_branch(), msg_branch_chars()))
        },
        None => None,
    }
}

/// The error of the ref check.
pub open spec fn ref_error(git_ref: Seq<char>) -> Option<Seq<char>> {
    if name_ok(NameKind::Ref, git_ref) {
        None
    } else {
        Some(name_error(git_ref, msg_bad_ref(), msg_ref_chars()))
    }
}

/// A plan for one git run: the repository and the arguments.
pub struct GitPlan {
    pub repo: String,
    pub args: Vec<String>,
}

fn concat(a: &str, b: &str) -> (r: String)
    ensures
        r@ == a@ + b@,
{
    let mut r = String::from_str(a);
    r.append(b);
    r
}

fn args1(a: &str) -> (v: Vec<String>)
    ensures
        views(v@) == seq![a@],
{
    let mut v: Vec<String> = Vec::new();
    v.push(String::from_str(a));
    assert(views(v@) =~= seq![a@]);
    v
}

fn args2(a: &str, b: &str) -> (v: Vec<String>)
    ensures
        views(v@) == seq![a@, b@],
{
    let mut v: Vec<String> = Vec::new();
    v.push(String::from_str(a));
    v.push(String::from_str(b));
    assert(views(v@) =~= seq![a@, b@]);
    v
}

fn args3(a: &str, b: &str, c: &str) -> (v: Vec<String>)
    ensures
        views(v@) == seq![a@, b@, c@],
{
    let mut v: Vec<String> = Vec::new();
    v.push(String::from_str(a));
    v.push(String::from_str(b));
    v.push(String::from_str(c));
    assert(views(v@) =~= seq![a@, b@, c@]);
    v
}

fn args4(a: &str, b: &str, c: &str, d: &str) -> (v: Vec<String>)
    ensures
        views(v@) == seq![a@, b@, c@, d@],
{
    let mut v: Vec<String> = Vec::new();
    v.push(String::from_str(a));
    v.push(String::from_str(b));
    v.push(String::from_str(c));
    v.push(String::from_str(d));
    assert(views(v@) =~= seq![a@, b@, c@, d@]);
    v
}

/// `git rev-parse --abbrev-ref HEAD`: the current branch.
pub open spec fn branch_args() -> Seq<Seq<char>> {
    seq!["rev-parse"@, "--abbrev-ref"@, "HEAD"@]
}

/// `git rev-parse --short HEAD`: the short hash of the current commit.
pub open spec fn short_head_args() -> Seq<Seq<char>> {
    seq!["rev-parse"@, "--short"@, "HEAD"@]
}

/// `git config --get remote.origin.url`.
pub open spec fn origin_url_args() -> Seq<Seq<char>> {
    seq!["config"@, "--get"@, "remote.origin.url"@]
}

/// `git status --porcelain=v1`.
pub open spec fn porcelain_args() -> Seq<Seq<char>> {
    seq!["status"@, "--porcelain=v1"@]
}

/// `git rev-list --left-right --count @{u}...HEAD`: commits behind and ahead
/// of the upstream.
pub open spec fn ahead_behind_args() -> Seq<Seq<char>> {
    seq!["rev-list"@, "--left-right"@, "--count"@, "@{u}...HEAD"@]
}

/// `git diff --cached --quiet`: exit code 0 when nothing is staged.
pub open spec fn staged_diff_args() -> Seq<Seq<char>> {
    seq!["diff"@, "--cached"@, "--quiet"@]
}

fn branch_args_exec() -> (v: Vec<String>)
    ensures
        views(v@) == branch_args(),
{
    args3("rev-parse", "--abbrev-ref", "HEAD")
}

fn short_head_args_exec() -> (v: Vec<String>)
    ensures
        views(v@) == short_head_args(),
{
    args3("rev-parse", "--short", "HEAD")
}

// ---------------------------------------------------------------------------
// git --version

/// The arguments of the availability check: `git --version` (run outside
/// any repository).
pub fn git_check_available_args() -> (v: Vec<String>)
    ensures
        views(v@) == seq!["--version"@],
{
    args1("--version")
}

/// The answer of the availability check: the trimmed version line, or an
/// error with git's message when it exited with a non-zero code.
pub fn git_check_available_reply(out: &GitOutput) -> (r: Result<String, String>)
    ensures
        out.code != 0 ==> (r matches Err(e) && e@ == "git CLI が見つかりません: "@ + out.stderr@),
        out.code == 0 ==> (r matches Ok(v) && v@ == trim_spec(out.stdout@, Strip::WhiteSpace)),
{
    if out.code != 0 {
        return Err(concat("git CLI が見つかりません: ", out.stderr.as_str()));
    }
    Ok(trim(out.stdout.as_str()))
}

// ---------------------------------------------------------------------------
// Repository information

/// The answer of the repository check.
pub struct RepoInfo {
    pub branch: String,
    pub head: Option<String>,
    pub remote_url: Option<String>,
    pub file_exists: bool,
}

/// Where the repository check stands.
pub enum ValidateRepoStage {
    /// waiting for `rev-parse --abbrev-ref HEAD`
    Branch,
    /// waiting for `rev-parse --short HEAD`
    Head,
    /// waiting for `config --get remote.origin.url`
    Remote,
    /// waiting for whether the file exists
    FileProbe,
    Finished,
}

/// The repository check: the current branch (empty before the first
/// commit), the short hash of HEAD, the origin URL, and whether the given
/// file exists.
pub struct ValidateRepo {
    pub repo: String,
    pub file_name: Option<String>,
    pub stage: ValidateRepoStage,
    pub branch: String,
    pub head: Option<String>,
    pub remote_url: Option<String>,
}

/// The branch name that the repository check takes from the first run,
/// when it goes on.
pub open spec fn repo_branch_of(out_code: i32, out_stdout: Seq<char>) -> Seq<char> {
    if out_code == 0 {
        trim_spec(out_stdout, Strip::WhiteSpace)
    } else {
        Seq::empty()
    }
}

/// The first run's failure is that of a repository without commits.
pub open spec fn no_commit_yet(stderr: Seq<char>) -> bool {
    contains_spec(stderr, "HEAD"@) || contains_spec(stderr, "unknown revision"@)
}

/// The origin URL taken from the third run: none when the output is blank.
pub open spec fn remote_url_of(stdout: Seq<char>) -> Option<Seq<char>> {
    if trim_spec(stdout, Strip::WhiteSpace).len() == 0 {
        None
    } else {
        Some(trim_spec(stdout, Strip::WhiteSpace))
    }
}

impl ValidateRepo {
    /// Checks the repository path on the file system's answers to
    /// `repo_probes`; on success the check asks first for the current branch.
    pub fn start(repo_path: &str, is_dir: bool, has_git: bool, file_name: Option<String>) -> (r:
        Result<(ValidateRepo, Vec<String>), String>)
        ensures
            answers(r, repo_then(repo_path@, is_dir, has_git, None)),
            r matches Ok((m, args)) ==> {
                &&& m.repo@ == repo_path@
                &&& m.file_name == file_name
                &&& m.stage is Branch
                &&& views(args@) == branch_args()
            },
    {
        let repo = validate_repo_path(repo_path, is_dir, has_git)?;
        let m = ValidateRepo {
            repo,
            file_name,
            stage: ValidateRepoStage::Branch,
            branch: String::new(),
            head: None,
            remote_url: None,
        };
        Ok((m, branch_args_exec()))
    }

    /// Takes the output of the run asked for last, and says what comes next.
    /// A run that could not be started ends the check with its error. After
    /// the origin URL, a given file name is checked and then probed for.
    pub fn step(&mut self, run: Result<GitOutput, String>) -> (s: GitStep<RepoInfo>)
        requires
            old(self).stage is Branch || old(self).stage is Head || old(self).stage is Remote,
        ensures
            final(self).repo == old(self).repo,
            final(self).file_name == old(self).file_name,
            s is Done <==> final(self).stage is Finished,
            s is Probe <==> final(self).stage is FileProbe,
            run matches Err(e) ==> is_done_err(s, e@),
            run matches Ok(o) ==> match old(self).stage {
                ValidateRepoStage::Branch => if o.code == 0 || no_commit_yet(o.stderr@) {
                    &&& is_run(s, short_head_args())
                    &&& final(self).stage is Head
                    &&& final(self).branch@ == repo_branch_of(o.code, o.stdout@)
                } else {
                    is_done_err(s, "ブランチ取得失敗: "@ + o.stderr@)
                },
                ValidateRepoStage::Head => {
                    &&& is_run(s, origin_url_args())
                    &&& final(self).stage is Remote
                    &&& final(self).branch == old(self).branch
                    &&& opt_view(final(self).head) == if o.code == 0 {
                        Some(trim_spec(o.stdout@, Strip::WhiteSpace))
                    } else {
                        None::<Seq<char>>
                    }
                },
                ValidateRepoStage::Remote => match old(self).file_name {
                    Some(n) => if !file_name_ok(n@) {
                        is_done_err(s, msg_bad_file_name())
                    } else {
                        &&& is_probe(s, n@)
                        &&& final(self).branch == old(self).branch
                        &&& final(self).head == old(self).head
                        &&& opt_view(final(self).remote_url) == remote_url_of(o.stdout@)
                    },
                    None => (s matches GitStep::Done(Ok(info)) && {
                        &&& info.branch == old(self).branch
                        &&& info.head == old(self).head
                        &&& opt_view(info.remote_url) == remote_url_of(o.stdout@)
                        &&& !info.file_exists
                    }),
                },
                _ => false,
            },
    {
        let o = match run {
            Err(e) => {
                self.stage = ValidateRepoStage::Finished;
                return GitStep::Done(Err(e));
            },
            Ok(o) => o,
        };
        match self.stage {
            ValidateRepoStage::Branch => {
                if o.code == 0 {
                    self.branch = trim(o.stdout.as_str());
                } else if contains_str(o.stderr.as_str(), "HEAD") || contains_str(
                    o.stderr.as_str(),
                    "unknown revision",
                ) {
                    self.branch = String::new();
                } else {
                    self.stage = ValidateRepoStage::Finished;
                    return GitStep::Done(
                        Err(concat("ブランチ取得失敗: ", o.stderr.as_str())),
                    );
                }
                self.stage = ValidateRepoStage::Head;
                GitStep::Run(short_head_args_exec())
            },
            ValidateRepoStage::Head => {
                self.head = if o.code == 0 {
                    Some(trim(o.stdout.as_str()))
                } else {
                    None
                };
                self.stage = ValidateRepoStage::Remote;
                GitStep::Run(args3("config", "--get", "remote.origin.url"))
            },
            _ => {
                let url = trim(o.stdout.as_str());
                let remote_url = if url.as_str().is_empty() {
                    None
                } else {
                    Some(url)
                };
                match &self.file_name {
                    Some(name) => {
                        match validate_file_name(name.as_str()) {
                            Err(e) => {
                                self.stage = ValidateRepoStage::Finished;
                                return GitStep::Done(Err(e));
                            },
                            Ok(()) => {},
                        }
                        let probe = name.clone();
                        self.remote_url = remote_url;
                        self.stage = ValidateRepoStage::FileProbe;
                        GitStep::Probe(probe)
                    },
                    None => {
                        self.stage = ValidateRepoStage::Finished;
                        let info = RepoInfo {
                            branch: self.branch.clone(),
                            head: self.head.clone(),
                            remote_url,
                            file_exists: false,
                        };
                        GitStep::Done(Ok(info))
                    },
                }
            },
        }
    }

    /// Takes whether the file probed for exists, and finishes the check.
    pub fn probed(&mut self, exists: bool) -> (s: GitStep<RepoInfo>)
        requires
            old(self).stage is FileProbe,
        ensures
            final(self).stage is Finished,
            s matches GitStep::Done(Ok(info)) && {
                &&& info.branch == old(self).branch
                &&& info.head == old(self).head
                &&& info.remote_url == old(self).remote_url
                &&& info.file_exists == exists
            },
    {
        self.stage = ValidateRepoStage::Finished;
        let info = RepoInfo {
            branch: self.branch.clone(),
            head: self.head.clone(),
            remote_url: self.remote_url.clone(),
            file_exists: exists,
        };
        GitStep::Done(Ok(info))
    }
}

// ---------------------------------------------------------------------------
// Working-tree status

/// The answer of the status command.
pub struct StatusInfo {
    pub branch: String,
    pub clean: bool,
    pub ahead: u32,
    pub behind: u32,
    pub has_target_file_change: bool,
    pub other_dirty_files: Vec<String>,
    pub has_upstream: bool,
}

/// The runs of the status command, all in `repo`: the branch, the porcelain
/// status, and the commits behind/ahead of the upstream.
pub struct StatusPlan {
    pub repo: String,
    pub branch: Vec<String>,
    pub porcelain: Vec<String>,
    pub upstream: Vec<String>,
}

/// The three runs of the status command, in `repo`.
pub open spec fn status_plan_is(p: StatusPlan, repo: Seq<char>) -> bool {
    &&& p.repo@ == repo
    &&& views(p.branch@) == branch_args()
    &&& views(p.porcelain@) == porcelain_args()
    &&& views(p.upstream@) == ahead_behind_args()
}

/// The status plan on the file system's answers to `repo_probes`: the repository
/// check, then the file-name check; on success the three runs.
pub fn git_status_plan(repo_path: &str, is_dir: bool, has_git: bool, file_name: &str) -> (r:
    Result<StatusPlan, String>)
    ensures
        answers(r, repo_then(repo_path@, is_dir, has_git, file_error(file_name@))),
        r matches Ok(p) ==> status_plan_is(p, repo_path@),
{
    let repo = validate_repo_path(repo_path, is_dir, has_git)?;
    validate_file_name(file_name)?;
    Ok(
        StatusPlan {
            repo,
            branch: branch_args_exec(),
            porcelain: args2("status", "--porcelain=v1"),
            upstream: args4("rev-list", "--left-right", "--count", "@{u}...HEAD"),
        },
    )
}

/// The path that a porcelain line names: what follows its first three
/// bytes (two status letters and a space), without leading and trailing
/// `"`. `None` when byte 3 falls inside a character (where slicing the line
/// there fails).
pub open spec fn porcelain_path(line: Seq<char>) -> Option<Seq<char>> {
    match char_index_at_byte(line, 3) {
        Some(k) => Some(trim_spec(line.skip(k), Strip::Quote)),
        None => None,
    }
}

/// Reading porcelain lines in order: whether a line names `file`, and the
/// other named paths in order. Lines shorter than 4 bytes are skipped.
/// `None` when some line of at least 4 bytes has no path.
pub open spec fn porcelain_scan(lines: Seq<Seq<char>>, file: Seq<char>) -> Option<
    (bool, Seq<Seq<char>>),
>
    decreases lines.len(),
{
    if lines.len() == 0 {
        Some((false, Seq::empty()))
    } else {
        match porcelain_scan(lines.drop_last(), file) {
            None => None,
            Some((hit, others)) => {
                let line = lines.last();
                if utf8_len(line) < 4 {
                    Some((hit, others))
                } else {
                    match porcelain_path(line) {
                        None => None,
                        Some(p) => if p == file {
                            Some((true, others))
                        } else {
                            Some((hit, others.push(p)))
                        },
                    }
                }
            }
        }
    }
}

proof fn lemma_porcelain_scan_none_stays(lines: Seq<Seq<char>>, file: Seq<char>, i: int)
    requires
        0 <= i <= lines.len(),
        porcelain_scan(lines.take(i), file) is None,
    ensures
        porcelain_scan(lines, file) is None,
    decreases lines.len() - i,
{
    if i < lines.len() {
        assert(lines.take(i + 1).drop_last() =~= lines.take(i));
        lemma_porcelain_scan_none_stays(lines, file, i + 1);
    } else {
        assert(lines.take(i) =~= lines);
    }
}

/// No path that the porcelain scan lists as another dirty file is the file
/// itself.
pub proof fn law_other_dirty_files_exclude_target(lines: Seq<Seq<char>>, file: Seq<char>)
    ensures
        porcelain_scan(lines, file) matches Some((hit, others)) ==> forall|j: int|
            0 <= j < others.len() ==> others[j] != file,
    decreases lines.len(),
{
    if lines.len() > 0 {
        law_other_dirty_files_exclude_target(lines.drop_last(), file);
    }
}

/// The path after byte 3 of a line is what `porcelain_path` gives, when byte
/// 3 falls after character `k`.
proof fn lemma_porcelain_path_at(line: Seq<char>, k: int)
    requires
        0 <= k <= line.len(),
        utf8_len(line.take(k)) == 3,
    ensures
        porcelain_path(line) == Some(trim_spec(line.skip(k), Strip::Quote)),
{
    assert(exists|j: int| 0 <= j <= line.len() && utf8_len(#[trigger] line.take(j)) == 3);
    let j = choose|j: int| 0 <= j <= line.len() && utf8_len(#[trigger] line.take(j)) == 3;
    if j < k {
        crate::text::lemma_utf8_len_prefix_strict(line, j, k);
    } else if k < j {
        crate::text::lemma_utf8_len_prefix_strict(line, k, j);
    }
}

/// Every porcelain line of at least 4 bytes names a dirty path, whatever
/// its two status letters say (modified, added, deleted, untracked, ...):
/// the text after byte 3, without surrounding quotes. When it is the file,
/// the file is reported changed; otherwise it is listed among the other
/// dirty files.
pub proof fn law_porcelain_reports_every_path(
    lines: Seq<Seq<char>>,
    file: Seq<char>,
    i: int,
    k: int,
)
    requires
        porcelain_scan(lines, file) is Some,
        0 <= i < lines.len(),
        4 <= utf8_len(lines[i]),
        0 <= k <= lines[i].len(),
        utf8_len(lines[i].take(k)) == 3,
    ensures
        ({
            let path = trim_spec(lines[i].skip(k), Strip::Quote);
            let (hit, others) = porcelain_scan(lines, file).unwrap();
            &&& path == file ==> hit
            &&& path != file ==> others.contains(path)
        }),
    decreases lines.len(),
{
    let prev = lines.drop_last();
    let path = trim_spec(lines[i].skip(k), Strip::Quote);
    if porcelain_scan(prev, file) is None {
        assert(porcelain_scan(lines, file) is None);
    }
    let (hit0, others0) = porcelain_scan(prev, file).unwrap();
    if i < lines.len() - 1 {
        assert(prev[i] == lines[i]);
        law_porcelain_reports_every_path(prev, file, i, k);
        if path != file {
            let j = choose|j: int| 0 <= j < others0.len() && others0[j] == path;
            let (hit, others) = porcelain_scan(lines, file).unwrap();
            assert(others[j] == path);
        }
    } else {
        lemma_porcelain_path_at(lines[i], k);
        if path != file {
            let (hit, others) = porcelain_scan(lines, file).unwrap();
            assert(others[others.len() - 1] == path);
        }
    }
}

/// The file is reported changed only when some porcelain line of at least
/// 4 bytes names it.
pub proof fn law_porcelain_change_only_when_named(lines: Seq<Seq<char>>, file: Seq<char>)
    ensures
        porcelain_scan(lines, file) matches Some((hit, others)) && hit ==> exists|i: int, k: int|
            0 <= i < lines.len() && 0 <= k <= lines[i].len() && 4 <= utf8_len(lines[i])
                && utf8_len(#[trigger] lines[i].take(k)) == 3 && trim_spec(
                lines[i].skip(k),
                Strip::Quote,
            ) == file,
    decreases lines.len(),
{
    if lines.len() > 0 {
        let prev = lines.drop_last();
        law_porcelain_change_only_when_named(prev, file);
        if porcelain_scan(lines, file) matches Some((hit, others)) && hit {
            let (hit0, others0) = porcelain_scan(prev, file).unwrap();
            let n = lines.len() - 1;
            if hit0 {
                let (i, k) = choose|i: int, k: int|
                    0 <= i < prev.len() && 0 <= k <= prev[i].len() && 4 <= utf8_len(prev[i])
                        && utf8_len(#[trigger] prev[i].take(k)) == 3 && trim_spec(
                        prev[i].skip(k),
                        Strip::Quote,
                    ) == file;
                assert(prev[i] == lines[i]);
                assert(utf8_len(lines[i].take(k)) == 3);
            } else {
                let line = lines[n];
                let k = choose|k: int| 0 <= k <= line.len() && utf8_len(#[trigger] line.take(k)) == 3;
                assert(utf8_len(lines[n].take(k)) == 3);
            }
        }
    }
}

fn scan_porcelain(porcelain: &str, file_name: &str) -> (r: Option<(bool, Vec<String>)>)
    ensures
        match r {
            None => porcelain_scan(lines_spec(porcelain@), file_name@) is None,
            Some((hit, others)) => porcelain_scan(lines_spec(porcelain@), file_name@) == Some(
                (hit, views(others@)),
            ),
        },
{
    let lines = split_lines(porcelain);
    let ghost ls = lines_spec(porcelain@);
    let file = String::from_str(file_name);
    let n = lines.len();
    let mut hit = false;
    let mut others: Vec<String> = Vec::new();
    let mut i: usize = 0;
    proof {
        assert(ls.take(0) =~= Seq::<Seq<char>>::empty());
        assert(views(others@) =~= Seq::<Seq<char>>::empty());
    }
    while i < n
        invariant
            n == lines@.len(),
            views(lines@) == ls,
            ls == lines_spec(porcelain@),
            file@ == file_name@,
            0 <= i <= n,
            porcelain_scan(ls.take(i as int), file_name@) == Some((hit, views(others@))),
        decreases n - i,
    {
        let line = &lines[i];
        let v = chars_of(line.as_str());
        proof {
            assert(ls.take(i + 1).drop_last() =~= ls.take(i as int));
            assert(ls.take(i + 1).last() == ls[i as int]);
            assert(ls[i as int] == lines@[i as int]@);
        }
        if utf8_len_capped(&v, 4) >= 4 {
            match char_index_at_byte_exec(&v, 3) {
                None => {
                    proof {
                        lemma_porcelain_scan_none_stays(ls, file_name@, i + 1);
                    }
                    return None;
                },
                Some(k) => {
                    let rest = string_of(vstd::slice::slice_subrange(v.as_slice(), k, v.len()));
                    proof {
                        assert(v@.subrange(k as int, v@.len() as int) =~= v@.skip(k as int));
                    }
                    let path = trim_by(rest.as_str(), Strip::Quote);
                    if path == file {
                        hit = true;
                    } else {
                        proof {
                            crate::text::lemma_views_push(others@, path);
                        }
                        others.push(path);
                    }
                },
            }
        }
        i += 1;
    }
    proof {
        assert(ls.take(n as int) =~= ls);
    }
    Some((hit, others))
}

/// The number in word `i` of `words`, 0 when there is no such word or it is
/// no `u32` numeral.
pub open spec fn count_field(words: Seq<Seq<char>>, i: int) -> u32 {
    if 0 <= i < words.len() {
        match parse_u32_spec(words[i]) {
            Some(v) => v,
            None => 0,
        }
    } else {
        0
    }
}

fn count_field_exec(words: &Vec<String>, i: usize) -> (r: u32)
    ensures
        r == count_field(views(words@), i as int),
{
    if i < words.len() {
        match parse_u32(words[i].as_str()) {
            Some(v) => v,
            None => 0,
        }
    } else {
        0
    }
}

/// The answer of the status command from the outputs of its three runs:
/// the trimmed branch; clean when the porcelain output is blank; whether a
/// porcelain line names the file, and the other named paths; and, when the
/// upstream run succeeded, the two counts of its output (behind first, then
/// ahead, each 0 when missing or not a number), else no upstream and 0, 0.
/// `None` when a porcelain line of at least 4 bytes has a character across
/// byte 3.
pub fn git_status_reply(
    file_name: &str,
    branch_stdout: &str,
    porcelain: &str,
    upstream: &GitOutput,
) -> (r: Option<StatusInfo>)
    ensures
        r is None <==> porcelain_scan(lines_spec(porcelain@), file_name@) is None,
        r matches Some(st) ==> {
            &&& st.branch@ == trim_spec(branch_stdout@, Strip::WhiteSpace)
            &&& st.clean == (trim_spec(porcelain@, Strip::WhiteSpace).len() == 0)
            &&& porcelain_scan(lines_spec(porcelain@), file_name@) == Some(
                (st.has_target_file_change, views(st.other_dirty_files@)),
            )
            &&& st.has_upstream == (upstream.code == 0)
            &&& st.behind == if upstream.code == 0 {
                count_field(words_spec(upstream.stdout@), 0)
            } else {
                0
            }
            &&& st.ahead == if upstream.code == 0 {
                count_field(words_spec(upstream.stdout@), 1)
            } else {
                0
            }
        },
{
    let branch = trim(branch_stdout);
    let (hit, others) = match scan_porcelain(porcelain, file_name) {
        None => {
            return None;
        },
        Some(x) => x,
    };
    let clean = trim(porcelain).as_str().is_empty();
    let (has_upstream, behind, ahead) = if upstream.code == 0 {
        let parts = split_whitespace(upstream.stdout.as_str());
        (true, count_field_exec(&parts, 0), count_field_exec(&parts, 1))
    } else {
        (false, 0, 0)
    };
    Some(
        StatusInfo {
            branch,
            clean,
            ahead,
            behind,
            has_target_file_change: hit,
            other_dirty_files: others,
            has_upstream,
        },
    )
}


// ---------------------------------------------------------------------------
// Fetch and pull

/// The remote name given, or `origin` when none is.
pub open spec fn remote_or_origin(remote: Option<String>) -> Seq<char> {
    match remote {
        Some(r) => r@,
        None => "origin"@,
    }
}

fn remote_or_origin_exec(remote: Option<String>) -> (r: String)
    ensures
        r@ == remote_or_origin(remote),
{
    match remote {
        Some(r) => r,
        None => String::from_str("origin"),
    }
}

/// The fetch plan on the file system's answers to `repo_probes`: the repository
/// check, then the remote check (default `origin`); on success the run
/// `git fetch <remote>`.
pub fn git_fetch_plan(
    repo_path: &str,
    is_dir: bool,
    has_git: bool,
    remote: Option<String>,
) -> (r: Result<GitPlan, String>)
    ensures
        answers(r, repo_then(repo_path@, is_dir, has_git, remote_error(remote_or_origin(remote)))),
        r matches Ok(p) ==> p.repo@ == repo_path@ && views(p.args@) == seq![
            "fetch"@,
            remote_or_origin(remote),
        ],
{
    let repo = validate_repo_path(repo_path, is_dir, has_git)?;
    let remote = remote_or_origin_exec(remote);
    validate_remote(remote.as_str())?;
    let args = args2("fetch", remote.as_str());
    Ok(GitPlan { repo, args })
}

/// The answer of the fetch: an error with git's message for a non-zero
/// exit code.
pub fn git_fetch_reply(out: &GitOutput) -> (r: Result<(), String>)
    ensures
        out.code == 0 <==> r is Ok,
        r matches Err(e) ==> e@ == "git fetch 失敗: "@ + out.stderr@,
{
    if out.code != 0 {
        return Err(concat("git fetch 失敗: ", out.stderr.as_str()));
    }
    Ok(())
}

/// The arguments `pull --ff-only <remote> [<branch>]`.
pub open spec fn pull_args(remote: Seq<char>, branch: Option<String>) -> Seq<Seq<char>> {
    match branch {
        Some(b) => seq!["pull"@, "--ff-only"@, remote, b@],
        None => seq!["pull"@, "--ff-only"@, remote],
    }
}

/// The pull plan on the file system's answers to `repo_probes`: the repository
/// check, the remote check (default `origin`), then the branch check if a
/// branch is given; on success `git pull --ff-only <remote> [<branch>]`.
pub fn git_pull_ff_only_plan(
    repo_path: &str,
    is_dir: bool,
    has_git: bool,
    remote: Option<String>,
    branch: Option<String>,
) -> (r: Result<GitPlan, String>)
    ensures
        answers(
            r,
            repo_then(
                repo_path@,
                is_dir,
                has_git,
                first_error(remote_error(remote_or_origin(remote)), branch_error(branch)),
            ),
        ),
        r matches Ok(p) ==> p.repo@ == repo_path@ && views(p.args@) == pull_args(
            remote_or_origin(remote),
            branch,
        ),
{
    let repo = validate_repo_path(repo_path, is_dir, has_git)?;
    let remote = remote_or_origin_exec(remote);
    validate_remote(remote.as_str())?;
    let mut args = args3("pull", "--ff-only", remote.as_str());
    match branch {
        Some(b) => {
            validate_branch(b.as_str())?;
            proof {
                crate::text::lemma_views_push(args@, b);
            }
            args.push(b);
        },
        None => {},
    }
    Ok(GitPlan { repo, args })
}

/// The answer of the pull: an error with git's message for a non-zero exit
/// code.
pub fn git_pull_ff_only_reply(out: &GitOutput) -> (r: Result<(), String>)
    ensures
        out.code == 0 <==> r is Ok,
        r matches Err(e) ==> e@ == "git pull --ff-only 失敗: "@ + out.stderr@,
{
    if out.code != 0 {
        return Err(concat("git pull --ff-only 失敗: ", out.stderr.as_str()));
    }
    Ok(())
}

// ---------------------------------------------------------------------------
// Reading and writing the file

/// The read plan on the file system's answers to `repo_probes`: the repository
/// check, then the file-name check; on success the repository. The caller
/// then answers "no file" (`Ok(None)`) when `<repo>/<file>` does not exist,
/// and its content otherwise.
pub fn git_read_file_plan(repo_path: &str, is_dir: bool, has_git: bool, file_name: &str) -> (r:
    Result<String, String>)
    ensures
        answers(r, repo_then(repo_path@, is_dir, has_git, file_error(file_name@))),
        r matches Ok(p) ==> p@ == repo_path@,
{
    let repo = validate_repo_path(repo_path, is_dir, has_git)?;
    validate_file_name(file_name)?;
    Ok(repo)
}

/// The arguments `show <ref>:<file>`.
pub open spec fn show_args(git_ref: Seq<char>, file_name: Seq<char>) -> Seq<Seq<char>> {
    seq!["show"@, git_ref + ":"@ + file_name]
}

/// The read-at-ref plan on the file system's answers to `repo_probes`: the
/// repository check, the file-name check, then the ref check; on success
/// the run `git show <ref>:<file>`.
pub fn git_read_file_at_ref_plan(
    repo_path: &str,
    is_dir: bool,
    has_git: bool,
    file_name: &str,
    git_ref: &str,
) -> (r: Result<GitPlan, String>)
    ensures
        answers(
            r,
            repo_then(
                repo_path@,
                is_dir,
                has_git,
                first_error(file_error(file_name@), ref_error(git_ref@)),
            ),
        ),
        r matches Ok(p) ==> p.repo@ == repo_path@ && views(p.args@) == show_args(
            git_ref@,
            file_name@,
        ),
{
    let repo = validate_repo_path(repo_path, is_dir, has_git)?;
    validate_file_name(file_name)?;
    validate_ref(git_ref)?;
    let mut spec = concat(git_ref, ":");
    spec.append(file_name);
    let mut args: Vec<String> = Vec::new();
    args.push(String::from_str("show"));
    args.push(spec);
    assert(views(args@) =~= show_args(git_ref@, file_name@));
    Ok(GitPlan { repo, args })
}

/// The error of `git show` says that the file or the revision is not there.
pub open spec fn missing_at_ref(stderr: Seq<char>) -> bool {
    ||| contains_spec(stderr, "does not exist"@)
    ||| contains_spec(stderr, "exists on disk, but not in"@)
    ||| contains_spec(stderr, "unknown revision"@)
    ||| contains_spec(stderr, "Path"@) && contains_spec(stderr, "does not exist"@)
}

/// The answer of `git show`: the file's content; no file when git says it
/// or the revision is missing; else an error with git's message.
pub fn git_read_file_at_ref_reply(out: &GitOutput) -> (r: Result<Option<String>, String>)
    ensures
        out.code == 0 ==> (r matches Ok(Some(c)) && c@ == out.stdout@),
        out.code != 0 && missing_at_ref(out.stderr@) ==> r matches Ok(None),
        out.code != 0 && !missing_at_ref(out.stderr@) ==> (r matches Err(e) && e@ == "git show 失敗: "@
            + out.stderr@),
{
    if out.code != 0 {
        let err = out.stderr.as_str();
        if contains_str(err, "does not exist") || contains_str(err, "exists on disk, but not in")
            || contains_str(err, "unknown revision") || contains_str(err, "Path") && contains_str(
            err,
            "does not exist",
        ) {
            return Ok(None);
        }
        return Err(concat("git show 失敗: ", err));
    }
    Ok(Some(out.stdout.clone()))
}

/// Where the file is written: first to `temp`, which is then renamed to
/// `target`, both directly inside `repo`.
pub struct WritePlan {
    pub repo: String,
    pub target: String,
    pub temp: String,
}

/// The files of a write into `repo`: `<file>` and the temporary `.<file>.tmp`.
pub open spec fn write_plan_is(p: WritePlan, repo: Seq<char>, file_name: Seq<char>) -> bool {
    &&& p.repo@ == repo
    &&& p.target@ == file_name
    &&& p.temp@ == "."@ + file_name + ".tmp"@
}

/// The write plan on the file system's answers to `repo_probes`: the repository
/// check, then the file-name check; the temporary file is `.<name>.tmp`
/// beside the target.
pub fn git_write_file_plan(repo_path: &str, is_dir: bool, has_git: bool, file_name: &str) -> (r:
    Result<WritePlan, String>)
    ensures
        answers(r, repo_then(repo_path@, is_dir, has_git, file_error(file_name@))),
        r matches Ok(p) ==> write_plan_is(p, repo_path@, file_name@),
{
    let repo = validate_repo_path(repo_path, is_dir, has_git)?;
    validate_file_name(file_name)?;
    let mut temp = concat(".", file_name);
    temp.append(".tmp");
    Ok(WritePlan { repo, target: String::from_str(file_name), temp })
}


// ---------------------------------------------------------------------------
// Commit (and push)

/// The answer of a commit: the short hash of HEAD afterwards, whether it was
/// pushed, and whether there was nothing to commit.
pub struct CommitInfo {
    pub sha: String,
    pub pushed: bool,
    pub nothing_to_commit: bool,
}

/// Where a commit stands: which run's output it waits for.
pub enum CommitStage {
    /// `git add -- <file>`
    Add,
    /// `git diff --cached --quiet`
    Diff,
    /// `git commit -m <message>`
    Commit,
    /// `git rev-parse --abbrev-ref HEAD` (no branch given)
    BranchQuery,
    /// `git push <remote> <branch>`
    Push,
    /// `git rev-parse --short HEAD`
    Sha,
    Finished,
}

/// A commit of the file, followed by a push to `push_to` when that is set.
/// Even with nothing to commit the push runs, since the branch may be ahead
/// of its upstream.
pub struct CommitRun {
    pub repo: String,
    pub message: String,
    pub push_to: Option<String>,
    pub branch: Option<String>,
    pub nothing_to_commit: bool,
    pub stage: CommitStage,
}

impl CommitRun {
    /// Waiting for the branch name happens only when pushing.
    pub open spec fn wf(&self) -> bool {
        self.stage is BranchQuery ==> self.push_to is Some
    }

    /// What follows a successful commit, or a diff with nothing staged:
    /// without a push, the short hash; with a push to a given branch, the
    /// branch check and then the push (or the check's error); with a push
    /// and no branch given, the query of the current branch.
    pub open spec fn after_commit(self, s: GitStep<CommitInfo>, next: CommitStage) -> bool {
        match self.push_to {
            None => is_run(s, short_head_args()) && next is Sha,
            Some(remote) => match self.branch {
                Some(b) => if name_ok(NameKind::Branch, b@) {
                    is_run(s, seq!["push"@, remote@, b@]) && next is Push
                } else {
                    is_done_err(s, name_error(b@, msg_bad_branch(), msg_branch_chars()))
                        && next is Finished
                },
                None => is_run(s, branch_args()) && next is BranchQuery,
            },
        }
    }

    /// A commit (with a push to `push_to` and `branch`) that waits for
    /// `git add -- <file>`.
    pub open spec fn starts_commit(
        self,
        args: Vec<String>,
        repo: Seq<char>,
        file_name: Seq<char>,
        message: String,
        push_to: Option<Seq<char>>,
        branch: Option<String>,
    ) -> bool {
        &&& self.repo@ == repo
        &&& self.message == message
        &&& opt_view(self.push_to) == push_to
        &&& self.branch == branch
        &&& !self.nothing_to_commit
        &&& self.stage is Add
        &&& self.wf()
        &&& views(args@) == seq!["add"@, "--"@, file_name]
    }

    /// The commit-and-push start on the file system's answers to `repo_probes`: the
    /// repository check, the file-name check, then the remote check (default
    /// `origin`); on success the commit asks first for `git add -- <file>`.
    pub fn start_commit_and_push(
        repo_path: &str,
        is_dir: bool,
        has_git: bool,
        file_name: &str,
        message: String,
        remote: Option<String>,
        branch: Option<String>,
    ) -> (r: Result<(CommitRun, Vec<String>), String>)
        ensures
            answers(
                r,
                repo_then(
                    repo_path@,
                    is_dir,
                    has_git,
                    first_error(file_error(file_name@), remote_error(remote_or_origin(remote))),
                ),
            ),
            r matches Ok((m, args)) ==> m.starts_commit(
                args,
                repo_path@,
                file_name@,
                message,
                Some(remote_or_origin(remote)),
                branch,
            ),
    {
        let repo = validate_repo_path(repo_path, is_dir, has_git)?;
        validate_file_name(file_name)?;
        let remote = remote_or_origin_exec(remote);
        validate_remote(remote.as_str())?;
        let m = CommitRun {
            repo,
            message,
            push_to: Some(remote),
            branch,
            nothing_to_commit: false,
            stage: CommitStage::Add,
        };
        Ok((m, args3("add", "--", file_name)))
    }

    /// The commit-only start on the file system's answers to `repo_probes`: the
    /// repository check, then the file-name check; on success the commit
    /// (without a push) asks first for `git add -- <file>`.
    pub fn start_commit_only(
        repo_path: &str,
        is_dir: bool,
        has_git: bool,
        file_name: &str,
        message: String,
    ) -> (r: Result<(CommitRun, Vec<String>), String>)
        ensures
            answers(r, repo_then(repo_path@, is_dir, has_git, file_error(file_name@))),
            r matches Ok((m, args)) ==> m.starts_commit(
                args,
                repo_path@,
                file_name@,
                message,
                None,
                None,
            ),
    {
        let repo = validate_repo_path(repo_path, is_dir, has_git)?;
        validate_file_name(file_name)?;
        let m = CommitRun {
            repo,
            message,
            push_to: None,
            branch: None,
            nothing_to_commit: false,
            stage: CommitStage::Add,
        };
        Ok((m, args3("add", "--", file_name)))
    }

    fn proceed_after_commit(&mut self) -> (s: GitStep<CommitInfo>)
        requires
            old(self).stage is Diff || old(self).stage is Commit,
        ensures
            final(self).repo == old(self).repo,
            final(self).message == old(self).message,
            final(self).push_to == old(self).push_to,
            final(self).branch == old(self).branch,
            final(self).nothing_to_commit == old(self).nothing_to_commit,
            final(self).wf(),
            old(self).after_commit(s, final(self).stage),
    {
        match &self.push_to {
            None => {
                self.stage = CommitStage::Sha;
                GitStep::Run(short_head_args_exec())
            },
            Some(remote) => match &self.branch {
                Some(b) => {
                    match validate_branch(b.as_str()) {
                        Err(e) => {
                            self.stage = CommitStage::Finished;
                            GitStep::Done(Err(e))
                        },
                        Ok(()) => {
                            let args = args3("push", remote.as_str(), b.as_str());
                            self.stage = CommitStage::Push;
                            GitStep::Run(args)
                        },
                    }
                },
                None => {
                    self.stage = CommitStage::BranchQuery;
                    GitStep::Run(branch_args_exec())
                },
            },
        }
    }

    /// One step of the commit, from `self` to `next`, on the output `run` of
    /// the run asked for last, answering `s`: a run that could not be started
    /// ends it with its error; a failed `add`, `commit`, branch query or
    /// `push` ends it with git's message; a clean diff skips the commit; what
    /// follows a commit is given by `after_commit`; the short hash ends it.
    pub open spec fn step_ok(
        self,
        run: Result<GitOutput, String>,
        s: GitStep<CommitInfo>,
        next: CommitRun,
    ) -> bool {
        &&& next.wf()
        &&& next.repo == self.repo
        &&& next.message == self.message
        &&& next.push_to == self.push_to
        &&& next.branch == self.branch
        &&& !(self.stage is Diff) ==> next.nothing_to_commit == self.nothing_to_commit
        &&& (s is Done <==> next.stage is Finished)
        &&& (run matches Err(e) ==> is_done_err(s, e@))
        &&& (run matches Ok(o) ==> match self.stage {
                CommitStage::Add => if o.code != 0 {
                    is_done_err(s, "git add 失敗: "@ + o.stderr@)
                } else {
                    is_run(s, staged_diff_args()) && next.stage is Diff
                },
                CommitStage::Diff => {
                    &&& next.nothing_to_commit == (o.code == 0)
                    &&& if o.code != 0 {
                        is_run(s, seq!["commit"@, "-m"@, self.message@])
                            && next.stage is Commit
                    } else {
                        self.after_commit(s, next.stage)
                    }
                },
                CommitStage::Commit => if o.code != 0 {
                    is_done_err(s, "git commit 失敗: "@ + o.stderr@)
                } else {
                    self.after_commit(s, next.stage)
                },
                CommitStage::BranchQuery => if o.code != 0 {
                    is_done_err(s, "ブランチ取得失敗: "@ + o.stderr@)
                } else {
                    &&& self.push_to matches Some(remote) && is_run(
                        s,
                        seq!["push"@, remote@, trim_spec(o.stdout@, Strip::WhiteSpace)],
                    )
                    &&& next.stage is Push
                },
                CommitStage::Push => if o.code != 0 {
                    is_done_err(s, "git push 失敗: "@ + o.stderr@)
                } else {
                    is_run(s, short_head_args()) && next.stage is Sha
                },
                CommitStage::Sha => (s matches GitStep::Done(Ok(info)) && {
                    &&& info.sha@ == trim_spec(o.stdout@, Strip::WhiteSpace)
                    &&& info.pushed == (self.push_to is Some)
                    &&& info.nothing_to_commit == self.nothing_to_commit
                }),
                CommitStage::Finished => false,
            })
    }

    /// Takes the output of the run asked for last, and says what comes next
    /// (see `step_ok`). A run that could not be started ends the commit with
    /// its error.
    pub fn step(&mut self, run: Result<GitOutput, String>) -> (s: GitStep<CommitInfo>)
        requires
            old(self).wf(),
            !(old(self).stage is Finished),
        ensures
            old(self).step_ok(run, s, *final(self)),
    {
        let o = match run {
            Err(e) => {
                self.stage = CommitStage::Finished;
                return GitStep::Done(Err(e));
            },
            Ok(o) => o,
        };
        match self.stage {
            CommitStage::Add => {
                if o.code != 0 {
                    self.stage = CommitStage::Finished;
                    return GitStep::Done(Err(concat("git add 失敗: ", o.stderr.as_str())));
                }
                self.stage = CommitStage::Diff;
                GitStep::Run(args3("diff", "--cached", "--quiet"))
            },
            CommitStage::Diff => {
                self.nothing_to_commit = o.code == 0;
                if o.code != 0 {
                    let args = args3("commit", "-m", self.message.as_str());
                    self.stage = CommitStage::Commit;
                    GitStep::Run(args)
                } else {
                    self.proceed_after_commit()
                }
            },
            CommitStage::Commit => {
                if o.code != 0 {
                    self.stage = CommitStage::Finished;
                    return GitStep::Done(Err(concat("git commit 失敗: ", o.stderr.as_str())));
                }
                self.proceed_after_commit()
            },
            CommitStage::BranchQuery => {
                if o.code != 0 {
                    self.stage = CommitStage::Finished;
                    return GitStep::Done(Err(concat("ブランチ取得失敗: ", o.stderr.as_str())));
                }
                let branch = trim(o.stdout.as_str());
                match &self.push_to {
                    Some(remote) => {
                        let args = args3("push", remote.as_str(), branch.as_str());
                        self.stage = CommitStage::Push;
                        GitStep::Run(args)
                    },
                    None => {
                        // not reached: the branch is only asked for when pushing (wf)
                        self.stage = CommitStage::Finished;
                        GitStep::Done(Err(String::new()))
                    },
                }
            },
            CommitStage::Push => {
                if o.code != 0 {
                    self.stage = CommitStage::Finished;
                    return GitStep::Done(Err(concat("git push 失敗: ", o.stderr.as_str())));
                }
                self.stage = CommitStage::Sha;
                GitStep::Run(short_head_args_exec())
            },
            _ => {
                self.stage = CommitStage::Finished;
                let info = CommitInfo {
                    sha: trim(o.stdout.as_str()),
                    pushed: self.push_to.is_some(),
                    nothing_to_commit: self.nothing_to_commit,
                };
                GitStep::Done(Ok(info))
            },
        }
    }
}

/// In a commit that pushes to `r` with a valid branch `b`, a successful
/// commit, and equally a diff with nothing staged, is followed by the run
/// `push r b`.
pub proof fn law_commit_is_followed_by_push(
    m: CommitRun,
    o: GitOutput,
    s: GitStep<CommitInfo>,
    next: CommitRun,
    r: String,
    b: String,
)
    requires
        m.step_ok(Ok(o), s, next),
        m.push_to == Some(r),
        m.branch == Some(b),
        name_ok(NameKind::Branch, b@),
        m.stage is Commit || m.stage is Diff,
        o.code == 0,
    ensures
        is_run(s, seq!["push"@, r@, b@]),
        next.stage is Push,
{
}

/// In a commit that pushes to `r` with no branch given, a successful query
/// of the current branch is followed by the push of that branch (the
/// query's output, trimmed) to `r`.
pub proof fn law_queried_branch_is_pushed(
    m: CommitRun,
    o: GitOutput,
    s: GitStep<CommitInfo>,
    next: CommitRun,
    r: String,
)
    requires
        m.step_ok(Ok(o), s, next),
        m.push_to == Some(r),
        m.stage is BranchQuery,
        o.code == 0,
    ensures
        is_run(s, seq!["push"@, r@, trim_spec(o.stdout@, Strip::WhiteSpace)]),
        next.stage is Push,
{
}

/// In a commit that pushes, the short hash (after which the answer comes)
/// is asked for only after a successful push run.
pub proof fn law_hash_only_after_push(
    m: CommitRun,
    run: Result<GitOutput, String>,
    s: GitStep<CommitInfo>,
    next: CommitRun,
)
    requires
        m.step_ok(run, s, next),
        m.push_to is Some,
        next.stage is Sha,
    ensures
        m.stage is Push,
        run matches Ok(o) && o.code == 0,
        is_run(s, short_head_args()),
{
}

/// A commit answers with success only from the short-hash step, and it
/// says it pushed exactly when it was a commit that pushes.
pub proof fn law_answer_only_after_hash(
    m: CommitRun,
    run: Result<GitOutput, String>,
    s: GitStep<CommitInfo>,
    next: CommitRun,
)
    requires
        m.step_ok(run, s, next),
    ensures
        s matches GitStep::Done(Ok(info)) ==> m.stage is Sha && run is Ok && info.pushed == (
        m.push_to is Some),
{
}

// ---------------------------------------------------------------------------
// Aborting an unfinished merge, cherry-pick or rebase

/// Where the abort command stands: which probe answer or abort run it waits
/// for.
pub enum AbortStage {
    /// whether `.git/MERGE_HEAD` exists
    MergeProbe,
    /// `git merge --abort`
    MergeRun,
    /// whether `.git/CHERRY_PICK_HEAD` exists
    CherryPickProbe,
    /// `git cherry-pick --abort`
    CherryPickRun,
    /// whether `.git/rebase-merge` exists
    RebaseMergeProbe,
    /// whether `.git/rebase-apply` exists
    RebaseApplyProbe,
    /// `git rebase --abort`
    RebaseRun,
    Finished,
}

/// The stage waits for a probe answer.
pub open spec fn is_probe_stage(stage: AbortStage) -> bool {
    stage is MergeProbe || stage is CherryPickProbe || stage is RebaseMergeProbe
        || stage is RebaseApplyProbe
}

/// The stage waits for an abort run.
pub open spec fn is_run_stage(stage: AbortStage) -> bool {
    stage is MergeRun || stage is CherryPickRun || stage is RebaseRun
}

/// The path (relative to the repository) that a probe stage asks about.
pub open spec fn abort_probe_path(stage: AbortStage) -> Seq<char> {
    match stage {
        AbortStage::MergeProbe => ".git/MERGE_HEAD"@,
        AbortStage::CherryPickProbe => ".git/CHERRY_PICK_HEAD"@,
        AbortStage::RebaseMergeProbe => ".git/rebase-merge"@,
        AbortStage::RebaseApplyProbe => ".git/rebase-apply"@,
        _ => Seq::empty(),
    }
}

/// The arguments of the run that a run stage asks for.
pub open spec fn abort_run_args(stage: AbortStage) -> Seq<Seq<char>> {
    match stage {
        AbortStage::MergeRun => seq!["merge"@, "--abort"@],
        AbortStage::CherryPickRun => seq!["cherry-pick"@, "--abort"@],
        AbortStage::RebaseRun => seq!["rebase"@, "--abort"@],
        _ => Seq::empty(),
    }
}

/// What the command asks for in `stage`: the probe of its path, its abort
/// run, or (finished) nothing, with success.
pub open spec fn abort_asks(stage: AbortStage, s: GitStep<()>) -> bool {
    if is_probe_stage(stage) {
        is_probe(s, abort_probe_path(stage))
    } else if is_run_stage(stage) {
        is_run(s, abort_run_args(stage))
    } else {
        s == GitStep::<()>::Done(Ok(()))
    }
}

/// The stage after the answer `exists` to the probe of `stage`: its abort
/// run when the entry exists, else the next probe (a rebase is looked for
/// as `rebase-merge`, then `rebase-apply`), and after the last probe the
/// end.
pub open spec fn after_probe(stage: AbortStage, exists: bool) -> AbortStage {
    match stage {
        AbortStage::MergeProbe => if exists {
            AbortStage::MergeRun
        } else {
            AbortStage::CherryPickProbe
        },
        AbortStage::CherryPickProbe => if exists {
            AbortStage::CherryPickRun
        } else {
            AbortStage::RebaseMergeProbe
        },
        AbortStage::RebaseMergeProbe => if exists {
            AbortStage::RebaseRun
        } else {
            AbortStage::RebaseApplyProbe
        },
        AbortStage::RebaseApplyProbe => if exists {
            AbortStage::RebaseRun
        } else {
            AbortStage::Finished
        },
        other => other,
    }
}

/// The stage after an abort run, whatever it answered: the probe for the
/// next kind of operation, and after the rebase abort the end.
pub open spec fn after_run(stage: AbortStage) -> AbortStage {
    match stage {
        AbortStage::MergeRun => AbortStage::CherryPickProbe,
        AbortStage::CherryPickRun => AbortStage::RebaseMergeProbe,
        AbortStage::RebaseRun => AbortStage::Finished,
        other => other,
    }
}

/// Looking from probe stage `from` on, with these answers: the abort run
/// that comes next, or the end when none of the entries exists.
pub open spec fn abort_after(
    from: AbortStage,
    merge_head: bool,
    cherry_pick_head: bool,
    rebase: bool,
) -> AbortStage {
    let from_rebase = if rebase {
        AbortStage::RebaseRun
    } else {
        AbortStage::Finished
    };
    let from_cherry = if cherry_pick_head {
        AbortStage::CherryPickRun
    } else {
        from_rebase
    };
    match from {
        AbortStage::MergeProbe => if merge_head {
            AbortStage::MergeRun
        } else {
            from_cherry
        },
        AbortStage::CherryPickProbe => from_cherry,
        AbortStage::RebaseMergeProbe => from_rebase,
        AbortStage::RebaseApplyProbe => from_rebase,
        other => other,
    }
}

/// The answer that the file system gives to the probe of `stage`.
pub open spec fn probe_answer(
    stage: AbortStage,
    merge_head: bool,
    cherry_pick_head: bool,
    rebase_merge: bool,
    rebase_apply: bool,
) -> bool {
    match stage {
        AbortStage::MergeProbe => merge_head,
        AbortStage::CherryPickProbe => cherry_pick_head,
        AbortStage::RebaseMergeProbe => rebase_merge,
        _ => rebase_apply,
    }
}

/// Where the probes lead from `from` when the file system answers as given.
pub open spec fn settle(
    from: AbortStage,
    merge_head: bool,
    cherry_pick_head: bool,
    rebase_merge: bool,
    rebase_apply: bool,
) -> AbortStage
    decreases abort_probe_rank(from),
{
    if is_probe_stage(from) {
        let next = after_probe(
            from,
            probe_answer(from, merge_head, cherry_pick_head, rebase_merge, rebase_apply),
        );
        if is_probe_stage(next) && abort_probe_rank(next) < abort_probe_rank(from) {
            settle(next, merge_head, cherry_pick_head, rebase_merge, rebase_apply)
        } else {
            next
        }
    } else {
        from
    }
}

/// How many probes at most remain from a stage.
pub open spec fn abort_probe_rank(stage: AbortStage) -> nat {
    match stage {
        AbortStage::MergeProbe => 4,
        AbortStage::CherryPickProbe => 3,
        AbortStage::RebaseMergeProbe => 2,
        AbortStage::RebaseApplyProbe => 1,
        _ => 0,
    }
}

/// Answering the probes as the file system stands leads to the abort of
/// the first unfinished operation in the order merge, cherry-pick, rebase
/// (a rebase shows as `rebase-merge` or `rebase-apply`), or to the end with
/// no run when none is unfinished. (From the `rebase-apply` probe on, the
/// `rebase-merge` answer is already spent, so that stage is not a start.)
pub proof fn law_probes_find_first_unfinished(
    from: AbortStage,
    merge_head: bool,
    cherry_pick_head: bool,
    rebase_merge: bool,
    rebase_apply: bool,
)
    requires
        is_probe_stage(from),
        !(from is RebaseApplyProbe),
    ensures
        settle(from, merge_head, cherry_pick_head, rebase_merge, rebase_apply) == abort_after(
            from,
            merge_head,
            cherry_pick_head,
            rebase_merge || rebase_apply,
        ),
    decreases abort_probe_rank(from),
{
    let next = after_probe(
        from,
        probe_answer(from, merge_head, cherry_pick_head, rebase_merge, rebase_apply),
    );
    reveal_with_fuel(settle, 2);
    if is_probe_stage(next) && !(next is RebaseApplyProbe) {
        law_probes_find_first_unfinished(
            next,
            merge_head,
            cherry_pick_head,
            rebase_merge,
            rebase_apply,
        );
    }
}

/// When the probe finds its marker, the run that follows aborts the
/// operation the marker belongs to: `merge --abort` for `MERGE_HEAD`,
/// `cherry-pick --abort` for `CHERRY_PICK_HEAD`, `rebase --abort` for
/// `rebase-merge` and `rebase-apply`. When it does not find it, no run
/// follows (only the next probe or the end).
pub proof fn law_abort_matches_marker(stage: AbortStage, s: GitStep<()>, t: GitStep<()>)
    requires
        is_probe_stage(stage),
        abort_asks(after_probe(stage, true), s),
        abort_asks(after_probe(stage, false), t),
    ensures
        abort_probe_path(stage) == ".git/MERGE_HEAD"@ ==> is_run(s, seq!["merge"@, "--abort"@]),
        abort_probe_path(stage) == ".git/CHERRY_PICK_HEAD"@ ==> is_run(
            s,
            seq!["cherry-pick"@, "--abort"@],
        ),
        abort_probe_path(stage) == ".git/rebase-merge"@ || abort_probe_path(stage)
            == ".git/rebase-apply"@ ==> is_run(s, seq!["rebase"@, "--abort"@]),
        !(t is Run),
{
    reveal_strlit(".git/MERGE_HEAD");
    reveal_strlit(".git/CHERRY_PICK_HEAD");
    reveal_strlit(".git/rebase-merge");
    reveal_strlit(".git/rebase-apply");
    let m = ".git/MERGE_HEAD"@;
    let c = ".git/CHERRY_PICK_HEAD"@;
    let rm = ".git/rebase-merge"@;
    let ra = ".git/rebase-apply"@;
    assert(m.len() != c.len() && m.len() != rm.len() && m.len() != ra.len());
    assert(c.len() != rm.len() && c.len() != ra.len());
    assert(rm[12] != ra[12]);
    assert(m != c && m != rm && m != ra && c != rm && c != ra);
}

/// Aborts each unfinished operation that the repository shows: a merge
/// (`.git/MERGE_HEAD`), then a cherry-pick (`.git/CHERRY_PICK_HEAD`), then a
/// rebase (`.git/rebase-merge` or `.git/rebase-apply`). Each entry is probed
/// just before its abort would run, after the earlier aborts; what an abort
/// run answers is ignored.
pub struct AbortRun {
    pub repo: String,
    pub stage: AbortStage,
}

fn after_probe_exec(stage: &AbortStage, exists: bool) -> (r: AbortStage)
    ensures
        r == after_probe(*stage, exists),
{
    match stage {
        AbortStage::MergeProbe => if exists {
            AbortStage::MergeRun
        } else {
            AbortStage::CherryPickProbe
        },
        AbortStage::CherryPickProbe => if exists {
            AbortStage::CherryPickRun
        } else {
            AbortStage::RebaseMergeProbe
        },
        AbortStage::RebaseMergeProbe => if exists {
            AbortStage::RebaseRun
        } else {
            AbortStage::RebaseApplyProbe
        },
        AbortStage::RebaseApplyProbe => if exists {
            AbortStage::RebaseRun
        } else {
            AbortStage::Finished
        },
        AbortStage::MergeRun => AbortStage::MergeRun,
        AbortStage::CherryPickRun => AbortStage::CherryPickRun,
        AbortStage::RebaseRun => AbortStage::RebaseRun,
        AbortStage::Finished => AbortStage::Finished,
    }
}

impl AbortRun {
    /// What the current stage asks for.
    fn ask(&self) -> (s: GitStep<()>)
        ensures
            abort_asks(self.stage, s),
    {
        match self.stage {
            AbortStage::MergeProbe => GitStep::Probe(String::from_str(".git/MERGE_HEAD")),
            AbortStage::MergeRun => GitStep::Run(args2("merge", "--abort")),
            AbortStage::CherryPickProbe => GitStep::Probe(String::from_str(".git/CHERRY_PICK_HEAD")),
            AbortStage::CherryPickRun => GitStep::Run(args2("cherry-pick", "--abort")),
            AbortStage::RebaseMergeProbe => GitStep::Probe(String::from_str(".git/rebase-merge")),
            AbortStage::RebaseApplyProbe => GitStep::Probe(String::from_str(".git/rebase-apply")),
            AbortStage::RebaseRun => GitStep::Run(args2("rebase", "--abort")),
            AbortStage::Finished => GitStep::Done(Ok(())),
        }
    }

    /// Checks the repository path on the file system's answers to
    /// `repo_probes`; then asks whether `.git/MERGE_HEAD` exists.
    pub fn start(repo_path: &str, is_dir: bool, has_git: bool) -> (r: Result<
        (AbortRun, GitStep<()>),
        String,
    >)
        ensures
            answers(r, repo_then(repo_path@, is_dir, has_git, None)),
            r matches Ok((m, s)) ==> {
                &&& m.repo@ == repo_path@
                &&& m.stage is MergeProbe
                &&& is_probe(s, ".git/MERGE_HEAD"@)
            },
    {
        let repo = validate_repo_path(repo_path, is_dir, has_git)?;
        let m = AbortRun { repo, stage: AbortStage::MergeProbe };
        let s = m.ask();
        Ok((m, s))
    }

    /// Takes whether the entry probed for exists: runs its abort if so,
    /// else probes for the next kind of operation (or ends, after the last).
    pub fn probed(&mut self, exists: bool) -> (s: GitStep<()>)
        requires
            is_probe_stage(old(self).stage),
        ensures
            final(self).repo == old(self).repo,
            final(self).stage == after_probe(old(self).stage, exists),
            abort_asks(final(self).stage, s),
    {
        self.stage = after_probe_exec(&self.stage, exists);
        self.ask()
    }

    /// Takes the output of the abort run asked for last; its exit code is
    /// ignored, and the next kind of operation is probed for (or the command
    /// ends, after the rebase abort). A run that could not be started ends
    /// the command with its error.
    pub fn step(&mut self, run: Result<GitOutput, String>) -> (s: GitStep<()>)
        requires
            is_run_stage(old(self).stage),
        ensures
            final(self).repo == old(self).repo,
            run matches Err(e) ==> is_done_err(s, e@) && final(self).stage is Finished,
            run is Ok ==> final(self).stage == after_run(old(self).stage) && abort_asks(
                final(self).stage,
                s,
            ),
    {
        match run {
            Err(e) => {
                self.stage = AbortStage::Finished;
                GitStep::Done(Err(e))
            },
            Ok(_) => {
                self.stage = match self.stage {
                    AbortStage::MergeRun => AbortStage::CherryPickProbe,
                    AbortStage::CherryPickRun => AbortStage::RebaseMergeProbe,
                    _ => AbortStage::Finished,
                };
                self.ask()
            },
        }
    }
}

} // verus!
