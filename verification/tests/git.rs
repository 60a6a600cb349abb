use tlist::git::{
    git_check_available_args, git_check_available_reply, git_fetch_plan, git_fetch_reply,
    git_pull_ff_only_plan, git_pull_ff_only_reply, git_read_file_at_ref_plan,
    git_read_file_at_ref_reply, git_read_file_plan, git_status_plan, git_status_reply,
    git_write_file_plan, AbortRun, AbortStage, CommitRun, CommitStage, GitOutput, GitStep,
    ValidateRepo, ValidateRepoStage,
};

fn out(stdout: &str, stderr: &str, code: i32) -> GitOutput {
    GitOutput { stdout: stdout.to_string(), stderr: stderr.to_string(), code }
}

fn run_args<T>(s: &GitStep<T>) -> Vec<String> {
    match s {
        GitStep::Run(a) => a.clone(),
        _ => panic!("expected a run"),
    }
}

fn probe_path<T>(s: &GitStep<T>) -> String {
    match s {
        GitStep::Probe(p) => p.clone(),
        _ => panic!("expected a probe"),
    }
}

fn strs(v: &[&str]) -> Vec<String> {
    v.iter().map(|s| s.to_string()).collect()
}

#[test]
fn check_available() {
    assert_eq!(git_check_available_args(), strs(&["--version"]));
    assert_eq!(
        git_check_available_reply(&out("git version 2.45.0\n", "", 0)),
        Ok("git version 2.45.0".to_string())
    );
    assert_eq!(
        git_check_available_reply(&out("", "not found", 127)),
        Err("git CLI が見つかりません: not found".to_string())
    );
}

fn validate_repo_at(stage: ValidateRepoStage, file_name: Option<&str>) -> ValidateRepo {
    ValidateRepo {
        repo: "/repo".to_string(),
        file_name: file_name.map(|s| s.to_string()),
        stage,
        branch: String::new(),
        head: None,
        remote_url: None,
    }
}

#[test]
fn validate_repo_sequence() {
    let mut m = validate_repo_at(ValidateRepoStage::Branch, None);
    let s = m.step(Ok(out("main\n", "", 0)));
    assert_eq!(run_args(&s), strs(&["rev-parse", "--short", "HEAD"]));
    assert_eq!(m.branch, "main");
    let s = m.step(Ok(out("abc1234\n", "", 0)));
    assert_eq!(run_args(&s), strs(&["config", "--get", "remote.origin.url"]));
    let s = m.step(Ok(out("https://example.com/r.git\n", "", 0)));
    match s {
        GitStep::Done(Ok(info)) => {
            assert_eq!(info.branch, "main");
            assert_eq!(info.head, Some("abc1234".to_string()));
            assert_eq!(info.remote_url, Some("https://example.com/r.git".to_string()));
            assert!(!info.file_exists);
        }
        _ => panic!("expected the answer"),
    }
}

#[test]
fn validate_repo_before_first_commit() {
    let mut m = validate_repo_at(ValidateRepoStage::Branch, None);
    let s = m.step(Ok(out("", "fatal: ambiguous argument 'HEAD': unknown revision", 128)));
    assert!(matches!(s, GitStep::Run(_)));
    assert_eq!(m.branch, "");
    let _ = m.step(Ok(out("", "fatal", 128)));
    assert_eq!(m.head, None);
    match m.step(Ok(out("  \n", "", 1))) {
        GitStep::Done(Ok(info)) => {
            assert_eq!(info.branch, "");
            assert_eq!(info.head, None);
            assert_eq!(info.remote_url, None);
        }
        _ => panic!("expected the answer"),
    }
}

#[test]
fn validate_repo_errors() {
    let mut m = validate_repo_at(ValidateRepoStage::Branch, None);
    match m.step(Ok(out("", "fatal: not a git repository", 128))) {
        GitStep::Done(Err(e)) => assert_eq!(e, "ブランチ取得失敗: fatal: not a git repository"),
        _ => panic!("expected an error"),
    }
    let mut m = validate_repo_at(ValidateRepoStage::Head, None);
    match m.step(Err("spawn failed".to_string())) {
        GitStep::Done(Err(e)) => assert_eq!(e, "spawn failed"),
        _ => panic!("expected an error"),
    }
    let mut m = validate_repo_at(ValidateRepoStage::Remote, Some("tasks.json"));
    let s = m.step(Ok(out("url\n", "", 0)));
    assert_eq!(probe_path(&s), "tasks.json");
    match m.probed(true) {
        GitStep::Done(Ok(info)) => {
            assert!(info.file_exists);
            assert_eq!(info.remote_url, Some("url".to_string()));
        }
        _ => panic!("expected the answer"),
    }
    let mut m = validate_repo_at(ValidateRepoStage::Remote, Some("../x"));
    match m.step(Ok(out("", "", 0))) {
        GitStep::Done(Err(e)) => {
            assert_eq!(e, "ファイル名が不正です（リポジトリ直下のファイル名のみ可）")
        }
        _ => panic!("expected an error"),
    }
}

#[test]
fn validate_repo_start_refuses_blank_path() {
    assert_eq!(
        ValidateRepo::start("  ", true, true, None).err(),
        Some("リポジトリパスが空です".to_string())
    );
}

#[test]
fn status_reply_parses_porcelain_and_counts() {
    let porcelain = " M tasks.json\n?? notes.txt\nMM \"with space.txt\"\n";
    let st = git_status_reply("tasks.json", "main\n", porcelain, &out("2\t3\n", "", 0)).unwrap();
    assert_eq!(st.branch, "main");
    assert!(!st.clean);
    assert!(st.has_target_file_change);
    assert_eq!(st.other_dirty_files, strs(&["notes.txt", "with space.txt"]));
    assert!(st.has_upstream);
    assert_eq!(st.behind, 2);
    assert_eq!(st.ahead, 3);
}

#[test]
fn status_reply_clean_without_upstream() {
    let st = git_status_reply("tasks.json", "main", "", &out("", "no upstream", 128)).unwrap();
    assert!(st.clean);
    assert!(!st.has_target_file_change);
    assert!(st.other_dirty_files.is_empty());
    assert!(!st.has_upstream);
    assert_eq!((st.behind, st.ahead), (0, 0));
}

#[test]
fn status_reply_skips_short_lines_and_bad_counts() {
    let st = git_status_reply("t", "x", "ab\n?? t\n", &out("x 5", "", 0)).unwrap();
    assert!(st.has_target_file_change);
    assert!(st.other_dirty_files.is_empty());
    assert_eq!((st.behind, st.ahead), (0, 5));
}

#[test]
fn status_reply_none_where_slicing_would_fail() {
    // "é" takes bytes 2 and 3, so byte 3 is inside a character.
    assert!(git_status_reply("t", "x", "  é tasks\n", &out("", "", 1)).is_none());
}

#[test]
fn status_plan_refuses_blank_repo() {
    assert_eq!(
        git_status_plan("", true, true, "tasks.json").err(),
        Some("リポジトリパスが空です".to_string())
    );
}

#[test]
fn fetch_and_pull_replies() {
    assert_eq!(git_fetch_reply(&out("", "", 0)), Ok(()));
    assert_eq!(
        git_fetch_reply(&out("", "boom", 1)),
        Err("git fetch 失敗: boom".to_string())
    );
    assert_eq!(git_pull_ff_only_reply(&out("", "", 0)), Ok(()));
    assert_eq!(
        git_pull_ff_only_reply(&out("", "not ff", 1)),
        Err("git pull --ff-only 失敗: not ff".to_string())
    );
}

#[test]
fn plans_refuse_blank_repo_first() {
    assert_eq!(
        git_fetch_plan(" ", true, true, Some("-x".to_string())).err(),
        Some("リポジトリパスが空です".to_string())
    );
    assert_eq!(
        git_pull_ff_only_plan("", true, true, None, Some("-b".to_string())).err(),
        Some("リポジトリパスが空です".to_string())
    );
    assert_eq!(git_read_file_plan("", true, true, "x").err(), Some("リポジトリパスが空です".to_string()));
    assert_eq!(
        git_read_file_plan("/", true, false, "x").err(),
        Some("指定パスは git リポジトリではありません（.git が見つかりません）".to_string())
    );
    assert_eq!(
        git_read_file_at_ref_plan("", true, true, "x", "HEAD").err(),
        Some("リポジトリパスが空です".to_string())
    );
    assert_eq!(git_write_file_plan("", true, true, "x").err(), Some("リポジトリパスが空です".to_string()));
    assert_eq!(
        CommitRun::start_commit_only("", true, true, "x", "m".to_string()).err(),
        Some("リポジトリパスが空です".to_string())
    );
    assert_eq!(AbortRun::start("", true, true).err(), Some("リポジトリパスが空です".to_string()));
}

#[test]
fn read_at_ref_reply() {
    assert_eq!(
        git_read_file_at_ref_reply(&out("{}", "", 0)),
        Ok(Some("{}".to_string()))
    );
    assert_eq!(
        git_read_file_at_ref_reply(&out(
            "",
            "fatal: path 'tasks.json' does not exist in 'origin/main'",
            128
        )),
        Ok(None)
    );
    assert_eq!(
        git_read_file_at_ref_reply(&out("", "fatal: path 'x' exists on disk, but not in 'HEAD'", 128)),
        Ok(None)
    );
    assert_eq!(
        git_read_file_at_ref_reply(&out("", "fatal: invalid object name", 128)),
        Err("git show 失敗: fatal: invalid object name".to_string())
    );
}

fn commit_at(push_to: Option<&str>, branch: Option<&str>) -> CommitRun {
    CommitRun {
        repo: "/repo".to_string(),
        message: "sync".to_string(),
        push_to: push_to.map(|s| s.to_string()),
        branch: branch.map(|s| s.to_string()),
        nothing_to_commit: false,
        stage: CommitStage::Add,
    }
}

#[test]
fn commit_and_push_with_changes() {
    let mut m = commit_at(Some("origin"), None);
    let s = m.step(Ok(out("", "", 0)));
    assert_eq!(run_args(&s), strs(&["diff", "--cached", "--quiet"]));
    let s = m.step(Ok(out("", "", 1)));
    assert_eq!(run_args(&s), strs(&["commit", "-m", "sync"]));
    let s = m.step(Ok(out("", "", 0)));
    assert_eq!(run_args(&s), strs(&["rev-parse", "--abbrev-ref", "HEAD"]));
    let s = m.step(Ok(out("master\n", "", 0)));
    assert_eq!(run_args(&s), strs(&["push", "origin", "master"]));
    let s = m.step(Ok(out("", "", 0)));
    assert_eq!(run_args(&s), strs(&["rev-parse", "--short", "HEAD"]));
    match m.step(Ok(out("e4fbcc2\n", "", 0))) {
        GitStep::Done(Ok(info)) => {
            assert_eq!(info.sha, "e4fbcc2");
            assert!(info.pushed);
            assert!(!info.nothing_to_commit);
        }
        _ => panic!("expected the answer"),
    }
}

#[test]
fn push_runs_even_with_nothing_to_commit() {
    let mut m = commit_at(Some("origin"), Some("main"));
    let _ = m.step(Ok(out("", "", 0)));
    let s = m.step(Ok(out("", "", 0)));
    assert_eq!(run_args(&s), strs(&["push", "origin", "main"]));
    let _ = m.step(Ok(out("", "", 0)));
    match m.step(Ok(out("abc\n", "", 0))) {
        GitStep::Done(Ok(info)) => {
            assert!(info.nothing_to_commit);
            assert!(info.pushed);
        }
        _ => panic!("expected the answer"),
    }
}

#[test]
fn commit_errors() {
    let mut m = commit_at(Some("origin"), None);
    match m.step(Ok(out("", "pathspec", 128))) {
        GitStep::Done(Err(e)) => assert_eq!(e, "git add 失敗: pathspec"),
        _ => panic!(),
    }
    let mut m = commit_at(Some("origin"), Some("bad branch"));
    let _ = m.step(Ok(out("", "", 0)));
    match m.step(Ok(out("", "", 0))) {
        GitStep::Done(Err(e)) => {
            assert_eq!(e, "ブランチ名に使用できない文字が含まれています")
        }
        _ => panic!(),
    }
    let mut m = commit_at(Some("origin"), Some("main"));
    let _ = m.step(Ok(out("", "", 0)));
    let _ = m.step(Ok(out("", "", 1)));
    match m.step(Ok(out("", "hook failed", 1))) {
        GitStep::Done(Err(e)) => assert_eq!(e, "git commit 失敗: hook failed"),
        _ => panic!(),
    }
    let mut m = commit_at(Some("origin"), Some("main"));
    let _ = m.step(Ok(out("", "", 0)));
    let _ = m.step(Ok(out("", "", 0)));
    match m.step(Ok(out("", "rejected", 1))) {
        GitStep::Done(Err(e)) => assert_eq!(e, "git push 失敗: rejected"),
        _ => panic!(),
    }
    let mut m = commit_at(Some("origin"), None);
    m.stage = CommitStage::BranchQuery;
    match m.step(Ok(out("", "detached", 1))) {
        GitStep::Done(Err(e)) => assert_eq!(e, "ブランチ取得失敗: detached"),
        _ => panic!(),
    }
}

#[test]
fn commit_only_never_pushes() {
    let mut m = commit_at(None, None);
    let _ = m.step(Ok(out("", "", 0)));
    let s = m.step(Ok(out("", "", 0)));
    assert_eq!(run_args(&s), strs(&["rev-parse", "--short", "HEAD"]));
    match m.step(Ok(out("abc\n", "", 0))) {
        GitStep::Done(Ok(info)) => {
            assert_eq!(info.sha, "abc");
            assert!(!info.pushed);
            assert!(info.nothing_to_commit);
        }
        _ => panic!(),
    }
}

#[test]
fn abort_probes_in_order_and_ignores_exit_codes() {
    let mut m = AbortRun { repo: "/repo".to_string(), stage: AbortStage::MergeProbe };
    let s = m.probed(true);
    assert_eq!(run_args(&s), strs(&["merge", "--abort"]));
    let s = m.step(Ok(out("", "fatal: There is no merge to abort", 128)));
    assert_eq!(probe_path(&s), ".git/CHERRY_PICK_HEAD");
    let s = m.probed(false);
    assert_eq!(probe_path(&s), ".git/rebase-merge");
    let s = m.probed(false);
    assert_eq!(probe_path(&s), ".git/rebase-apply");
    let s = m.probed(true);
    assert_eq!(run_args(&s), strs(&["rebase", "--abort"]));
    let s = m.step(Ok(out("", "", 1)));
    assert!(matches!(s, GitStep::Done(Ok(()))));
    assert!(matches!(m.stage, AbortStage::Finished));
}

#[test]
fn abort_with_nothing_unfinished_runs_nothing() {
    let mut m = AbortRun { repo: "/repo".to_string(), stage: AbortStage::MergeProbe };
    assert_eq!(probe_path(&m.probed(false)), ".git/CHERRY_PICK_HEAD");
    assert_eq!(probe_path(&m.probed(false)), ".git/rebase-merge");
    assert_eq!(probe_path(&m.probed(false)), ".git/rebase-apply");
    assert!(matches!(m.probed(false), GitStep::Done(Ok(()))));
}

#[test]
fn abort_start_and_spawn_failure() {
    assert_eq!(
        AbortRun::start("/", true, false).err(),
        Some("指定パスは git リポジトリではありません（.git が見つかりません）".to_string())
    );
    let mut m = AbortRun { repo: "/repo".to_string(), stage: AbortStage::RebaseRun };
    match m.step(Err("spawn".to_string())) {
        GitStep::Done(Err(e)) => assert_eq!(e, "spawn"),
        _ => panic!(),
    }
}

const NOT_FOUND: &str = "リポジトリが見つかりません: /repo";
const NOT_REPO: &str = "指定パスは git リポジトリではありません（.git が見つかりません）";
const BAD_FILE: &str = "ファイル名が不正です（リポジトリ直下のファイル名のみ可）";

#[test]
fn status_plan_on_given_answers() {
    assert_eq!(git_status_plan("/repo", false, false, "../x").err(), Some(NOT_FOUND.to_string()));
    assert_eq!(git_status_plan("/repo", true, false, "../x").err(), Some(NOT_REPO.to_string()));
    assert_eq!(git_status_plan("/repo", true, true, "../x").err(), Some(BAD_FILE.to_string()));
    let p = git_status_plan("/repo", true, true, "tasks.json").unwrap();
    assert_eq!(p.repo, "/repo");
    assert_eq!(p.branch, strs(&["rev-parse", "--abbrev-ref", "HEAD"]));
    assert_eq!(p.porcelain, strs(&["status", "--porcelain=v1"]));
    assert_eq!(p.upstream, strs(&["rev-list", "--left-right", "--count", "@{u}...HEAD"]));
}

#[test]
fn fetch_plan_refuses_option_as_remote() {
    assert_eq!(
        git_fetch_plan("/repo", true, true, Some("--upload-pack=evil".to_string())).err(),
        Some("リモート名が不正です".to_string())
    );
    let p = git_fetch_plan("/repo", true, true, None).unwrap();
    assert_eq!(p.args, strs(&["fetch", "origin"]));
    assert_eq!(
        git_fetch_plan("/repo", false, false, Some("-x".to_string())).err(),
        Some(NOT_FOUND.to_string())
    );
}

#[test]
fn pull_plan_checks_in_order() {
    assert_eq!(
        git_pull_ff_only_plan("/repo", true, true, Some("a b".to_string()), Some("-x".to_string())).err(),
        Some("リモート名に使用できない文字が含まれています".to_string())
    );
    assert_eq!(
        git_pull_ff_only_plan("/repo", true, true, None, Some("-x".to_string())).err(),
        Some("ブランチ名が不正です".to_string())
    );
    let p = git_pull_ff_only_plan("/repo", true, true, None, Some("main".to_string())).unwrap();
    assert_eq!(p.args, strs(&["pull", "--ff-only", "origin", "main"]));
    let p = git_pull_ff_only_plan("/repo", true, true, Some("up".to_string()), None).unwrap();
    assert_eq!(p.args, strs(&["pull", "--ff-only", "up"]));
}

#[test]
fn read_and_write_plans_on_given_answers() {
    assert_eq!(git_read_file_plan("/repo", true, true, "x.json"), Ok("/repo".to_string()));
    assert_eq!(git_read_file_plan("/repo", true, true, "."), Err(BAD_FILE.to_string()));
    assert_eq!(
        git_read_file_at_ref_plan("/repo", true, true, "C:x", "-bad").err(),
        Some(BAD_FILE.to_string())
    );
    assert_eq!(
        git_read_file_at_ref_plan("/repo", true, true, "t.json", "-bad").err(),
        Some("ref が不正です".to_string())
    );
    let p = git_read_file_at_ref_plan("/repo", true, true, "t.json", "origin/main").unwrap();
    assert_eq!(p.args, strs(&["show", "origin/main:t.json"]));
    let w = git_write_file_plan("/repo", true, true, "t.json").unwrap();
    assert_eq!((w.repo.as_str(), w.target.as_str(), w.temp.as_str()), ("/repo", "t.json", ".t.json.tmp"));
    assert_eq!(git_write_file_plan("/repo", true, false, "t.json").err(), Some(NOT_REPO.to_string()));
}

#[test]
fn commit_starts_on_given_answers() {
    assert_eq!(
        CommitRun::start_commit_and_push("/repo", true, true, "-x", "m".to_string(), Some("-r".to_string()), None).err(),
        Some(BAD_FILE.to_string())
    );
    assert_eq!(
        CommitRun::start_commit_and_push("/repo", true, true, "t.json", "m".to_string(), Some("-r".to_string()), None).err(),
        Some("リモート名が不正です".to_string())
    );
    let (m, args) = CommitRun::start_commit_and_push("/repo", true, true, "t.json", "m".to_string(), None, None).unwrap_or_else(|e| panic!("{e}"));
    assert_eq!(args, strs(&["add", "--", "t.json"]));
    assert_eq!(m.push_to, Some("origin".to_string()));
    let (m, _) = CommitRun::start_commit_only("/repo", true, true, "t.json", "m".to_string()).unwrap_or_else(|e| panic!("{e}"));
    assert_eq!(m.push_to, None);
    assert_eq!(
        CommitRun::start_commit_only("/repo", true, false, "t.json", "m".to_string()).err(),
        Some(NOT_REPO.to_string())
    );
}
