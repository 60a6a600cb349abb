use tlist::validate::{
    repo_probes, validate_branch, validate_file_name, validate_ref, validate_remote,
    validate_repo_path,
};

const BAD_FILE: &str = "ファイル名が不正です（リポジトリ直下のファイル名のみ可）";

#[test]
fn file_name_plain_names_pass() {
    assert_eq!(validate_file_name("tasks.json"), Ok(()));
    assert_eq!(validate_file_name(".hidden"), Ok(()));
    assert_eq!(validate_file_name("a.b.c"), Ok(()));
    assert_eq!(validate_file_name("日本語.txt"), Ok(()));
    assert_eq!(validate_file_name("notes:1.md"), Ok(()));
    assert_eq!(validate_file_name("1:x"), Ok(()));
}

#[test]
fn file_name_refusals() {
    for bad in ["", "dir/file", "dir\\file", "..", "a..b", "-rf", "/etc/passwd", "C:\\x", "../x", ".", "C:x", "a:b"] {
        assert_eq!(validate_file_name(bad), Err(BAD_FILE.to_string()), "{bad}");
    }
}

#[test]
fn ref_names() {
    assert_eq!(validate_ref("main"), Ok(()));
    assert_eq!(validate_ref("origin/main"), Ok(()));
    assert_eq!(validate_ref("HEAD@{1}"), Ok(()));
    assert_eq!(validate_ref("v1.2_rc-3"), Ok(()));
    assert_eq!(validate_ref(""), Err("ref が不正です".to_string()));
    assert_eq!(validate_ref("-x"), Err("ref が不正です".to_string()));
    assert_eq!(validate_ref("a b"), Err("ref に使用できない文字が含まれています".to_string()));
    assert_eq!(validate_ref("a:b"), Err("ref に使用できない文字が含まれています".to_string()));
    assert_eq!(validate_ref("ä"), Err("ref に使用できない文字が含まれています".to_string()));
}

#[test]
fn remote_names() {
    assert_eq!(validate_remote("origin"), Ok(()));
    assert_eq!(validate_remote("my-remote.2_x"), Ok(()));
    assert_eq!(validate_remote(""), Err("リモート名が不正です".to_string()));
    assert_eq!(validate_remote("--upload-pack=x"), Err("リモート名が不正です".to_string()));
    assert_eq!(
        validate_remote("a/b"),
        Err("リモート名に使用できない文字が含まれています".to_string())
    );
    assert_eq!(
        validate_remote("x@{u}"),
        Err("リモート名に使用できない文字が含まれています".to_string())
    );
}

#[test]
fn branch_names() {
    assert_eq!(validate_branch("feature/x-1.2"), Ok(()));
    assert_eq!(validate_branch("master"), Ok(()));
    assert_eq!(validate_branch(""), Err("ブランチ名が不正です".to_string()));
    assert_eq!(validate_branch("-f"), Err("ブランチ名が不正です".to_string()));
    assert_eq!(
        validate_branch("a@b"),
        Err("ブランチ名に使用できない文字が含まれています".to_string())
    );
}

#[test]
fn accepted_remotes_are_branches_and_branches_are_refs() {
    for name in ["origin", "feature/a", "x.y_z-1", "a/b/c"] {
        if validate_remote(name).is_ok() {
            assert!(validate_branch(name).is_ok());
        }
        if validate_branch(name).is_ok() {
            assert!(validate_ref(name).is_ok());
        }
    }
    assert!(validate_remote("a/b").is_err() && validate_branch("a/b").is_ok());
    assert!(validate_branch("a@{1}").is_err() && validate_ref("a@{1}").is_ok());
}

#[test]
fn repo_path_check_on_given_answers() {
    assert_eq!(validate_repo_path("  \t", true, true), Err("リポジトリパスが空です".to_string()));
    assert_eq!(
        validate_repo_path("C:\\repo", false, false),
        Err("リポジトリが見つかりません: C:\\repo".to_string())
    );
    assert_eq!(
        validate_repo_path("/repo", true, false),
        Err("指定パスは git リポジトリではありません（.git が見つかりません）".to_string())
    );
    assert_eq!(validate_repo_path("/repo", true, true), Ok("/repo".to_string()));
}

#[test]
fn repo_probes_name_the_path_and_git() {
    assert_eq!(repo_probes(""), None);
    assert_eq!(repo_probes("\u{3000} \t"), None);
    assert_eq!(
        repo_probes("C:\\repo"),
        Some(("C:\\repo".to_string(), ".git".to_string()))
    );
    assert_eq!(repo_probes(" /r "), Some((" /r ".to_string(), ".git".to_string())));
}
