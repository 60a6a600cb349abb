//! Checks on the names and paths that the front end hands to the git
//! commands: a repository path, a file directly inside it, a git ref, a
//! remote and a branch. Each one refuses what could be read as an option
//! (a leading `-`) or could leave the repository. The file system is not
//! asked here: `repo_probes` names what to ask, and the repository check
//! takes the answers.

use vstd::prelude::*;

use crate::text::{
    chars_of, contains_char, contains_spec, occurs_at, contains_str, starts_with_char, trim, trim_spec,
    Strip,
};

verus! {

/// std `Path::is_absolute` of `name` read as a path. Its documentation: on
/// Unix a path is absolute when it starts with the root `/`; on Windows when
/// it has a prefix and a root. Either way an absolute path holds a separator,
/// `/` or `\`; that is all that is stated here.
#[verifier::external_body]
fn path_is_absolute(name: &str) -> (r: bool)
    ensures
        r ==> (name@.contains('/') || name@.contains('\\')),
{
    std::path::Path::new(name).is_absolute()
}

// ---------------------------------------------------------------------------
// Messages

pub open spec fn msg_repo_empty() -> Seq<char> {
    "リポジトリパスが空です"@
}

pub open spec fn msg_repo_missing_prefix() -> Seq<char> {
    "リポジトリが見つかりません: "@
}

pub open spec fn msg_not_a_repo() -> Seq<char> {
    "指定パスは git リポジトリではありません（.git が見つかりません）"@
}

pub open spec fn msg_bad_file_name() -> Seq<char> {
    "ファイル名が不正です（リポジトリ直下のファイル名のみ可）"@
}

pub open spec fn msg_bad_ref() -> Seq<char> {
    "ref が不正です"@
}

pub open spec fn msg_ref_chars() -> Seq<char> {
    "ref に使用できない文字が含まれています"@
}

pub open spec fn msg_bad_remote() -> Seq<char> {
    "リモート名が不正です"@
}

pub open spec fn msg_remote_chars() -> Seq<char> {
    "リモート名に使用できない文字が含まれています"@
}

pub open spec fn msg_bad_branch() -> Seq<char> {
    "ブランチ名が不正です"@
}

pub open spec fn msg_branch_chars() -> Seq<char> {
    "ブランチ名に使用できない文字が含まれています"@
}

// ---------------------------------------------------------------------------
// Repository path

/// What the repository-path check answers, given whether the path names a
/// directory and whether that directory holds a `.git` entry.
pub open spec fn repo_path_outcome(repo: Seq<char>, is_dir: bool, has_git: bool) -> Result<
    Seq<char>,
    Seq<char>,
> {
    if trim_spec(repo, Strip::WhiteSpace).len() == 0 {
        Err(msg_repo_empty())
    } else if !is_dir {
        Err(msg_repo_missing_prefix() + repo)
    } else if !has_git {
        Err(msg_not_a_repo())
    } else {
        Ok(repo)
    }
}

/// The view of a `Result<String, String>`.
pub open spec fn result_view(r: Result<String, String>) -> Result<Seq<char>, Seq<char>> {
    match r {
        Ok(s) => Ok(s@),
        Err(e) => Err(e@),
    }
}

/// What the file system is to be asked for the repository-path check: none
/// for a blank path (it is refused as it is); else whether the directory
/// `dir` (the path itself) exists, and, if it does, whether the entry `git`
/// (`.git`, a directory, or a file for a worktree) exists in it.
pub fn repo_probes(repo: &str) -> (r: Option<(String, String)>)
    ensures
        r is None <==> trim_spec(repo@, Strip::WhiteSpace).len() == 0,
        r matches Some((dir, git)) ==> dir@ == repo@ && git@ == ".git"@,
{
    let t = trim(repo);
    if t.as_str().is_empty() {
        return None;
    }
    Some((String::from_str(repo), String::from_str(".git")))
}

/// The repository-path check on the answers of the file system to
/// `repo_probes` (`false` for what was not asked): blank is refused first,
/// then a path that is no directory, then a directory without `.git`. On
/// success gives back the path.
pub fn validate_repo_path(repo: &str, is_dir: bool, has_git: bool) -> (r: Result<String, String>)
    ensures
        result_view(r) == repo_path_outcome(repo@, is_dir, has_git),
{
    let t = trim(repo);
    if t.as_str().is_empty() {
        return Err(String::from_str("リポジトリパスが空です"));
    }
    if !is_dir {
        let mut e = String::from_str("リポジトリが見つかりません: ");
        e.append(repo);
        return Err(e);
    }
    if !has_git {
        return Err(String::from_str("指定パスは git リポジトリではありません（.git が見つかりません）"));
    }
    Ok(String::from_str(repo))
}

// ---------------------------------------------------------------------------
// File name

/// `name` starts with a Windows drive, an ASCII letter and `:` (such as
/// `C:x`), which leads away from the repository directory.
pub open spec fn starts_with_drive(name: Seq<char>) -> bool {
    name.len() >= 2 && is_ascii_alpha(name[0]) && name[1] == ':'
}

/// `c` is an ASCII letter.
pub open spec fn is_ascii_alpha(c: char) -> bool {
    let v = c as u32;
    65 <= v <= 90 || 97 <= v <= 122
}

/// Whether `name` starts with a Windows drive.
fn starts_with_drive_exec(name: &str) -> (r: bool)
    ensures
        r == starts_with_drive(name@),
{
    let v = chars_of(name);
    if v.len() < 2 {
        return false;
    }
    let c = v[0] as u32;
    ((65 <= c && c <= 90) || (97 <= c && c <= 122)) && v[1] == ':'
}

/// A file name directly inside the repository: non-empty, no `/` or `\`,
/// no `..`, not `.` (the repository itself), not starting with a Windows
/// drive such as `C:x`, not starting with `-`. Other `:` are allowed.
pub open spec fn file_name_ok(name: Seq<char>) -> bool {
    &&& name.len() > 0
    &&& !name.contains('/')
    &&& !name.contains('\\')
    &&& !contains_spec(name, seq!['.', '.'])
    &&& name != seq!['.']
    &&& !starts_with_drive(name)
    &&& name[0] != '-'
}

/// Whether `name` is exactly `.`.
fn is_single_dot(name: &str) -> (r: bool)
    ensures
        r == (name@ == seq!['.']),
{
    let v = chars_of(name);
    let r = v.len() == 1 && v[0] == '.';
    proof {
        if v@.len() == 1 && v@[0] == '.' {
            assert(v@ =~= seq!['.']);
        }
    }
    r
}

/// Checks that `name` names a file directly inside the repository.
pub fn validate_file_name(name: &str) -> (r: Result<(), String>)
    ensures
        r is Ok <==> file_name_ok(name@),
        r matches Err(e) ==> e@ == msg_bad_file_name(),
{
    if name.is_empty() || contains_char(name, '/') || contains_char(name, '\\') || contains_str(
        name,
        "..",
    ) || is_single_dot(name) || starts_with_drive_exec(name) || starts_with_char(name, '-')
        || path_is_absolute(name) {
        proof {
            reveal_strlit("..");
            assert(".."@ =~= seq!['.', '.']);
        }
        return Err(String::from_str("ファイル名が不正です（リポジトリ直下のファイル名のみ可）"));
    }
    proof {
        reveal_strlit("..");
        assert(".."@ =~= seq!['.', '.']);
    }
    Ok(())
}

// ---------------------------------------------------------------------------
// Ref, remote and branch names

/// `c` is an ASCII letter or digit (std `char::is_ascii_alphanumeric`).
pub open spec fn is_ascii_alnum(c: char) -> bool {
    let v = c as u32;
    ||| 48 <= v <= 57
    ||| 65 <= v <= 90
    ||| 97 <= v <= 122
}

/// The kinds of git names that are checked.
pub enum NameKind {
    Ref,
    Remote,
    Branch,
}

/// The characters allowed in a name of kind `k`: ASCII letters and digits,
/// and `_ - .` for a remote, also `/` for a branch, also `@ { }` for a ref.
pub open spec fn name_char_ok(k: NameKind, c: char) -> bool {
    ||| is_ascii_alnum(c)
    ||| c == '_'
    ||| c == '-'
    ||| c == '.'
    ||| (c == '/' && (k is Ref || k is Branch))
    ||| ((c == '@' || c == '{' || c == '}') && k is Ref)
}

/// A name of kind `k`: non-empty, not starting with `-`, allowed characters
/// only.
pub open spec fn name_ok(k: NameKind, s: Seq<char>) -> bool {
    &&& s.len() > 0
    &&& s[0] != '-'
    &&& forall|i: int| 0 <= i < s.len() ==> name_char_ok(k, #[trigger] s[i])
}

fn name_char_ok_exec(k: &NameKind, c: char) -> (r: bool)
    ensures
        r == name_char_ok(*k, c),
{
    let v = c as u32;
    if (48 <= v && v <= 57) || (65 <= v && v <= 90) || (97 <= v && v <= 122) {
        return true;
    }
    if c == '_' || c == '-' || c == '.' {
        return true;
    }
    match k {
        NameKind::Ref => c == '/' || c == '@' || c == '{' || c == '}',
        NameKind::Branch => c == '/',
        NameKind::Remote => false,
    }
}

/// Whether every character of `s` is allowed in a name of kind `k`.
fn all_name_chars(k: &NameKind, s: &str) -> (r: bool)
    ensures
        r == forall|i: int| 0 <= i < s@.len() ==> name_char_ok(*k, #[trigger] s@[i]),
{
    let v = chars_of(s);
    let n = v.len();
    let mut i: usize = 0;
    while i < n
        invariant
            n == v@.len(),
            v@ == s@,
            0 <= i <= n,
            forall|j: int| 0 <= j < i ==> name_char_ok(*k, #[trigger] s@[j]),
        decreases n - i,
    {
        if !name_char_ok_exec(k, v[i]) {
            return false;
        }
        i += 1;
    }
    true
}

/// The check shared by the three name kinds: `bad` for an empty name or one
/// starting with `-`, `bad_chars` for a disallowed character.
fn validate_name(k: NameKind, s: &str, bad: &str, bad_chars: &str) -> (r: Result<(), String>)
    ensures
        r is Ok <==> name_ok(k, s@),
        r matches Err(e) ==> e@ == if s@.len() == 0 || s@[0] == '-' {
            bad@
        } else {
            bad_chars@
        },
{
    if s.is_empty() || starts_with_char(s, '-') {
        return Err(String::from_str(bad));
    }
    if !all_name_chars(&k, s) {
        return Err(String::from_str(bad_chars));
    }
    Ok(())
}

/// The message that a name check gives for `s`: `bad` for an empty name or
/// one starting with `-`, else `bad_chars`.
pub open spec fn name_error(s: Seq<char>, bad: Seq<char>, bad_chars: Seq<char>) -> Seq<char> {
    if s.len() == 0 || s[0] == '-' {
        bad
    } else {
        bad_chars
    }
}

/// Checks a git ref (revision) name.
pub fn validate_ref(git_ref: &str) -> (r: Result<(), String>)
    ensures
        r is Ok <==> name_ok(NameKind::Ref, git_ref@),
        r matches Err(e) ==> e@ == name_error(git_ref@, msg_bad_ref(), msg_ref_chars()),
{
    validate_name(NameKind::Ref, git_ref, "ref が不正です", "ref に使用できない文字が含まれています")
}

/// Checks a git remote name.
pub fn validate_remote(remote: &str) -> (r: Result<(), String>)
    ensures
        r is Ok <==> name_ok(NameKind::Remote, remote@),
        r matches Err(e) ==> e@ == name_error(remote@, msg_bad_remote(), msg_remote_chars()),
{
    validate_name(
        NameKind::Remote,
        remote,
        "リモート名が不正です",
        "リモート名に使用できない文字が含まれています",
    )
}

/// Checks a git branch name.
pub fn validate_branch(branch: &str) -> (r: Result<(), String>)
    ensures
        r is Ok <==> name_ok(NameKind::Branch, branch@),
        r matches Err(e) ==> e@ == name_error(branch@, msg_bad_branch(), msg_branch_chars()),
{
    validate_name(
        NameKind::Branch,
        branch,
        "ブランチ名が不正です",
        "ブランチ名に使用できない文字が含まれています",
    )
}

/// Every name that the remote check accepts, the branch check accepts too.
pub proof fn law_remote_names_are_branch_names(s: Seq<char>)
    requires
        name_ok(NameKind::Remote, s),
    ensures
        name_ok(NameKind::Branch, s),
{
    assert forall|i: int| 0 <= i < s.len() implies name_char_ok(NameKind::Branch, #[trigger] s[i]) by {
        assert(name_char_ok(NameKind::Remote, s[i]));
    }
}

/// Every name that the branch check accepts, the ref check accepts too.
pub proof fn law_branch_names_are_refs(s: Seq<char>)
    requires
        name_ok(NameKind::Branch, s),
    ensures
        name_ok(NameKind::Ref, s),
{
    assert forall|i: int| 0 <= i < s.len() implies name_char_ok(NameKind::Ref, #[trigger] s[i]) by {
        assert(name_char_ok(NameKind::Branch, s[i]));
    }
}

/// The file-name rule in full: a name is accepted exactly when it is
/// non-empty, holds no `/` and no `\`, has no two dots in a row, is not the
/// single `.`, does not start with an ASCII letter followed by `:` (a
/// Windows drive), and does not start with `-`. Every other character is
/// allowed anywhere (spaces, a later `:`, non-ASCII letters).
pub proof fn law_file_name_rule(name: Seq<char>)
    ensures
        file_name_ok(name) <==> {
            &&& name.len() > 0
            &&& forall|i: int| 0 <= i < name.len() ==> name[i] != '/' && name[i] != '\\'
            &&& forall|i: int|
                0 <= i < name.len() - 1 ==> !(name[i] == '.' && #[trigger] name[i + 1] == '.')
            &&& !(name.len() == 1 && name[0] == '.')
            &&& !(name.len() >= 2 && (65 <= name[0] as u32 <= 90 || 97 <= name[0] as u32 <= 122)
                && name[1] == ':')
            &&& name[0] != '-'
        },
{
    let dd = seq!['.', '.'];
    if contains_spec(name, dd) {
        let i = choose|i: int| occurs_at(name, dd, i);
        assert(name.subrange(i, i + 2)[0] == name[i]);
        assert(name.subrange(i, i + 2)[1] == name[i + 1]);
    }
    assert forall|i: int| 0 <= i < name.len() - 1 && name[i] == '.' && #[trigger] name[i + 1] == '.'
        implies contains_spec(name, dd) by {
        assert(name.subrange(i, i + 2) =~= dd);
        assert(occurs_at(name, dd, i));
    }
    if name.len() == 1 && name[0] == '.' {
        assert(name =~= seq!['.']);
    }
    if name.contains('/') || name.contains('\\') {
        let i = choose|i: int| 0 <= i < name.len() && (name[i] == '/' || name[i] == '\\');
    }
    assert forall|i: int| 0 <= i < name.len() && (name[i] == '/' || name[i] == '\\') implies (
    name.contains('/') || name.contains('\\')) by {
        if name[i] == '/' {
            assert(name.contains('/'));
        } else {
            assert(name.contains('\\'));
        }
    }
}

/// The character rules of the name checks in full: a name is accepted
/// exactly when it is non-empty, does not start with `-`, and each of its
/// characters is an ASCII letter or digit, `_`, `-` or `.`, or, for a
/// branch or a ref, `/`, or, for a ref, `@`, `{` or `}`.
pub proof fn law_name_rules(k: NameKind, s: Seq<char>)
    ensures
        name_ok(k, s) <==> {
            &&& s.len() > 0
            &&& s[0] != '-'
            &&& forall|i: int|
                0 <= i < s.len() ==> {
                    let c = #[trigger] s[i];
                    let v = c as u32;
                    ||| 48 <= v <= 57
                    ||| 65 <= v <= 90
                    ||| 97 <= v <= 122
                    ||| c == '_' || c == '-' || c == '.'
                    ||| c == '/' && !(k is Remote)
                    ||| (c == '@' || c == '{' || c == '}') && k is Ref
                }
        },
{
}

/// No name that a check accepts can be read by git as an option, and no
/// accepted file name leads out of the repository directory: it has no
/// separator, no `..`, no leading drive, and is not `.` itself.
pub proof fn law_accepted_names_are_not_options(k: NameKind, s: Seq<char>)
    requires
        name_ok(k, s) || file_name_ok(s),
    ensures
        s.len() > 0 && s[0] != '-',
        file_name_ok(s) ==> !s.contains('/') && !s.contains('\\') && !contains_spec(s, seq!['.', '.'])
            && s != seq!['.'] && !starts_with_drive(s),
{
}

} // verus!
