//! The PATH-registration query: which shell profile to amend, and
//! whether the managed apps directory is already on the search path.
//!
//! The interactive confirmation and the profile-file write stay with the
//! caller; this module only decides.

use vstd::prelude::*;
use vstd::string::*;

use crate::error::GleamPkgError;
use crate::strutil::{after_last, before_first, contains_seq, contains_str, join2,
    prefix_before_first, suffix_after_last};

verus! {

/// The lower-case text of a character sequence; it depends on the
/// characters alone.
pub uninterp spec fn lower_of(s: Seq<char>) -> Seq<char>;

/// Relies on `str::to_lowercase`: the result depends on the characters
/// alone.
#[verifier::external_body]
fn lowercase(s: &str) -> (r: String)
    ensures
        r@ == lower_of(s@),
{
    s.to_lowercase()
}

/// The shell's name as derived from a `SHELL` value: the component
/// after the last `/`, cut before the first `.`, in lower case.
pub open spec fn shell_stem(shell: Seq<char>) -> Seq<char> {
    lower_of(before_first(after_last(shell, '/'), '.'))
}

/// Derives the shell's name from the `SHELL` environment value, for
/// example `bash` from `/bin/bash`.
pub fn shell_name(shell: &str) -> (r: String)
    ensures
        r@ == shell_stem(shell@),
{
    let base = suffix_after_last(shell, '/');
    let stem = prefix_before_first(base, '.');
    lowercase(stem)
}

/// The profile file to amend for a shell: `.bashrc` for bash, `.zshrc`
/// for zsh.  Any other shell is unsupported and reported as a
/// [`GleamPkgError::PathError`], to be handled manually.
pub fn profile_for_shell(shell: &str) -> (r: Result<String, GleamPkgError>)
    ensures
        shell_stem(shell@) == "bash"@ ==> (r matches Ok(p) && p@ == ".bashrc"@),
        shell_stem(shell@) == "zsh"@ ==> (r matches Ok(p) && p@ == ".zshrc"@),
        (shell_stem(shell@) != "bash"@ && shell_stem(shell@) != "zsh"@) ==> (r matches Err(
            GleamPkgError::PathError(m),
        ) && m@ == "Unsupported shell: "@ + shell_stem(shell@)),
{
    proof {
        reveal_strlit("bash");
        reveal_strlit("zsh");
        assert("bash"@.len() == 4);
        assert("zsh"@.len() == 3);
    }
    let name = shell_name(shell);
    if name == "bash".to_owned() {
        Ok(".bashrc".to_owned())
    } else if name == "zsh".to_owned() {
        Ok(".zshrc".to_owned())
    } else {
        Err(GleamPkgError::PathError(join2("Unsupported shell: ", name.as_str())))
    }
}

/// The fragment whose presence in `PATH` shows the managed apps
/// directory is registered.
pub fn apps_path_fragment() -> (r: &'static str)
    ensures
        r@ == ".gleam_pkgs/apps"@,
{
    ".gleam_pkgs/apps"
}

/// Whether the `PATH` value already mentions the managed apps
/// directory.
pub fn path_has_apps_dir(path: &str) -> (r: bool)
    ensures
        r == contains_seq(path@, ".gleam_pkgs/apps"@),
{
    contains_str(path, apps_path_fragment())
}

/// The line appended to a shell profile to register the managed apps
/// directory on the search path.
pub fn profile_export_line() -> (r: &'static str)
    ensures
        r@ == "\nexport PATH=$PATH:~/.gleam_pkgs/apps\n"@,
{
    "\nexport PATH=$PATH:~/.gleam_pkgs/apps\n"
}

} // verus!
