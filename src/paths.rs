use vstd::prelude::*;

use crate::error::{ErrorKind, FixError};

verus! {

/// The environment variable whose non-empty value overrides the directory.
pub const GNUPGHOME_VAR: &'static str = "GNUPGHOME";

/// The default directory's name below the home directory.
pub const DEFAULT_DIR_NAME: &'static str = ".gnupg";

/// The configuration file kept inside the directory.
pub const CONFIG_FILE_NAME: &'static str = "gpg-agent.conf";

/// An optional string as the characters it holds.
pub open spec fn opt_chars(o: Option<String>) -> Option<Seq<char>> {
    match o {
        Some(s) => Some(s@),
        None => None,
    }
}

/// An override counts only when it is set and non-empty.
pub open spec fn usable_override(value: Option<Seq<char>>) -> bool {
    value is Some && value->0.len() > 0
}

/// `name` appended to `base` as a path component: a separator goes between
/// them unless `base` is empty or already ends in one.
pub open spec fn joined(base: Seq<char>, name: Seq<char>) -> Seq<char> {
    if base.len() == 0 || base.last() == '/' {
        base + name
    } else {
        base + seq!['/'] + name
    }
}

/// `<home>/.gnupg`.
pub open spec fn default_dir(home: Seq<char>) -> Seq<char> {
    joined(home, ".gnupg"@)
}

/// `<dir>/gpg-agent.conf`.
pub open spec fn config_path(dir: Seq<char>) -> Seq<char> {
    dir + seq!['/'] + "gpg-agent.conf"@
}

/// The directory chosen from the override and the home directory, if any.
pub open spec fn resolved_dir(value: Option<Seq<char>>, home: Option<Seq<char>>) -> Option<
    Seq<char>,
> {
    if usable_override(value) {
        value
    } else if home is Some {
        Some(default_dir(home->0))
    } else {
        None
    }
}

/// Appends the relative component `name` to `base`.
pub fn join_path(base: &str, name: &str) -> (r: String)
    ensures
        r@ == joined(base@, name@),
{
    let n = base.unicode_len();
    let mut r = String::from_str(base);
    if n > 0 && base.get_char(n - 1) != '/' {
        let sep = "/";
        proof {
            reveal_strlit("/");
        }
        r.append(sep);
    }
    r.append(name);
    proof {
        if base@.len() > 0 {
            assert(base@.last() == base@[base@.len() - 1]);
        }
    }
    r
}

/// The path of the configuration file inside `dir`.
pub fn config_file_path(dir: &str) -> (r: String)
    ensures
        r@ == config_path(dir@),
{
    let mut r = String::from_str(dir);
    let sep = "/";
    proof {
        reveal_strlit("/");
    }
    r.append(sep);
    r.append(CONFIG_FILE_NAME);
    r
}

/// Chooses the configuration directory: the override verbatim where it is
/// set and non-empty, else `<home>/.gnupg`, else an error.
pub fn resolve_gnupg_dir(value: Option<String>, home: Option<String>) -> (r: Result<String, FixError>)
    ensures
        resolved_dir(opt_chars(value), opt_chars(home)) is Some <==> r is Ok,
        r is Ok ==> Some(r->Ok_0@) == resolved_dir(opt_chars(value), opt_chars(home)),
        r is Err ==> r->Err_0.kind == ErrorKind::HomeDirUnknown,
{
    match value {
        Some(v) if v.unicode_len() > 0 => Ok(v),
        _ => match home {
            Some(h) => Ok(join_path(h.as_str(), DEFAULT_DIR_NAME)),
            None => Err(
                FixError {
                    kind: ErrorKind::HomeDirUnknown,
                    path: String::new(),
                    detail: String::new(),
                },
            ),
        },
    }
}

/// Relies on dirs::home_dir for the current user's home directory, taken
/// from `$HOME` or else from the password database. Either source yields a
/// non-empty path or none; a path that is not valid UTF-8 counts as none.
#[verifier::external_body]
fn home_dir() -> (r: Option<String>)
    ensures
        r is Some ==> r->0@.len() > 0,
{
    match dirs::home_dir() {
        Some(p) => p.into_os_string().into_string().ok(),
        None => None,
    }
}

/// Resolves the configuration directory from the value of `GNUPGHOME`
/// (`None` where it is unset). The home directory is looked up only when
/// that value is not usable.
pub fn gnuhome_dir(value: Option<String>) -> (r: Result<String, FixError>)
    ensures
        usable_override(opt_chars(value)) ==> r is Ok && r->Ok_0@ == value->0@,
        !usable_override(opt_chars(value)) && r is Ok ==> exists|home: Seq<char>|
            home.len() > 0 && r->Ok_0@ == #[trigger] default_dir(home),
        r is Err ==> r->Err_0.kind == ErrorKind::HomeDirUnknown,
{
    let usable = match &value {
        Some(v) => v.unicode_len() > 0,
        None => false,
    };
    if usable {
        resolve_gnupg_dir(value, None)
    } else {
        let home = home_dir();
        let r = resolve_gnupg_dir(value, home);
        assert(r is Ok ==> r->Ok_0@ == default_dir(home->0@));
        r
    }
}

} // verus!
