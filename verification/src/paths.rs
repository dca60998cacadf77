//! Resolution of the well-known on-disk locations of the database file.
//!
//! A resolved path is always `<home>/<suffix>`, where the suffix names one of
//! the two supported profiles, or the test-only database file.

use vstd::prelude::*;
use vstd::string::StrSliceExecFns;
use vstd::string::StringExecFns;

use crate::errors::InitError;

verus! {

/// Path fragment appended to the home directory for the primary profile.
pub open spec fn ebb_db_suffix() -> Seq<char> {
    "/.ebb/ebb-desktop.sqlite"@
}

/// Path fragment appended to the home directory for the secondary
/// (legacy) profile.
pub open spec fn codeclimbers_db_suffix() -> Seq<char> {
    "/.codeclimbers/codeclimbers-desktop.sqlite"@
}

/// Path fragment appended to the home directory for the test-only database.
pub open spec fn test_db_suffix() -> Seq<char> {
    "/.ebb/ebb-desktop-test.sqlite"@
}

/// The shape of every resolved database path: a home directory followed by
/// a profile-specific suffix.
pub open spec fn db_path_for(home: Seq<char>, suffix: Seq<char>) -> Seq<char> {
    home + suffix
}

/// Appends a profile suffix to a home directory.
fn join_home(home: &str, suffix: &str) -> (r: String)
    ensures
        r@ == db_path_for(home@, suffix@),
{
    let mut s = String::from_str(home);
    s.append(suffix);
    s
}

/// Relies on dirs::home_dir: yields the user's home directory, if the
/// environment provides one, converted to a string. The result depends
/// on the environment, so nothing is promised of it.
#[verifier::external_body]
fn home_dir_string() -> (r: Option<String>) {
    dirs::home_dir().and_then(|p| p.to_str().map(|s| s.to_string()))
}

/// Resolves the home directory and appends `suffix` to it.
fn resolve_under_home(suffix: &str) -> (r: Result<String, InitError>)
    ensures
        r matches Ok(p) ==> exists|home: Seq<char>| p@ == db_path_for(home, suffix@),
        r matches Err(e) ==> e is HomeDirectory,
{
    match home_dir_string() {
        Some(home) => {
            let p = join_home(home.as_str(), suffix);
            Ok(p)
        },
        None => Err(InitError::HomeDirectory),
    }
}

/// Resolves the default database path of the primary profile:
/// `<home>/.ebb/ebb-desktop.sqlite`. Fails only when the environment
/// cannot supply a home directory.
pub fn get_default_ebb_db_path() -> (r: Result<String, InitError>)
    ensures
        r matches Ok(p) ==> exists|home: Seq<char>| p@ == db_path_for(home, ebb_db_suffix()),
        r matches Err(e) ==> e is HomeDirectory,
{
    proof {
        assert("/.ebb/ebb-desktop.sqlite"@ == ebb_db_suffix());
    }
    resolve_under_home("/.ebb/ebb-desktop.sqlite")
}

/// Resolves the default database path of the secondary (legacy) profile:
/// `<home>/.codeclimbers/codeclimbers-desktop.sqlite`.
pub fn get_default_codeclimbers_db_path() -> (r: Result<String, InitError>)
    ensures
        r matches Ok(p) ==> exists|home: Seq<char>| p@ == db_path_for(
            home,
            codeclimbers_db_suffix(),
        ),
        r matches Err(e) ==> e is HomeDirectory,
{
    proof {
        assert("/.codeclimbers/codeclimbers-desktop.sqlite"@ == codeclimbers_db_suffix());
    }
    resolve_under_home("/.codeclimbers/codeclimbers-desktop.sqlite")
}

/// The general-purpose path accessor: it resolves the primary profile's
/// default path, `<home>/.ebb/ebb-desktop.sqlite`.
pub fn get_db_path() -> (r: Result<String, InitError>)
    ensures
        r matches Ok(p) ==> exists|home: Seq<char>| p@ == db_path_for(home, ebb_db_suffix()),
        r matches Err(e) ==> e is HomeDirectory,
{
    get_default_ebb_db_path()
}

/// Resolves the test-only database path, `<home>/.ebb/ebb-desktop-test.sqlite`,
/// kept apart from the primary profile's database.
pub fn get_test_db_path() -> (r: Result<String, InitError>)
    ensures
        r matches Ok(p) ==> exists|home: Seq<char>| p@ == db_path_for(home, test_db_suffix()),
        r matches Err(e) ==> e is HomeDirectory,
{
    proof {
        assert("/.ebb/ebb-desktop-test.sqlite"@ == test_db_suffix());
    }
    resolve_under_home("/.ebb/ebb-desktop-test.sqlite")
}

/// Whether `s` holds a directory separator.
pub open spec fn has_separator(s: Seq<char>) -> bool {
    exists|i: int| 0 <= i < s.len() && s[i] == '/'
}

/// The parent directory of `path`: everything before the last separator,
/// or nothing when the path has no separator at all (the file then lands
/// in the current directory, and no directory needs creating).
pub fn parent_dir(path: &str) -> (r: Option<String>)
    ensures
        match r {
            Some(p) => exists|i: int|
                {
                    &&& 0 <= i < path@.len()
                    &&& path@[i] == '/'
                    &&& p@ == path@.subrange(0, i)
                    &&& forall|j: int| i < j < path@.len() ==> path@[j] != '/'
                },
            None => !has_separator(path@),
        },
{
    let n = path.unicode_len();
    let mut i = n;
    while i > 0
        invariant
            i <= n,
            n == path@.len(),
            forall|j: int| i <= j < path@.len() ==> path@[j] != '/',
        decreases i,
    {
        let c = path.get_char(i - 1);
        if c == '/' {
            let p = path.substring_char(0, i - 1);
            return Some(String::from_str(p));
        }
        i = i - 1;
    }
    None
}

/// Whether `s` ends with `suffix`.
pub open spec fn seq_ends_with(s: Seq<char>, suffix: Seq<char>) -> bool {
    s.len() >= suffix.len() && s.subrange(s.len() - suffix.len(), s.len() as int) == suffix
}

/// Law: every resolved primary-profile path ends in
/// `.ebb/ebb-desktop.sqlite`, whatever the home directory was.
pub proof fn lemma_ebb_path_ends_with(home: Seq<char>)
    ensures
        seq_ends_with(db_path_for(home, ebb_db_suffix()), ".ebb/ebb-desktop.sqlite"@),
{
    reveal_strlit("/.ebb/ebb-desktop.sqlite");
    reveal_strlit(".ebb/ebb-desktop.sqlite");
    let s = db_path_for(home, ebb_db_suffix());
    let suffix = ".ebb/ebb-desktop.sqlite"@;
    assert(s.subrange(s.len() - suffix.len(), s.len() as int) =~= suffix);
}

/// Law: every resolved secondary-profile path ends in
/// `.codeclimbers/codeclimbers-desktop.sqlite`.
pub proof fn lemma_codeclimbers_path_ends_with(home: Seq<char>)
    ensures
        seq_ends_with(
            db_path_for(home, codeclimbers_db_suffix()),
            ".codeclimbers/codeclimbers-desktop.sqlite"@,
        ),
{
    reveal_strlit("/.codeclimbers/codeclimbers-desktop.sqlite");
    reveal_strlit(".codeclimbers/codeclimbers-desktop.sqlite");
    let s = db_path_for(home, codeclimbers_db_suffix());
    let suffix = ".codeclimbers/codeclimbers-desktop.sqlite"@;
    assert(s.subrange(s.len() - suffix.len(), s.len() as int) =~= suffix);
}

/// Law: the test-only path ends in `ebb-desktop-test.sqlite` and differs
/// from the primary profile's default path for the same home directory.
pub proof fn lemma_test_path_distinct(home: Seq<char>)
    ensures
        seq_ends_with(db_path_for(home, test_db_suffix()), "ebb-desktop-test.sqlite"@),
        db_path_for(home, test_db_suffix()) != db_path_for(home, ebb_db_suffix()),
{
    reveal_strlit("/.ebb/ebb-desktop-test.sqlite");
    reveal_strlit("ebb-desktop-test.sqlite");
    reveal_strlit("/.ebb/ebb-desktop.sqlite");
    let s = db_path_for(home, test_db_suffix());
    let suffix = "ebb-desktop-test.sqlite"@;
    assert(s.subrange(s.len() - suffix.len(), s.len() as int) =~= suffix);
    assert(db_path_for(home, test_db_suffix()).len() != db_path_for(home, ebb_db_suffix()).len());
}

/// Law: path resolution is a function of the home directory alone; two
/// resolutions of one profile from one home are the same string.
pub proof fn lemma_resolution_deterministic(
    home: Seq<char>,
    suffix: Seq<char>,
    p1: Seq<char>,
    p2: Seq<char>,
)
    requires
        p1 == db_path_for(home, suffix),
        p2 == db_path_for(home, suffix),
    ensures
        p1 == p2,
{
}

} // verus!
