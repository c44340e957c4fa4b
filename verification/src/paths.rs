//! The path resolver: expanding the home-directory shorthand in a
//! configured install path, joining path components, and deciding whether
//! a directory lies on the executable search path.
//!
//! Reading the home directory is the one call into the outside world made
//! from this module; everything that depends on the filesystem (such as
//! canonicalizing search-path entries) is handed in as plain values.

use vstd::prelude::*;
use vstd::string::*;
use crate::errors::InstallError;
use crate::strutil::str_eq;

verus! {

/// `raw` uses the home-directory shorthand: it starts with `~/`.
pub open spec fn spec_uses_home(raw: Seq<char>) -> bool {
    raw.len() >= 2 && raw[0] == '~' && raw[1] == '/'
}

/// Joining a directory and a file name: a single separator stands between
/// them; an empty directory contributes nothing.
pub open spec fn spec_join(dir: Seq<char>, file: Seq<char>) -> Seq<char> {
    if dir.len() == 0 {
        file
    } else if dir.last() == '/' {
        dir + file
    } else {
        dir + "/"@ + file
    }
}

/// What expanding `raw` against an optional home directory yields:
/// without the shorthand, `raw` itself; with it, the home directory
/// joined with the remainder, or nothing when no home is known.
pub open spec fn spec_expand(raw: Seq<char>, home: Option<Seq<char>>) -> Option<Seq<char>> {
    if !spec_uses_home(raw) {
        Some(raw)
    } else {
        match home {
            Some(h) => Some(spec_join(h, raw.skip(2))),
            None => None,
        }
    }
}

/// Join a directory and a file name with a single path separator.
pub fn join_path(dir: &str, file: &str) -> (r: String)
    ensures
        r@ == spec_join(dir@, file@),
{
    let dn = dir.unicode_len();
    if dn == 0 {
        file.to_owned()
    } else if dir.get_char(dn - 1) == '/' {
        let mut r = dir.to_owned();
        r.append(file);
        r
    } else {
        let mut r = dir.to_owned();
        r.append("/");
        r.append(file);
        r
    }
}

/// Expand the home-directory shorthand in `raw` against a known optional
/// home directory. Fails exactly when the shorthand is used and no home
/// directory is known.
pub fn expand_path(raw: &str, home: &Option<String>) -> (r: Result<String, InstallError>)
    ensures
        r matches Ok(p) ==> spec_expand(raw@, home.deep_view()) == Some(p@),
        r matches Err(e) ==> spec_expand(raw@, home.deep_view()) is None && e
            == InstallError::HomeDirectoryUnresolvable,
{
    let n = raw.unicode_len();
    if n >= 2 && raw.get_char(0) == '~' && raw.get_char(1) == '/' {
        match home {
            Some(h) => {
                let rest = raw.substring_char(2, n);
                proof {
                    assert(rest@ =~= raw@.skip(2));
                }
                Ok(join_path(h.as_str(), rest))
            },
            None => Err(InstallError::HomeDirectoryUnresolvable),
        }
    } else {
        Ok(raw.to_owned())
    }
}

/// Relies on dirs::home_dir: the platform's home directory, read from the
/// environment or the user database; nothing is promised of the outcome.
#[verifier::external_body]
fn home_dir_string() -> (r: Option<String>) {
    dirs::home_dir().map(|p| p.to_string_lossy().into_owned())
}

/// Expand the home-directory shorthand in `raw` against the running
/// user's home directory. Without the shorthand the path comes back
/// unchanged; with it, either some home directory is substituted or the
/// expansion fails with `HomeDirectoryUnresolvable`.
pub fn expand_install_path(raw: &str) -> (r: Result<String, InstallError>)
    ensures
        !spec_uses_home(raw@) ==> (r matches Ok(p) && p@ == raw@),
        r matches Ok(p) ==> exists|h: Option<Seq<char>>| spec_expand(raw@, h) == Some(p@),
        r matches Err(e) ==> spec_uses_home(raw@) && e == InstallError::HomeDirectoryUnresolvable,
{
    let home = home_dir_string();
    let r = expand_path(raw, &home);
    proof {
        if r is Ok {
            assert(spec_expand(raw@, home.deep_view()) == Some(r->Ok_0@));
        }
    }
    r
}

/// One search-path entry names the directory: either the entry equals it
/// literally, or both canonicalize to the same path.
pub open spec fn spec_entry_matches(
    dir: Seq<char>,
    entry: Seq<char>,
    entry_canon: Option<Seq<char>>,
    dir_canon: Option<Seq<char>>,
) -> bool {
    entry == dir || (entry_canon matches Some(c) && dir_canon matches Some(d) && c == d)
}

/// The directory lies on the search path: some entry matches it,
/// literally or after canonicalization.
pub open spec fn spec_on_search_path(
    dir: Seq<char>,
    entries: Seq<Seq<char>>,
    entry_canons: Seq<Option<Seq<char>>>,
    dir_canon: Option<Seq<char>>,
) -> bool {
    exists|i: int|
        0 <= i < entries.len() && spec_entry_matches(dir, entries[i], entry_canons[i], dir_canon)
}

/// Is `dir` on the search path given by `entries`? Each entry's
/// canonical (symlink-free, absolute) form, where one exists, stands in
/// `entry_canons` at the same position, and `dir`'s own in `dir_canon`;
/// a missing canonical form never matches, and never raises an error.
pub fn is_in_path(
    dir: &str,
    entries: &Vec<String>,
    entry_canons: &Vec<Option<String>>,
    dir_canon: &Option<String>,
) -> (r: bool)
    requires
        entry_canons@.len() == entries@.len(),
    ensures
        r == spec_on_search_path(
            dir@,
            entries.deep_view(),
            entry_canons.deep_view(),
            dir_canon.deep_view(),
        ),
{
    let n = entries.len();
    let mut i: usize = 0;
    while i < n
        invariant
            i <= n,
            n == entries@.len(),
            entry_canons@.len() == entries@.len(),
            forall|j: int|
                0 <= j < i ==> !spec_entry_matches(
                    dir@,
                    entries.deep_view()[j],
                    entry_canons.deep_view()[j],
                    dir_canon.deep_view(),
                ),
        decreases n - i,
    {
        if str_eq(entries[i].as_str(), dir) {
            proof {
                assert(spec_entry_matches(
                    dir@,
                    entries.deep_view()[i as int],
                    entry_canons.deep_view()[i as int],
                    dir_canon.deep_view(),
                ));
            }
            return true;
        }
        if let Some(c) = &entry_canons[i] {
            if let Some(d) = dir_canon {
                if str_eq(c.as_str(), d.as_str()) {
                    proof {
                        assert(entry_canons.deep_view()[i as int] == Some(c@));
                        assert(dir_canon.deep_view() == Some(d@));
                        assert(spec_entry_matches(
                            dir@,
                            entries.deep_view()[i as int],
                            entry_canons.deep_view()[i as int],
                            dir_canon.deep_view(),
                        ));
                    }
                    return true;
                }
            }
        }
        i += 1;
    }
    false
}

} // verus!
