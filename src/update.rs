//! Release information and the check on a version string taken from a
//! release before it is shown or compared.

use vstd::prelude::*;
use crate::text::{contains_str, has_substring, str_eq};

verus! {

/// The longest version string kept.
pub const MAX_VERSION_LEN: usize = 50;

/// A published release newer than this build.
#[derive(Debug, Clone)]
pub struct UpdateInfo {
    pub version: String,
    pub release_url: String,
    pub download_url: Option<String>,
    pub release_notes: String,
    pub checksum: Option<String>,
}

/// Why a version string was refused.
#[derive(Debug, Clone, Copy, PartialEq, Eq, Structural)]
pub enum VersionError {
    /// Nothing was left after removing disallowed characters.
    EmptyVersion,
    /// What was left does not start with a digit.
    MustStartWithDigit,
}

pub open spec fn is_ascii_digit(c: char) -> bool {
    '0' <= c && c <= '9'
}

/// Characters kept in a version: ASCII letters and digits, `.`, `-`, `+`.
pub open spec fn version_char(c: char) -> bool {
    is_ascii_digit(c) || ('a' <= c && c <= 'z') || ('A' <= c && c <= 'Z') || c == '.' || c == '-'
        || c == '+'
}

/// The allowed characters of a text, in order.
pub open spec fn allowed_chars(s: Seq<char>) -> Seq<char>
    decreases s.len(),
{
    if s.len() == 0 {
        Seq::empty()
    } else if version_char(s.last()) {
        allowed_chars(s.drop_last()).push(s.last())
    } else {
        allowed_chars(s.drop_last())
    }
}

/// At most the first `MAX_VERSION_LEN` characters.
pub open spec fn capped(s: Seq<char>) -> Seq<char> {
    if s.len() <= MAX_VERSION_LEN {
        s
    } else {
        s.subrange(0, MAX_VERSION_LEN as int)
    }
}

/// What remains of a version string once sanitised.
pub open spec fn sanitized(s: Seq<char>) -> Seq<char> {
    capped(allowed_chars(s))
}

/// Keeps the allowed characters of a version string, at most
/// `MAX_VERSION_LEN` of them, and accepts the result only if it is non-empty
/// and starts with a digit.
pub fn sanitize_version(version: &str) -> (r: Result<String, VersionError>)
    ensures
        sanitized(version@).len() == 0 ==> r == Err::<String, VersionError>(VersionError::EmptyVersion),
        sanitized(version@).len() > 0 && !is_ascii_digit(sanitized(version@)[0]) ==> r == Err::<
            String,
            VersionError,
        >(VersionError::MustStartWithDigit),
        sanitized(version@).len() > 0 && is_ascii_digit(sanitized(version@)[0]) ==> (r matches Ok(
            v,
        ) && v@ == sanitized(version@)),
{
    let n = version.unicode_len();
    let mut r = String::new();
    let mut kept: usize = 0;
    let mut i: usize = 0;
    while i < n
        invariant
            n == version@.len(),
            i <= n,
            r@ == capped(allowed_chars(version@.subrange(0, i as int))),
            kept == r@.len(),
        decreases n - i,
    {
        let c = version.get_char(i);
        proof {
            assert(version@.subrange(0, i + 1).drop_last() =~= version@.subrange(0, i as int));
        }
        let allowed = ('0' <= c && c <= '9') || ('a' <= c && c <= 'z') || ('A' <= c && c <= 'Z')
            || c == '.' || c == '-' || c == '+';
        let ghost before = allowed_chars(version@.subrange(0, i as int));
        if allowed && kept < MAX_VERSION_LEN {
            let one = version.substring_char(i, i + 1);
            proof {
                assert(one@ =~= seq![c]);
            }
            r.append(one);
            kept += 1;
            proof {
                assert(r@ =~= capped(before.push(c)));
            }
        } else if allowed {
            proof {
                assert(before.push(c).subrange(0, MAX_VERSION_LEN as int) =~= before.subrange(
                    0,
                    MAX_VERSION_LEN as int,
                ));
            }
        }
        i += 1;
    }
    proof {
        assert(version@.subrange(0, n as int) =~= version@);
    }
    if kept == 0 {
        return Err(VersionError::EmptyVersion);
    }
    let first = r.as_str().get_char(0);
    if !('0' <= first && first <= '9') {
        return Err(VersionError::MustStartWithDigit);
    }
    Ok(r)
}

/// A file attached to a release.
#[derive(Debug, Clone)]
pub struct ReleaseAsset {
    pub name: String,
    pub browser_download_url: String,
}

/// `s` ends with `suffix`.
pub open spec fn ends_with(s: Seq<char>, suffix: Seq<char>) -> bool {
    suffix.len() <= s.len() && s.subrange(s.len() - suffix.len(), s.len() as int) == suffix
}

/// The portable 64-bit executable.
pub open spec fn is_portable_exe(name: Seq<char>) -> bool {
    has_substring(name, "x64"@) && has_substring(name, "portable"@) && ends_with(name, ".exe"@)
}

/// A checksum listing.
pub open spec fn is_checksum_file(name: Seq<char>) -> bool {
    name == "SHA256SUMS.txt"@ || has_substring(name, "checksum"@)
}

/// Whether an asset is the one looked for: the checksum listing, or else
/// the executable.
pub open spec fn wanted(name: Seq<char>, checksums: bool) -> bool {
    if checksums {
        is_checksum_file(name)
    } else {
        is_portable_exe(name)
    }
}

/// The first asset looked for.
pub open spec fn first_asset(assets: Seq<ReleaseAsset>, checksums: bool) -> Option<int>
    decreases assets.len(),
{
    if assets.len() == 0 {
        None
    } else {
        match first_asset(assets.drop_last(), checksums) {
            Some(i) => Some(i),
            None => if wanted(assets.last().name@, checksums) {
                Some(assets.len() - 1)
            } else {
                None
            },
        }
    }
}

proof fn lemma_first_asset_extend(assets: Seq<ReleaseAsset>, checksums: bool, n: int)
    requires
        0 <= n <= assets.len(),
        first_asset(assets.subrange(0, n), checksums) is Some,
    ensures
        first_asset(assets, checksums) == first_asset(assets.subrange(0, n), checksums),
    decreases assets.len() - n,
{
    if n < assets.len() {
        assert(assets.subrange(0, n + 1).drop_last() =~= assets.subrange(0, n));
        lemma_first_asset_extend(assets, checksums, n + 1);
    } else {
        assert(assets.subrange(0, n) =~= assets);
    }
}

/// Whether `s` ends with `suffix`.
fn ends_with_str(s: &str, suffix: &str) -> (r: bool)
    ensures
        r == ends_with(s@, suffix@),
{
    let n = s.unicode_len();
    let k = suffix.unicode_len();
    if k > n {
        return false;
    }
    let tail = s.substring_char(n - k, n);
    str_eq(tail, suffix)
}

/// Which asset to download: the first portable 64-bit executable.
pub fn find_download_asset(assets: &Vec<ReleaseAsset>) -> (r: Option<usize>)
    ensures
        r is None <==> first_asset(assets@, false) is None,
        r matches Some(i) ==> first_asset(assets@, false) == Some(i as int),
{
    let mut i: usize = 0;
    while i < assets.len()
        invariant
            i <= assets@.len(),
            first_asset(assets@.subrange(0, i as int), false) is None,
        decreases assets@.len() - i,
    {
        proof {
            assert(assets@.subrange(0, i + 1).drop_last() =~= assets@.subrange(0, i as int));
        }
        let name = assets[i].name.as_str();
        if contains_str(name, "x64") && contains_str(name, "portable") && ends_with_str(name, ".exe") {
            proof {
                lemma_first_asset_extend(assets@, false, i + 1);
            }
            return Some(i);
        }
        i += 1;
    }
    proof {
        assert(assets@.subrange(0, assets@.len() as int) =~= assets@);
    }
    None
}

/// Which asset holds the checksums: the first named `SHA256SUMS.txt` or
/// containing `checksum`.
pub fn find_checksum_asset(assets: &Vec<ReleaseAsset>) -> (r: Option<usize>)
    ensures
        r is None <==> first_asset(assets@, true) is None,
        r matches Some(i) ==> first_asset(assets@, true) == Some(i as int),
{
    let mut i: usize = 0;
    while i < assets.len()
        invariant
            i <= assets@.len(),
            first_asset(assets@.subrange(0, i as int), true) is None,
        decreases assets@.len() - i,
    {
        proof {
            assert(assets@.subrange(0, i + 1).drop_last() =~= assets@.subrange(0, i as int));
        }
        let name = assets[i].name.as_str();
        if str_eq(name, "SHA256SUMS.txt") || contains_str(name, "checksum") {
            proof {
                lemma_first_asset_extend(assets@, true, i + 1);
            }
            return Some(i);
        }
        i += 1;
    }
    proof {
        assert(assets@.subrange(0, assets@.len() as int) =~= assets@);
    }
    None
}

} // verus!
