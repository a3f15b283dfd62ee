//! Installed builds of the editor server, recognised by their directory names
//! `portalbox-vscode-<version>-<os>-<arch>`.
use vstd::prelude::*;

use crate::text::{
    chars_of, find_from, index_of, occurs_at, skip_repeated_prefix, starts_with, string_of,
    strip_prefix_all,
};

verus! {

#[verifier::external_type_specification]
#[verifier::external_body]
pub struct ExVersion(semver::Version);

#[verifier::external_type_specification]
#[verifier::external_body]
pub struct ExSemverError(semver::Error);

/// Opens the directory name of an installed editor build.
pub const VSCODE_DIR_PREFIX: &'static str = "portalbox-vscode-";

/// Whether `text` is a version in semantic-versioning syntax.
pub uninterp spec fn is_semver(text: Seq<char>) -> bool;

/// Relies on semver::Version::parse: whether a text parses depends on its
/// characters alone, and the empty text does not.
#[verifier::external_body]
fn parse_version(text: &str) -> (r: Result<semver::Version, semver::Error>)
    ensures
        r.is_ok() == is_semver(text@),
        text@.len() == 0 ==> r.is_err(),
{
    semver::Version::parse(text)
}

/// A build of the editor server.
#[derive(Debug)]
pub struct AppInfo {
    pub os_arch: String,
    pub latest_version: semver::Version,
    pub download_link: String,
}

/// Why a directory name is not that of an installed editor build.
#[derive(Debug, Clone, Copy, PartialEq, Eq, Structural)]
pub enum VscodeDirError {
    /// The name lacks the prefix, or no `-` follows the version.
    NotVscodeDir,
    /// The version is not in semantic-versioning syntax.
    BadVersion,
}

/// The version text and the platform text of an editor directory name: after
/// the prefix (each repetition of it removed), the text up to the first `-`
/// and the text after it.
pub open spec fn spec_vscode_dir_parts(dir: Seq<char>) -> Option<(Seq<char>, Seq<char>)> {
    if !starts_with(dir, VSCODE_DIR_PREFIX@) {
        None
    } else {
        let rest = strip_prefix_all(dir, VSCODE_DIR_PREFIX@);
        let i = index_of(rest, '-');
        if i < 0 {
            None
        } else {
            Some((rest.take(i), rest.skip(i + 1)))
        }
    }
}

/// Reads the directory name of an installed editor build; its download link
/// is unknown and left empty.
pub fn parse_vscode_dir(dir: &str) -> (r: Result<AppInfo, VscodeDirError>)
    ensures
        match spec_vscode_dir_parts(dir@) {
            None => r matches Err(e) && e == VscodeDirError::NotVscodeDir,
            Some((version, os_arch)) => if is_semver(version) {
                r matches Ok(info) && info.os_arch@ == os_arch && info.download_link@.len() == 0
            } else {
                r matches Err(e) && e == VscodeDirError::BadVersion
            },
        },
{
    let s = chars_of(dir);
    let p = chars_of(VSCODE_DIR_PREFIX);
    if !occurs_at(&s, 0, &p) {
        assert(s@.subrange(0, p@.len() as int) =~= s@.take(p@.len() as int));
        return Err(VscodeDirError::NotVscodeDir);
    }
    assert(s@.subrange(0, p@.len() as int) =~= s@.take(p@.len() as int));
    let start = skip_repeated_prefix(&s, &p);
    let ghost rest = s@.skip(start as int);
    let i = find_from(&s, start, '-');
    if i == s.len() {
        return Err(VscodeDirError::NotVscodeDir);
    }
    assert(rest.take(i - start) =~= s@.subrange(start as int, i as int));
    assert(rest.skip(i - start + 1) =~= s@.subrange(i + 1, s@.len() as int));
    let version_text = string_of(&s, start, i);
    let os_arch = string_of(&s, i + 1, s.len());
    match parse_version(version_text.as_str()) {
        Ok(latest_version) => Ok(AppInfo { os_arch, latest_version, download_link: String::new() }),
        Err(_) => Err(VscodeDirError::BadVersion),
    }
}

} // verus!
