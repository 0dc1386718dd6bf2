use vstd::prelude::*;
use crate::text::{find, first_occurrence};

verus! {

/// What semver's `Version::parse` makes of a text: `Ok` with the version's
/// display form, or `Err` with the error's message.
pub uninterp spec fn semver_parse(s: Seq<char>) -> Result<Seq<char>, Seq<char>>;

/// Whether, in semver's ordering of versions, the version that `latest`
/// denotes comes after the one that `installed` denotes.
pub uninterp spec fn semver_newer(latest: Seq<char>, installed: Seq<char>) -> bool;

/// Relies on `semver::Version::parse`, and on `Display` for the parsed
/// version and for `semver::Error`: both texts depend on the input alone.
#[verifier::external_body]
fn parse_version(text: &str) -> (r: Result<String, String>)
    ensures
        match semver_parse(text@) {
            Ok(t) => r is Ok && r->Ok_0@ == t,
            Err(m) => r is Err && r->Err_0@ == m,
        },
{
    match semver::Version::parse(text) {
        Ok(v) => Ok(v.to_string()),
        Err(e) => Err(e.to_string()),
    }
}

/// Relies on semver's `Ord` for `Version` (build metadata included, as semver
/// orders it) on the versions that the two texts parse to; both parse.
#[verifier::external_body]
fn is_newer(latest: &str, installed: &str) -> (r: bool)
    requires
        semver_parse(latest@) is Ok,
        semver_parse(installed@) is Ok,
    ensures
        r == semver_newer(latest@, installed@),
{
    semver::Version::parse(latest).unwrap() > semver::Version::parse(installed).unwrap()
}

/// A Unicode white-space character, as `char::is_whitespace` defines it.
pub open spec fn is_white(c: char) -> bool {
    ('\u{9}' <= c <= '\u{d}') || c == ' ' || c == '\u{85}' || c == '\u{a0}' || c == '\u{1680}'
        || ('\u{2000}' <= c <= '\u{200a}') || c == '\u{2028}' || c == '\u{2029}' || c == '\u{202f}'
        || c == '\u{205f}' || c == '\u{3000}'
}

pub open spec fn trim_start(s: Seq<char>) -> Seq<char>
    decreases s.len(),
{
    if s.len() > 0 && is_white(s[0]) {
        trim_start(s.drop_first())
    } else {
        s
    }
}

pub open spec fn trim_end(s: Seq<char>) -> Seq<char>
    decreases s.len(),
{
    if s.len() > 0 && is_white(s.last()) {
        trim_end(s.drop_last())
    } else {
        s
    }
}

/// `s` without its leading and trailing white space.
pub open spec fn trimmed(s: Seq<char>) -> Seq<char> {
    trim_end(trim_start(s))
}

/// Relies on `str::trim`: leading and trailing characters with the Unicode
/// `White_Space` property removed.
#[verifier::external_body]
fn trim(s: &str) -> (r: String)
    ensures
        r@ == trimmed(s@),
{
    s.trim().to_string()
}

/// The latest release, as the release feed describes it.
#[derive(Debug)]
pub struct Release {
    pub tag_name: String,
    pub html_url: String,
    pub body: String,
}

/// The outcome of an update check.
#[derive(Debug)]
pub enum Update {
    Available { url: String, notes: String },
    UpToDate,
    Error(String),
}

/// The heading after which a release body lists individual changes.
pub open spec fn changes_heading() -> Seq<char> {
    "## What's Changed"@
}

/// The release notes shown: the body up to the list of individual changes,
/// trimmed; the whole body when there is no such list.
pub open spec fn summary_of(body: Seq<char>) -> Seq<char> {
    match first_occurrence(changes_heading(), body) {
        Some(i) => trimmed(body.subrange(0, i)),
        None => body,
    }
}

pub open spec fn notes_spec(latest: Seq<char>, installed: Seq<char>, summary: Seq<char>) -> Seq<char> {
    "发现有新版练习工具！\n\n最新版本:    "@ + latest + "\n已安装版本: "@ + installed + "\n\n更新内容:\n"@ + summary + "\n"@
}

/// The part of a release body that is shown.
pub fn release_summary(body: &str) -> (r: String)
    ensures
        r@ == summary_of(body@),
{
    match find(body, "## What's Changed") {
        Some(i) => trim(body.substring_char(0, i)),
        None => String::from_str(body),
    }
}

impl Update {
    /// The outcome once the release's version is known: `newer` says whether
    /// it is newer than the installed one; the texts are the two versions'
    /// display forms.
    pub fn decide(newer: bool, latest: &str, installed: &str, release: Release) -> (r: Update)
        ensures
            newer ==> r is Available && r->Available_url@ == release.html_url@ && r->Available_notes@
                == notes_spec(latest@, installed@, summary_of(release.body@)),
            !newer ==> r is UpToDate,
    {
        if newer {
            let summary = release_summary(release.body.as_str());
            let mut notes = String::from_str("发现有新版练习工具！\n\n最新版本:    ");
            notes.append(latest);
            notes.append("\n已安装版本: ");
            notes.append(installed);
            notes.append("\n\n更新内容:\n");
            notes.append(summary.as_str());
            notes.append("\n");
            Update::Available { url: release.html_url, notes }
        } else {
            Update::UpToDate
        }
    }

    /// Checks a fetched release against the installed version (given as
    /// text). A failed fetch, or a version that does not parse, is an error.
    pub fn check(fetched: Result<Release, String>, installed: &str) -> (r: Update)
        ensures
            fetched is Err ==> r is Error && r->Error_0@ == fetched->Err_0@,
            fetched is Ok && semver_parse(installed@) is Err ==> r is Error && r->Error_0@
                == semver_parse(installed@)->Err_0,
            fetched is Ok && semver_parse(installed@) is Ok && semver_parse(fetched->Ok_0.tag_name@) is Err
                ==> r is Error && r->Error_0@ == semver_parse(fetched->Ok_0.tag_name@)->Err_0,
            fetched is Ok && semver_parse(installed@) is Ok && semver_parse(fetched->Ok_0.tag_name@) is Ok
                && semver_newer(fetched->Ok_0.tag_name@, installed@) ==> r is Available
                && r->Available_url@ == fetched->Ok_0.html_url@ && r->Available_notes@ == notes_spec(
                semver_parse(fetched->Ok_0.tag_name@)->Ok_0,
                semver_parse(installed@)->Ok_0,
                summary_of(fetched->Ok_0.body@),
            ),
            fetched is Ok && semver_parse(installed@) is Ok && semver_parse(fetched->Ok_0.tag_name@) is Ok
                && !semver_newer(fetched->Ok_0.tag_name@, installed@) ==> r is UpToDate,
    {
        let release = match fetched {
            Err(e) => {
                return Update::Error(e);
            },
            Ok(r) => r,
        };
        let current_text = match parse_version(installed) {
            Err(e) => {
                return Update::Error(e);
            },
            Ok(t) => t,
        };
        let latest_text = match parse_version(release.tag_name.as_str()) {
            Err(e) => {
                return Update::Error(e);
            },
            Ok(t) => t,
        };
        let newer = is_newer(release.tag_name.as_str(), installed);
        Update::decide(newer, latest_text.as_str(), current_text.as_str(), release)
    }
}

} // verus!
