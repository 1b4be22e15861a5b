//! Repository queries for server artifacts.  The network transport lives
//! outside the crate: whoever performs the HTTP requests hands the fetched
//! plain data (version strings, build numbers, download names) to the
//! functions here, which carry the repository's decision logic: which
//! version is newest, which build an artifact pins, and under which path and
//! file name an artifact travels.

use crate::text::{spec_u64_string, u64_string};
use crate::version::{
    spec_core_string, spec_parse_lenient, parse_lenient, spec_path_string, path_string, Version,
};
use vstd::prelude::*;
use vstd::string::*;

verus! {

/// An error reported by the artifact repository: a message and optionally
/// the text of an underlying cause.
#[derive(Debug)]
pub struct RepositoryError {
    pub message: String,
    pub cause: Option<String>,
}

/// Spec view of a [`RepositoryError`].
pub struct RepositoryErrorV {
    pub message: Seq<char>,
    pub cause: Option<Seq<char>>,
}

impl View for RepositoryError {
    type V = RepositoryErrorV;

    open spec fn view(&self) -> RepositoryErrorV {
        RepositoryErrorV { message: self.message@, cause: self.cause.deep_view() }
    }
}

/// The rendered text of a repository error: the message, and the cause
/// behind `": "` when one is present.
pub open spec fn spec_repo_error_text(e: RepositoryErrorV) -> Seq<char> {
    match e.cause {
        Option::None => e.message,
        Option::Some(c) => e.message + ": "@ + c,
    }
}

impl RepositoryError {
    /// An error carrying a fixed message.
    pub fn borrowed(message: &str) -> (r: RepositoryError)
        ensures
            r@ == (RepositoryErrorV { message: message@, cause: Option::None }),
    {
        RepositoryError { message: String::from_str(message), cause: Option::None }
    }

    /// An error carrying a computed message.
    pub fn owned(message: String) -> (r: RepositoryError)
        ensures
            r@ == (RepositoryErrorV { message: message@, cause: Option::None }),
    {
        RepositoryError { message, cause: Option::None }
    }

    /// The same error with the text of an underlying cause attached.
    pub fn with_inner(self, inner: String) -> (r: RepositoryError)
        ensures
            r@ == (RepositoryErrorV { message: self.message@, cause: Option::Some(inner@) }),
    {
        RepositoryError { message: self.message, cause: Option::Some(inner) }
    }

    /// Renders the error as one line of text.
    pub fn text(&self) -> (r: String)
        ensures
            r@ == spec_repo_error_text(self@),
    {
        match &self.cause {
            Option::None => self.message.clone(),
            Option::Some(c) => {
                let mut s = self.message.clone();
                s.append(": ");
                s.append(c.as_str());
                s
            },
        }
    }
}

/// A downloadable Paper server binary: the version it carries (build
/// identifier included) and the repository's file name for it.
#[derive(Debug)]
pub struct PaperArtifact {
    pub version: Version,
    pub download_name: String,
}

/// Spec view of a [`PaperArtifact`].
pub struct PaperArtifactV {
    pub version: Version,
    pub download_name: Seq<char>,
}

impl View for PaperArtifact {
    type V = PaperArtifactV;

    open spec fn view(&self) -> PaperArtifactV {
        PaperArtifactV { version: self.version, download_name: self.download_name@ }
    }
}

impl DeepView for PaperArtifact {
    type V = PaperArtifactV;

    open spec fn deep_view(&self) -> PaperArtifactV {
        self@
    }
}

impl PaperArtifact {
    /// The version this artifact carries.
    pub fn version(&self) -> (v: Version)
        ensures
            v == self.version,
    {
        self.version
    }

    /// A structurally equal copy.
    pub fn duplicate(&self) -> (r: PaperArtifact)
        ensures
            r@ == self@,
    {
        PaperArtifact { version: self.version, download_name: self.download_name.clone() }
    }
}

/// The greatest version of the sequence under the core order, scanning left
/// to right (a later equal element does not replace an earlier one).
pub open spec fn spec_max_version(versions: Seq<Version>) -> Version
    decreases versions.len(),
{
    if versions.len() <= 1 {
        versions[0]
    } else {
        let prev = spec_max_version(versions.drop_last());
        if prev.spec_core_le(versions.last()) && !versions.last().spec_core_le(prev) {
            versions.last()
        } else {
            prev
        }
    }
}

/// The Paper artifact repository.  Stateless: all queries are derived from
/// the upstream HTTP API's plain responses.
#[derive(Debug)]
pub struct PaperRepository {}

impl PaperRepository {
    /// The latest of the versions a project index listed: a maximum under
    /// the core order, or the repository's "no version found" error when the
    /// index was empty.
    pub fn latest_version(versions: &Vec<Version>) -> (r: Result<Version, RepositoryError>)
        ensures
            versions@.len() == 0 <==> r is Err,
            r matches Ok(v) ==> {
                &&& v == spec_max_version(versions@)
                &&& forall|i: int|
                    0 <= i < versions@.len() ==> (#[trigger] versions@[i]).spec_core_le(v)
            },
            r matches Err(e) ==> e@ == (RepositoryErrorV {
                message: "no version found"@,
                cause: Option::None,
            }),
    {
        if versions.len() == 0 {
            return Result::Err(RepositoryError::borrowed("no version found"));
        }
        let mut best: Version = versions[0];
        let mut i: usize = 1;
        proof {
            assert(versions@.subrange(0, 1) =~= seq![versions@[0]]);
        }
        while i < versions.len()
            invariant
                1 <= i <= versions@.len(),
                best == spec_max_version(versions@.subrange(0, i as int)),
                forall|j: int| 0 <= j < i ==> (#[trigger] versions@[j]).spec_core_le(best),
            decreases versions@.len() - i,
        {
            let candidate = versions[i];
            proof {
                assert(versions@.subrange(0, i + 1).drop_last() =~= versions@.subrange(
                    0,
                    i as int,
                ));
                assert(versions@.subrange(0, i + 1).last() == versions@[i as int]);
            }
            if best.core_le(&candidate) && !candidate.core_le(&best) {
                best = candidate;
            }
            i = i + 1;
        }
        proof {
            assert(versions@.subrange(0, versions@.len() as int) =~= versions@);
        }
        Result::Ok(best)
    }

    /// The versions of a project index, parsed leniently; the repository's
    /// parse error when any entry resists.  Only the core triple is kept.
    pub fn parse_versions(strings: &Vec<String>) -> (r: Result<Vec<Version>, RepositoryError>)
        ensures
            r matches Ok(vs) ==> {
                &&& vs@.len() == strings@.len()
                &&& forall|i: int|
                    0 <= i < strings@.len() ==> spec_parse_lenient((#[trigger] strings@[i])@)
                        == Option::Some(vs@[i])
            },
            r is Err <==> exists|i: int|
                0 <= i < strings@.len() && spec_parse_lenient((#[trigger] strings@[i])@)
                    is None,
            r matches Err(e) ==> e@ == (RepositoryErrorV {
                message: "failed to parse version string"@,
                cause: Option::None,
            }),
    {
        let mut out: Vec<Version> = Vec::new();
        let mut i: usize = 0;
        while i < strings.len()
            invariant
                0 <= i <= strings@.len(),
                out@.len() == i,
                forall|j: int|
                    0 <= j < i ==> spec_parse_lenient((#[trigger] strings@[j])@) == Option::Some(
                        out@[j],
                    ),
            decreases strings@.len() - i,
        {
            match parse_lenient(strings[i].as_str()) {
                Option::None => {
                    return Result::Err(RepositoryError::borrowed("failed to parse version string"));
                },
                Option::Some(v) => {
                    out.push(v);
                },
            }
            i = i + 1;
        }
        Result::Ok(out)
    }

    /// The build list of a version, as versions: each listed build number
    /// pinned onto the core triple of `version`, in order.
    pub fn make_build_versions(version: &Version, builds: &Vec<u64>) -> (r: Vec<Version>)
        ensures
            r@.len() == builds@.len(),
            forall|i: int|
                0 <= i < builds@.len() ==> #[trigger] r@[i] == (Version {
                    major: version.major,
                    minor: version.minor,
                    patch: version.patch,
                    build: Option::Some(builds@[i]),
                }),
    {
        let mut out: Vec<Version> = Vec::new();
        let mut i: usize = 0;
        while i < builds.len()
            invariant
                0 <= i <= builds@.len(),
                out@.len() == i,
                forall|j: int|
                    0 <= j < i ==> #[trigger] out@[j] == (Version {
                        major: version.major,
                        minor: version.minor,
                        patch: version.patch,
                        build: Option::Some(builds@[j]),
                    }),
            decreases builds@.len() - i,
        {
            out.push(
                Version {
                    major: version.major,
                    minor: version.minor,
                    patch: version.patch,
                    build: Option::Some(builds[i]),
                },
            );
            i = i + 1;
        }
        out
    }

    /// The greatest build number of a build list, or the repository's "no
    /// build found" error when the list is empty.
    pub fn select_latest_build(builds: &Vec<u64>) -> (r: Result<u64, RepositoryError>)
        ensures
            builds@.len() == 0 <==> r is Err,
            r matches Ok(b) ==> {
                &&& builds@.contains(b)
                &&& forall|i: int| 0 <= i < builds@.len() ==> #[trigger] builds@[i] <= b
            },
            r matches Err(e) ==> e@ == (RepositoryErrorV {
                message: "no build found for the given version"@,
                cause: Option::None,
            }),
    {
        if builds.len() == 0 {
            return Result::Err(RepositoryError::borrowed("no build found for the given version"));
        }
        let mut best: u64 = builds[0];
        let mut i: usize = 1;
        while i < builds.len()
            invariant
                1 <= i <= builds@.len(),
                builds@.contains(best),
                forall|j: int| 0 <= j < i ==> #[trigger] builds@[j] <= best,
            decreases builds@.len() - i,
        {
            if builds[i] > best {
                best = builds[i];
                proof {
                    assert(builds@.contains(builds@[i as int]));
                }
            }
            i = i + 1;
        }
        Result::Ok(best)
    }
}

/// The file name under which an artifact of the given version is stored:
/// `paper_<version>.jar`, the build separator `+` written as `-`.
pub open spec fn spec_jar_name(v: Version) -> Seq<char> {
    match v.build {
        Option::None => "paper_"@ + spec_core_string(v) + ".jar"@,
        Option::Some(b) => "paper_"@ + spec_core_string(v) + "-"@ + spec_u64_string(b as int)
            + ".jar"@,
    }
}

/// Renders the artifact file name for a version.
pub fn jar_name(v: &Version) -> (s: String)
    ensures
        s@ == spec_jar_name(*v),
{
    let mut s = String::from_str("paper_");
    let core = crate::version::core_string(v);
    s.append(core.as_str());
    match v.build {
        Option::None => {},
        Option::Some(b) => {
            s.append("-");
            let bs = u64_string(b);
            s.append(bs.as_str());
        },
    }
    s.append(".jar");
    s
}

/// The URL listing the builds of a version.
pub open spec fn spec_builds_url(v: Version) -> Seq<char> {
    "https://papermc.io/api/v2/projects/paper/versions/"@ + spec_path_string(v) + "/builds"@
}

/// Renders the URL listing the builds of a version.
pub fn builds_url(v: &Version) -> (s: String)
    ensures
        s@ == spec_builds_url(*v),
{
    let mut s = String::from_str("https://papermc.io/api/v2/projects/paper/versions/");
    let p = path_string(v);
    s.append(p.as_str());
    s.append("/builds");
    s
}

/// The URL of one build record of a version.
pub open spec fn spec_build_url(v: Version, build: u64) -> Seq<char> {
    spec_builds_url(v) + "/"@ + spec_u64_string(build as int)
}

/// Renders the URL of one build record.
pub fn build_url(v: &Version, build: u64) -> (s: String)
    ensures
        s@ == spec_build_url(*v, build),
{
    let mut s = builds_url(v);
    s.append("/");
    let bs = u64_string(build);
    s.append(bs.as_str());
    s
}

/// The download URL of an artifact: its build record's URL, then
/// `/downloads/<name>`.
pub open spec fn spec_download_url(v: Version, build: u64, name: Seq<char>) -> Seq<char> {
    spec_build_url(v, build) + "/downloads/"@ + name
}

/// Renders the download URL of an artifact.
pub fn download_url(v: &Version, build: u64, name: &str) -> (s: String)
    ensures
        s@ == spec_download_url(*v, build, name@),
{
    let mut s = build_url(v, build);
    s.append("/downloads/");
    s.append(name);
    s
}

/// The URL of the Paper project index.
pub fn project_url() -> (s: String)
    ensures
        s@ == "https://papermc.io/api/v2/projects/paper/"@,
{
    String::from_str("https://papermc.io/api/v2/projects/paper/")
}

} // verus!
