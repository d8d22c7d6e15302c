//! Package coordinates shared by the features: Maven coordinates and
//! versions, npm package names and versions.

use vstd::prelude::*;
use crate::features::generate_npm_metadata::dto::{valid_npm_package_name, validate_npm_package_name};
use crate::text::{
    all_alnum_or, all_alnum_or_any_of, chars_of, concat2, concat3, concat5, copy_string,
    ends_with_seq, replace_char, replace_char_in, seq_ends_with,
};

verus! {

/// Why Maven coordinates were refused.
#[derive(Debug, Clone)]
pub enum MavenValidationError {
    InvalidGroupId(String),
    InvalidArtifactId(String),
    InvalidVersion(String),
}

/// Characters allowed in a Maven group or artifact id besides the
/// alphanumeric ones.
pub open spec fn maven_id_extra() -> Seq<char> {
    seq!['-', '_', '.']
}

/// Characters allowed in a Maven version besides the alphanumeric ones.
pub open spec fn maven_version_extra() -> Seq<char> {
    seq!['-', '_', '.', '+']
}

/// A valid group or artifact id: not empty, alphanumeric characters and `- _ .`.
pub open spec fn valid_maven_id(s: Seq<char>) -> bool {
    s.len() > 0 && all_alnum_or(s, maven_id_extra())
}

/// A valid version: not empty, alphanumeric characters and `- _ . +`.
pub open spec fn valid_maven_version(s: Seq<char>) -> bool {
    s.len() > 0 && all_alnum_or(s, maven_version_extra())
}

/// Whether a version names a snapshot.
pub open spec fn is_snapshot_version(s: Seq<char>) -> bool {
    seq_ends_with(s, "-SNAPSHOT"@)
}

fn check_maven_id(s: &str) -> (r: bool)
    ensures
        r == valid_maven_id(s@),
{
    let v = chars_of(s);
    let r = v.len() > 0 && all_alnum_or_any_of(&v, &['-', '_', '.']);
    proof {
        assert(seq!['-', '_', '.'] =~= maven_id_extra());
    }
    r
}

fn check_maven_version(s: &str) -> (r: bool)
    ensures
        r == valid_maven_version(s@),
{
    let v = chars_of(s);
    let r = v.len() > 0 && all_alnum_or_any_of(&v, &['-', '_', '.', '+']);
    proof {
        assert(seq!['-', '_', '.', '+'] =~= maven_version_extra());
    }
    r
}

/// A Maven version string.
#[derive(Debug, Clone)]
pub struct MavenVersion {
    pub value: String,
}

impl PartialEq for MavenVersion {
    fn eq(&self, other: &Self) -> (r: bool) {
        crate::text::str_eq(self.value.as_str(), other.value.as_str())
    }
}

impl vstd::std_specs::cmp::PartialEqSpecImpl for MavenVersion {
    open spec fn obeys_eq_spec() -> bool {
        true
    }

    open spec fn eq_spec(&self, other: &Self) -> bool {
        self.value@ == other.value@
    }
}

impl MavenVersion {
    /// Parses a version; the error carries the refused text.
    pub fn new(value: &str) -> (r: Result<MavenVersion, MavenValidationError>)
        ensures
            r is Ok <==> valid_maven_version(value@),
            r matches Ok(v) ==> v.value@ == value@,
            r matches Err(e) ==> (e matches MavenValidationError::InvalidVersion(t) && t@ == value@),
    {
        if check_maven_version(value) {
            Ok(MavenVersion { value: value.to_owned() })
        } else {
            Err(MavenValidationError::InvalidVersion(value.to_owned()))
        }
    }

    /// The version text.
    pub fn as_str(&self) -> (r: &str)
        ensures
            r@ == self.value@,
    {
        self.value.as_str()
    }

    /// The version text, as an owned string.
    pub fn to_string(&self) -> (r: String)
        ensures
            r@ == self.value@,
    {
        copy_string(&self.value)
    }

    /// Whether this is a snapshot version (it ends with "-SNAPSHOT").
    pub fn is_snapshot(&self) -> (r: bool)
        ensures
            r == is_snapshot_version(self.value@),
    {
        let v = chars_of(self.value.as_str());
        let suffix = chars_of("-SNAPSHOT");
        ends_with_seq(&v, &suffix)
    }
}

/// Maven coordinates: group, artifact and version.
#[derive(Debug, Clone)]
pub struct MavenCoordinates {
    pub group_id: String,
    pub artifact_id: String,
    pub version: MavenVersion,
}

/// Coordinates whose three parts are valid.
pub open spec fn valid_coordinates(c: MavenCoordinates) -> bool {
    valid_maven_id(c.group_id@) && valid_maven_id(c.artifact_id@) && valid_maven_version(
        c.version.value@,
    )
}

/// The first reason, in the order group, artifact, version, for which the
/// parts are refused.
pub open spec fn coordinates_error_matches(
    e: MavenValidationError,
    group_id: Seq<char>,
    artifact_id: Seq<char>,
    version: Seq<char>,
) -> bool {
    if !valid_maven_id(group_id) {
        e matches MavenValidationError::InvalidGroupId(t) && t@ == group_id
    } else if !valid_maven_id(artifact_id) {
        e matches MavenValidationError::InvalidArtifactId(t) && t@ == artifact_id
    } else {
        e matches MavenValidationError::InvalidVersion(t) && t@ == version
    }
}

/// The repository path of the coordinates' jar:
/// `group/with/slashes/artifact/version/artifact-version.jar`.
pub open spec fn coordinates_path(c: MavenCoordinates) -> Seq<char> {
    replace_char(c.group_id@, '.', '/') + "/"@ + c.artifact_id@ + "/"@ + c.version.value@ + "/"@
        + c.artifact_id@ + "-"@ + c.version.value@ + ".jar"@
}

impl MavenCoordinates {
    /// Builds coordinates from their three parts, each of which is checked.
    pub fn new(group_id: &str, artifact_id: &str, version: &str) -> (r: Result<
        MavenCoordinates,
        MavenValidationError,
    >)
        ensures
            r is Ok <==> (valid_maven_id(group_id@) && valid_maven_id(artifact_id@)
                && valid_maven_version(version@)),
            r matches Ok(c) ==> c.group_id@ == group_id@ && c.artifact_id@ == artifact_id@
                && c.version.value@ == version@,
            r matches Err(e) ==> coordinates_error_matches(e, group_id@, artifact_id@, version@),
    {
        if !check_maven_id(group_id) {
            return Err(MavenValidationError::InvalidGroupId(group_id.to_owned()));
        }
        if !check_maven_id(artifact_id) {
            return Err(MavenValidationError::InvalidArtifactId(artifact_id.to_owned()));
        }
        let v = MavenVersion::new(version)?;
        Ok(MavenCoordinates {
            group_id: group_id.to_owned(),
            artifact_id: artifact_id.to_owned(),
            version: v,
        })
    }

    pub fn group_id(&self) -> (r: &str)
        ensures
            r@ == self.group_id@,
    {
        self.group_id.as_str()
    }

    pub fn artifact_id(&self) -> (r: &str)
        ensures
            r@ == self.artifact_id@,
    {
        self.artifact_id.as_str()
    }

    pub fn version(&self) -> (r: &MavenVersion)
        ensures
            *r == self.version,
    {
        &self.version
    }

    /// "group:artifact:version".
    pub fn to_string(&self) -> (r: String)
        ensures
            r@ == self.group_id@ + ":"@ + self.artifact_id@ + ":"@ + self.version.value@,
    {
        concat5(
            self.group_id.as_str(),
            ":",
            self.artifact_id.as_str(),
            ":",
            self.version.value.as_str(),
        )
    }

    /// Whether the version is a snapshot.
    pub fn is_snapshot(&self) -> (r: bool)
        ensures
            r == is_snapshot_version(self.version.value@),
    {
        self.version.is_snapshot()
    }

    /// Whether the version is a release (not a snapshot).
    pub fn is_release(&self) -> (r: bool)
        ensures
            r == !is_snapshot_version(self.version.value@),
    {
        !self.version.is_snapshot()
    }

    /// The repository path of the artifact's jar.
    pub fn to_path(&self) -> (r: String)
        ensures
            r@ == coordinates_path(*self),
    {
        proof {
            reveal_strlit("/");
        }
        let group_path = replace_char_in(self.group_id.as_str(), '.', "/");
        let artifact = self.artifact_id.as_str();
        let version = self.version.value.as_str();
        let head = concat5(group_path.as_str(), "/", artifact, "/", version);
        let tail = concat5("/", artifact, "-", version, ".jar");
        concat2(head.as_str(), tail.as_str())
    }
}

/// Checks coordinates that may have been built field by field.
pub fn validate_maven_coordinates(c: &MavenCoordinates) -> (r: Result<(), MavenValidationError>)
    ensures
        r is Ok <==> valid_coordinates(*c),
        r matches Err(e) ==> coordinates_error_matches(e, c.group_id@, c.artifact_id@, c.version.value@),
{
    if !check_maven_id(c.group_id.as_str()) {
        return Err(MavenValidationError::InvalidGroupId(copy_string(&c.group_id)));
    }
    if !check_maven_id(c.artifact_id.as_str()) {
        return Err(MavenValidationError::InvalidArtifactId(copy_string(&c.artifact_id)));
    }
    if !check_maven_version(c.version.value.as_str()) {
        return Err(MavenValidationError::InvalidVersion(copy_string(&c.version.value)));
    }
    Ok(())
}

/// Why an npm package name was refused; the error carries the name.
#[derive(Debug, Clone)]
pub enum NpmValidationError {
    InvalidPackageName(String),
}

/// A valid npm package name, scoped (`@scope/name`) or not.
#[derive(Debug, Clone)]
pub struct NpmPackageName {
    pub value: String,
}

impl NpmPackageName {
    /// Parses a package name.
    pub fn new(name: &str) -> (r: Result<NpmPackageName, NpmValidationError>)
        ensures
            r is Ok <==> valid_npm_package_name(name@),
            r matches Ok(n) ==> n.value@ == name@,
            r matches Err(e) ==> (e matches NpmValidationError::InvalidPackageName(t) && t@ == name@),
    {
        if validate_npm_package_name(name).is_ok() {
            Ok(NpmPackageName { value: name.to_owned() })
        } else {
            Err(NpmValidationError::InvalidPackageName(name.to_owned()))
        }
    }

    /// The name text.
    pub fn as_str(&self) -> (r: &str)
        ensures
            r@ == self.value@,
    {
        self.value.as_str()
    }

    /// The name text, as an owned string.
    pub fn to_string(&self) -> (r: String)
        ensures
            r@ == self.value@,
    {
        copy_string(&self.value)
    }
}

/// An npm package version, as listed by the registry.
#[derive(Debug, Clone)]
pub struct NpmVersion {
    pub value: String,
}

impl NpmVersion {
    pub fn new(value: String) -> (r: Self)
        ensures
            r.value == value,
    {
        NpmVersion { value }
    }

    /// The version text.
    pub fn as_str(&self) -> (r: &str)
        ensures
            r@ == self.value@,
    {
        self.value.as_str()
    }
}

} // verus!
