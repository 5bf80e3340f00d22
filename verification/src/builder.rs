//! Driving the external build: the exact command line, and resolving the
//! artifact path from the project manifest.
//!
//! Spawning the build tool and streaming its output are outside work; what
//! the library owns is the command to run, the package-name lookup in the
//! manifest text, and the path the artifact must appear at.

use vstd::prelude::*;

use crate::errors::SupervisorError;

verus! {

/// The `package.name` string that the toml crate reads from a manifest text.
pub uninterp spec fn manifest_package_name(content: Seq<char>) -> Option<Seq<char>>;

/// Relies on `toml::from_str` for `toml::Value`, and on `Value::get` and
/// `Value::as_str`: reads the `package.name` string of a manifest text. The
/// result is a function of the text alone.
#[verifier::external_body]
fn read_package_name(content: &str) -> (r: Option<String>)
    ensures
        r is Some <==> manifest_package_name(content@) is Some,
        r matches Some(s) ==> manifest_package_name(content@) == Some(s@),
{
    let parsed: Result<toml::Value, toml::de::Error> = toml::from_str(content);
    match parsed {
        Ok(value) => value
            .get("package")
            .and_then(|p| p.get("name"))
            .and_then(|n| n.as_str())
            .map(|s| s.to_owned()),
        Err(_) => None,
    }
}

/// The argv of the external build: wrapped in the environment-activation
/// prefix when the project has one, with the release profile when asked.
pub open spec fn build_argv_spec(has_direnv: bool, project_dir: Seq<char>, release: bool) -> Seq<
    Seq<char>,
> {
    let base = if has_direnv {
        seq!["direnv"@, "exec"@, project_dir, "cargo"@, "build"@]
    } else {
        seq!["cargo"@, "build"@]
    };
    if release {
        base.push("--release"@)
    } else {
        base
    }
}

/// Where the artifact of a package lands under the chosen profile.
pub open spec fn artifact_path_spec(
    project_dir: Seq<char>,
    release: bool,
    package_name: Seq<char>,
) -> Seq<char> {
    project_dir + "/target/"@ + (if release {
        "release"@
    } else {
        "debug"@
    }) + "/"@ + package_name
}

/// Drives the external build for native units.
pub struct Builder {
    pub project_dir: String,
    pub has_direnv: bool,
}

impl Builder {
    pub fn new(project_dir: String, has_direnv: bool) -> (r: Self)
        ensures
            r.project_dir == project_dir,
            r.has_direnv == has_direnv,
    {
        Self { project_dir, has_direnv }
    }

    /// The exact command line of the external build.
    pub fn build_argv(&self, release: bool) -> (r: Vec<String>)
        ensures
            r.deep_view() == build_argv_spec(self.has_direnv, self.project_dir@, release),
    {
        let mut v: Vec<String> = Vec::new();
        if self.has_direnv {
            v.push(String::from_str("direnv"));
            v.push(String::from_str("exec"));
            v.push(self.project_dir.clone());
        }
        v.push(String::from_str("cargo"));
        v.push(String::from_str("build"));
        if release {
            v.push(String::from_str("--release"));
        }
        proof {
            assert(v.deep_view() =~= build_argv_spec(self.has_direnv, self.project_dir@, release));
        }
        v
    }

    /// The path the artifact must appear at for the given package.
    pub fn artifact_path(&self, release: bool, package_name: &str) -> (r: String)
        ensures
            r@ == artifact_path_spec(self.project_dir@, release, package_name@),
    {
        let mut s = self.project_dir.clone();
        s.append("/target/");
        if release {
            s.append("release");
        } else {
            s.append("debug");
        }
        s.append("/");
        s.append(package_name);
        s
    }

    /// Resolves the artifact path from the project manifest text: the
    /// declared package name under the chosen profile, or an error when the
    /// manifest names no package.
    pub fn resolve_artifact(&self, cargo_toml: &str, release: bool) -> (r: Result<
        String,
        SupervisorError,
    >)
        ensures
            r is Ok <==> manifest_package_name(cargo_toml@) is Some,
            r matches Ok(p) ==> p@ == artifact_path_spec(
                self.project_dir@,
                release,
                manifest_package_name(cargo_toml@)->Some_0,
            ),
            r matches Err(e) ==> e is PackageNameMissing,
    {
        match read_package_name(cargo_toml) {
            Some(name) => Ok(self.artifact_path(release, name.as_str())),
            None => Err(SupervisorError::PackageNameMissing),
        }
    }
}

} // verus!
