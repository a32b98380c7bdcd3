//! Project and server configuration types.
//!
//! A `Project` describes one managed deployment: the token that names it in
//! webhook URLs, the directory its deployment descriptor lives in, the
//! descriptor's file name, and an optional package-name filter. A `Config`
//! carries the listen address and the list of projects.

use vstd::prelude::*;
use vstd::string::StringExecFns;

verus! {

/// One managed deployment.
#[derive(Clone)]
pub struct Project {
    /// Opaque credential used in the webhook URL path; registry key.
    pub token: String,
    /// Directory holding the deployment descriptor.
    pub location: String,
    /// File name of the deployment descriptor inside `location`.
    pub compose_file: String,
    /// Optional package-name filter; `None` lets every well-formed
    /// notification through.
    pub package_names: Option<Vec<String>>,
}

/// The descriptor file name used when a project does not name one.
pub fn compose_file_default() -> (r: String)
    ensures
        r@ == "docker-compose.yaml"@,
{
    String::from_str("docker-compose.yaml")
}

/// The path the actuator operates on: the project's directory joined with
/// its descriptor file name.
pub open spec fn compose_path_view(p: Project) -> Seq<char> {
    p.location@ + seq!['/'] + p.compose_file@
}

impl Project {
    /// Joins `location` and `compose_file` into the actuator's target path.
    pub fn compose_path(&self) -> (r: String)
        ensures
            r@ == compose_path_view(*self),
    {
        let mut r: String = self.location.clone();
        r.append("/");
        r.append(self.compose_file.as_str());
        proof {
            reveal_strlit("/");
            assert(r@ =~= compose_path_view(*self));
        }
        r
    }
}

/// Listen address and the projects to manage.
#[derive(Clone)]
pub struct Config {
    pub host: String,
    pub port: u16,
    pub projects: Vec<Project>,
}

impl Default for Config {
    /// Localhost on port 5000, with no projects.
    fn default() -> (c: Config)
        ensures
            c.host@ == "localhost"@,
            c.port == 5000,
            c.projects@ == Seq::<Project>::empty(),
    {
        Config { host: String::from_str("localhost"), port: 5000, projects: Vec::new() }
    }
}

} // verus!
