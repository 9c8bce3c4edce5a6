//! The two configuration records the pipeline consumes: the deployment
//! target and the deployable application.

use vstd::prelude::*;
use vstd::string::StringExecFns;
use crate::text::dec_digits;

verus! {

/// One deployment target: the host, the account, and the key used to
/// authenticate to it.
pub struct Host {
    pub key_path: String,
    pub user: String,
    pub host: String,
    pub port: u16,
}

/// The connection endpoint for a host: `ssh://user@host:port`.
pub open spec fn url_of(user: Seq<char>, host: Seq<char>, port: u16) -> Seq<char> {
    seq!['s', 's', 'h', ':', '/', '/'] + user + seq!['@'] + host + seq![':'] + dec_digits(
        port as int,
    )
}

impl Host {
    /// Formats the connection endpoint for this host.
    pub fn to_url(&self) -> (r: String)
        ensures
            r@ == url_of(self.user@, self.host@, self.port),
    {
        let port = crate::text::u16_to_dec(self.port);
        let r = String::from_str("ssh://").concat(self.user.as_str()).concat("@").concat(
            self.host.as_str(),
        ).concat(":").concat(port.as_str());
        proof {
            reveal_strlit("ssh://");
            reveal_strlit("@");
            reveal_strlit(":");
            assert(r@ =~= url_of(self.user@, self.host@, self.port));
        }
        r
    }
}

/// One deployable unit: what to build, which local paths make up the
/// archive, where to put it remotely, and the optional entrypoint file.
pub struct App {
    pub name: String,
    pub host_path: String,
    pub build_output_file: String,
    pub build_command: String,
    pub artifacts: Vec<String>,
    pub entrypoint: Option<String>,
}

impl App {
    pub fn build_output_file(&self) -> (r: &String)
        ensures
            r == &self.build_output_file,
    {
        &self.build_output_file
    }

    pub fn host_path(&self) -> (r: &String)
        ensures
            r == &self.host_path,
    {
        &self.host_path
    }

    pub fn name(&self) -> (r: &String)
        ensures
            r == &self.name,
    {
        &self.name
    }

    pub fn artifacts(&self) -> (r: &Vec<String>)
        ensures
            r == &self.artifacts,
    {
        &self.artifacts
    }

    pub fn entrypoint(&self) -> (r: &Option<String>)
        ensures
            r == &self.entrypoint,
    {
        &self.entrypoint
    }
}

} // verus!
