//! Process configuration: the two ports and the chat's display name, with
//! command-line flags overriding the file values.

use vstd::prelude::*;

verus! {

/// The service configuration.
#[derive(Clone)]
pub struct Config {
    /// Port of the web front-end.
    pub http_port: u16,
    /// Port of the interactive session transport.
    pub ssh_port: u16,
    /// The chat's display name.
    pub chat_name: String,
}

impl Default for Config {
    /// The values used when neither the file nor a flag says otherwise.
    fn default() -> (r: Config)
        ensures
            r.http_port == 8080,
            r.ssh_port == 2222,
            r.chat_name@ == "NoJS Chat"@,
    {
        Config { http_port: 8080, ssh_port: 2222, chat_name: "NoJS Chat".to_owned() }
    }
}

impl Config {
    /// Applies command-line overrides: each flag that was given replaces
    /// its field, each absent one leaves the field as it was.
    pub fn merged(
        self,
        http_port: Option<u16>,
        ssh_port: Option<u16>,
        chat_name: Option<String>,
    ) -> (r: Config)
        ensures
            http_port matches Some(p) ==> r.http_port == p,
            http_port is None ==> r.http_port == self.http_port,
            ssh_port matches Some(p) ==> r.ssh_port == p,
            ssh_port is None ==> r.ssh_port == self.ssh_port,
            chat_name matches Some(n) ==> r.chat_name@ == n@,
            chat_name is None ==> r.chat_name@ == self.chat_name@,
    {
        let new_http = match http_port {
            Some(p) => p,
            None => self.http_port,
        };
        let new_ssh = match ssh_port {
            Some(p) => p,
            None => self.ssh_port,
        };
        let new_name = match chat_name {
            Some(n) => n,
            None => self.chat_name,
        };
        Config { http_port: new_http, ssh_port: new_ssh, chat_name: new_name }
    }
}

} // verus!
