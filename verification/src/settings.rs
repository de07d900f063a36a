//! Process-wide settings: bind address and shared secret.
//!
//! Discovering and reading the configuration files is I/O and happens
//! outside the library; the caller checks the candidate paths listed by
//! [`Settings::config_file_candidates`], asks
//! [`Settings::any_config_file_exists`] whether any was found, and fills
//! a [`Settings`] value from what it read, falling back to the defaults
//! stated on [`Settings::default`].

use vstd::prelude::*;

verus! {

/// Where the HTTP server binds.
pub struct ServerSettings {
    pub host: String,
    pub port: u16,
}

/// The shared secret the apply endpoint checks credentials against.
pub struct AuthSettings {
    pub password: String,
}

/// Process-wide settings, built once at startup and read-only afterwards.
pub struct Settings {
    pub server: ServerSettings,
    pub auth: AuthSettings,
}

impl Default for ServerSettings {
    /// Defaults used when the configuration files leave a field unset.
    fn default() -> (r: Self)
        ensures
            r.host@ == "0.0.0.0"@,
            r.port == 8080,
    {
        ServerSettings { host: "0.0.0.0".to_owned(), port: 8080 }
    }
}

impl Default for AuthSettings {
    /// Default used when the configuration files leave the secret unset.
    fn default() -> (r: Self)
        ensures
            r.password@ == "changeme"@,
    {
        AuthSettings { password: "changeme".to_owned() }
    }
}

impl Default for Settings {
    /// The settings in force when no configuration file sets anything.
    fn default() -> (r: Self)
        ensures
            r.server.host@ == "0.0.0.0"@,
            r.server.port == 8080,
            r.auth.password@ == "changeme"@,
    {
        Settings { server: ServerSettings::default(), auth: AuthSettings::default() }
    }
}

impl Settings {
    /// The candidate configuration file paths, in discovery order.
    pub fn config_file_candidates() -> (r: Vec<String>)
        ensures
            r@.len() == 4,
            r@[0]@ == "k7s"@,
            r@[1]@ == "k7s.yaml"@,
            r@[2]@ == "config/k7s"@,
            r@[3]@ == "config/k7s.yaml"@,
    {
        let mut v: Vec<String> = Vec::new();
        v.push("k7s".to_owned());
        v.push("k7s.yaml".to_owned());
        v.push("config/k7s".to_owned());
        v.push("config/k7s.yaml".to_owned());
        v
    }

    /// Whether any of the four candidate configuration files was found,
    /// given one existence flag per candidate path (in the order of
    /// [`Settings::config_file_candidates`]). When none exists the process
    /// writes an example file and exits instead of starting.
    pub fn any_config_file_exists(flags: &Vec<bool>) -> (r: bool)
        requires
            flags@.len() == 4,
        ensures
            r == exists|i: int| 0 <= i < flags@.len() && flags@[i],
    {
        let r = flags[0] || flags[1] || flags[2] || flags[3];
        proof {
            if r {
                assert(exists|i: int| 0 <= i < flags@.len() && flags@[i]);
            }
        }
        r
    }

    /// The example configuration written to `k7s.yaml` when no
    /// configuration file exists.
    pub fn example_config() -> (r: String)
        ensures
            r@ == example_config_text(),
    {
        "# k7s example configuration\nserver:\n  host: \"127.0.0.1\"\n  port: 18080\nauth:\n  password: \"changeme\"  # please change to a strong password\n".to_owned()
    }
}

/// Contents of the bootstrap example configuration file.
pub open spec fn example_config_text() -> Seq<char> {
    "# k7s example configuration\nserver:\n  host: \"127.0.0.1\"\n  port: 18080\nauth:\n  password: \"changeme\"  # please change to a strong password\n"@
}

} // verus!
