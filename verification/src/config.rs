//! What an application says of itself, and the one signal that the logic
//! thread sends back.

use vstd::prelude::*;
use vstd::string::StringExecFns;

verus! {

/// The directive that the logic thread sends to the platform thread. It
/// carries nothing: it means that the platform loop is to end now.
#[derive(Clone, Copy, Debug, PartialEq, Eq, Structural)]
pub enum PantheonEvent {
    Shutdown,
}

/// The name, author and version of an application.
#[derive(Clone, Debug)]
pub struct AppConfig {
    pub name: String,
    pub author: String,
    pub version: String,
}

impl AppConfig {
    /// A configuration that names nothing yet: name and author read
    /// `Unkown`, the version `0.1.0`.
    pub fn new() -> (config: Self)
        ensures
            config.name@ == "Unkown"@,
            config.version@ == "0.1.0"@,
            config.author@ == "Unkown"@,
    {
        AppConfig {
            name: String::from_str("Unkown"),
            version: String::from_str("0.1.0"),
            author: String::from_str("Unkown"),
        }
    }

    /// The same configuration under another name.
    pub fn name(self, name: &str) -> (config: Self)
        ensures
            config.name@ == name@,
            config.version == self.version,
            config.author == self.author,
    {
        AppConfig { name: String::from_str(name), version: self.version, author: self.author }
    }

    /// The same configuration with another version.
    pub fn version(self, version: &str) -> (config: Self)
        ensures
            config.version@ == version@,
            config.name == self.name,
            config.author == self.author,
    {
        AppConfig { name: self.name, version: String::from_str(version), author: self.author }
    }

    /// The same configuration with another author.
    pub fn author(self, author: &str) -> (config: Self)
        ensures
            config.author@ == author@,
            config.name == self.name,
            config.version == self.version,
    {
        AppConfig { name: self.name, version: self.version, author: String::from_str(author) }
    }
}

} // verus!
