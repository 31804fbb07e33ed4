//! Server configuration: bind address and port.

use vstd::prelude::*;

verus! {

pub struct Config {
    pub host: String,
    pub port: u16,
}

impl Config {
    pub fn new(host: String, port: u16) -> (r: Self)
        ensures
            r.host == host,
            r.port == port,
    {
        Self { host, port }
    }

    pub fn default() -> (r: Self)
        ensures
            r.host@ == "127.0.0.1"@,
            r.port == 3000,
    {
        Self { host: "127.0.0.1".to_owned(), port: 3000 }
    }
}

} // verus!
