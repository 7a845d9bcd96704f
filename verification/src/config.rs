//! Server settings.
use std::collections::HashMap;
use vstd::prelude::*;

verus! {

/// The settings that the server reads from its configuration file.
#[derive(Debug)]
pub struct Settings {
    pub port: u16,
    pub keep_alive_timeout: u32,
    pub database_url: String,
    pub endpoints: HashMap<String, String>,
}

} // verus!
