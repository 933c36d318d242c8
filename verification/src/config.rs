//! The persisted configuration record and the pure part of reading and
//! updating it. File handling lives outside the library; it hands the parsed
//! record in and writes the updated record back.

use vstd::prelude::*;

use crate::auth::ct_eq;

verus! {

/// The configuration record: the identifier this host reports as its own.
#[derive(Debug, Clone, PartialEq, Eq)]
pub struct Config {
    pub host_id: String,
}

impl Default for Config {
    /// An empty host identifier.
    fn default() -> (c: Config)
        ensures
            c.host_id@ == Seq::<char>::empty(),
    {
        Config { host_id: String::new() }
    }
}

/// The value of the named field of a configuration record, or `"Key not
/// found"` for any other name.
pub fn get(config: &Config, key: &str) -> (r: Result<String, String>)
    ensures
        key@ == "host_id"@ ==> (r matches Ok(v) && v@ == config.host_id@),
        key@ != "host_id"@ ==> (r matches Err(m) && m@ == "Key not found"@),
{
    if ct_eq(key, "host_id") {
        Ok(config.host_id.clone())
    } else {
        Err(String::from_str("Key not found"))
    }
}

/// Set the named field of a configuration record to `value`. Returns whether
/// the name was recognized; an unrecognized name leaves the record unchanged.
pub fn set_value(config: &mut Config, key: &str, value: &str) -> (r: bool)
    ensures
        key@ == "host_id"@ ==> r && final(config).host_id@ == value@,
        key@ != "host_id"@ ==> !r && *final(config) == *old(config),
{
    if ct_eq(key, "host_id") {
        config.host_id = value.to_owned();
        true
    } else {
        false
    }
}

} // verus!
