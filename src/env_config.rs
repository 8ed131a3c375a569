use vstd::prelude::*;
use crate::query::{find_entry, lookup};

verus! {

/// Service settings taken from environment variables, each defaulting to
/// the empty string except `DEVICE_ID`, which defaults to `"0"`.
#[derive(Debug, Clone)]
pub struct Config {
    pub access_key_id: String,
    pub bucket_name: String,
    pub collection_name: String,
    pub device_id: String,
    pub endpoint: String,
    pub qdrant_url: String,
    pub region: String,
    pub secret_access_key: String,
}

/// The value of `name` among `vars`, or `default` when it is not set.
pub open spec fn var_or(vars: Seq<(String, String)>, name: Seq<char>, default: Seq<char>) -> Seq<char> {
    match lookup(vars, name) {
        Some(v) => v,
        None => default,
    }
}

fn var_or_default(vars: &Vec<(String, String)>, name: &str, default: &str) -> (r: String)
    ensures
        r@ == var_or(vars@, name@, default@),
{
    let key = name.to_string();
    match find_entry(vars, &key) {
        Some(v) => v,
        None => default.to_string(),
    }
}

impl Config {
    /// Reads the settings from the process's environment variables, given as
    /// (name, value) pairs.
    pub fn from_vars(vars: &Vec<(String, String)>) -> (c: Config)
        ensures
            c.access_key_id@ == var_or(vars@, "ACCESS_KEY_ID"@, ""@),
            c.bucket_name@ == var_or(vars@, "BUCKET_NAME"@, ""@),
            c.collection_name@ == var_or(vars@, "COLLECTION_NAME"@, ""@),
            c.device_id@ == var_or(vars@, "DEVICE_ID"@, "0"@),
            c.endpoint@ == var_or(vars@, "ENDPOINT"@, ""@),
            c.qdrant_url@ == var_or(vars@, "QDRANT_URL"@, ""@),
            c.region@ == var_or(vars@, "REGION"@, ""@),
            c.secret_access_key@ == var_or(vars@, "SECRET_ACCESS_KEY"@, ""@),
    {
        Config {
            access_key_id: var_or_default(vars, "ACCESS_KEY_ID", ""),
            bucket_name: var_or_default(vars, "BUCKET_NAME", ""),
            collection_name: var_or_default(vars, "COLLECTION_NAME", ""),
            device_id: var_or_default(vars, "DEVICE_ID", "0"),
            endpoint: var_or_default(vars, "ENDPOINT", ""),
            qdrant_url: var_or_default(vars, "QDRANT_URL", ""),
            region: var_or_default(vars, "REGION", ""),
            secret_access_key: var_or_default(vars, "SECRET_ACCESS_KEY", ""),
        }
    }
}

} // verus!
