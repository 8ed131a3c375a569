use vstd::prelude::*;
use crate::content::{url_join, url_join_spec};

verus! {

/// Settings of the blob store and the vector index.
#[derive(Debug, Clone)]
pub struct Config {
    pub aws_access_key_id: String,
    pub aws_secret_access_key: String,
    pub aws_region: String,
    pub s3_bucket_name: String,
    pub s3_endpoint: String,
    pub qdrant_url: String,
    pub collection_name: String,
}

impl Config {
    /// The URL prefix of stored blobs: `"{endpoint}/{bucket}"`.
    pub fn base_url(&self) -> (r: String)
        ensures
            r@ == url_join_spec(self.s3_endpoint@, self.s3_bucket_name@),
    {
        url_join(self.s3_endpoint.as_str(), self.s3_bucket_name.as_str())
    }
}

} // verus!
