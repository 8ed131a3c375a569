use vstd::prelude::*;
use crate::ingest::{ItemModel, PointModel};
use crate::paths::{extension_of_name, extension_spec, file_name_of, path_file_name};

verus! {

/// The BLAKE3 digest of some bytes, as lower-case hexadecimal.
pub uninterp spec fn blake3_hex(bytes: Seq<u8>) -> Seq<char>;

/// The name-based (version 5) UUID of some text in the DNS namespace, in its
/// hyphenated form.
pub uninterp spec fn uuid_v5_dns(name: Seq<char>) -> Seq<char>;

/// A lower-case hexadecimal digit.
pub open spec fn is_lower_hex_digit(c: char) -> bool {
    ('0' <= c <= '9') || ('a' <= c <= 'f')
}

/// Relies on `blake3::hash` and `blake3::Hash::to_hex`: a 32-byte digest
/// written as 64 lower-case hexadecimal digits.
#[verifier::external_body]
fn blake3_hex_of(bytes: &[u8]) -> (r: String)
    ensures
        r@ == blake3_hex(bytes@),
        r@.len() == 64,
        forall|i: int| 0 <= i < r@.len() ==> is_lower_hex_digit(#[trigger] r@[i]),
{
    blake3::hash(bytes).to_hex().as_str().to_string()
}

/// Relies on `uuid::Uuid::new_v5` over the UTF-8 bytes of `name` in
/// `Uuid::NAMESPACE_DNS`, written out by its `Display` impl.
#[verifier::external_body]
fn uuid_v5_of(name: &str) -> (r: String)
    ensures
        r@ == uuid_v5_dns(name@),
{
    uuid::Uuid::new_v5(&uuid::Uuid::NAMESPACE_DNS, name.as_bytes()).to_string()
}

/// The content hash of some bytes: a function of the bytes alone.
pub open spec fn content_hash_spec(bytes: Seq<u8>) -> Seq<char> {
    blake3_hex(bytes)
}

/// The content hash of a file's bytes.
pub fn content_hash(bytes: &[u8]) -> (r: String)
    ensures
        r@ == content_hash_spec(bytes@),
        r@.len() == 64,
        forall|i: int| 0 <= i < r@.len() ==> is_lower_hex_digit(#[trigger] r@[i]),
{
    blake3_hex_of(bytes)
}

/// The identifier of the indexed point for a content hash.
pub open spec fn point_id_spec(hash: Seq<char>) -> Seq<char> {
    uuid_v5_dns(hash)
}

/// The deterministic identifier of the indexed point for a content hash.
pub fn point_id(hash: &str) -> (r: String)
    ensures
        r@ == point_id_spec(hash@),
{
    uuid_v5_of(hash)
}

/// The blob store key `"{hash}.{extension}"`.
pub open spec fn object_key_spec(hash: Seq<char>, ext: Seq<char>) -> Seq<char> {
    hash + seq!['.'] + ext
}

/// The blob store key of content with a given hash and file extension.
pub fn object_key(hash: &str, ext: &str) -> (r: String)
    ensures
        r@ == object_key_spec(hash@, ext@),
{
    let mut r = hash.to_string();
    proof {
        reveal_strlit(".");
    }
    r.append(".");
    r.append(ext);
    r
}

/// `"{base}/{name}"`.
pub open spec fn url_join_spec(base: Seq<char>, name: Seq<char>) -> Seq<char> {
    base + seq!['/'] + name
}

/// Appends a path segment to a URL with one `/`.
pub fn url_join(base: &str, name: &str) -> (r: String)
    ensures
        r@ == url_join_spec(base@, name@),
{
    let mut r = base.to_string();
    proof {
        reveal_strlit("/");
    }
    r.append("/");
    r.append(name);
    r
}

/// Two content hashes with distinct digits give distinct blob keys, whatever
/// the extensions.
pub proof fn lemma_distinct_hashes_distinct_keys(
    h1: Seq<char>,
    e1: Seq<char>,
    h2: Seq<char>,
    e2: Seq<char>,
)
    requires
        h1.len() == 64,
        h2.len() == 64,
        h1 != h2,
    ensures
        object_key_spec(h1, e1) != object_key_spec(h2, e2),
{
    let i = choose|i: int| 0 <= i < 64 && h1[i] != h2[i];
    assert(exists|i: int| 0 <= i < 64 && h1[i] != h2[i]) by {
        if forall|i: int| 0 <= i < 64 ==> h1[i] == h2[i] {
            assert(h1 =~= h2);
        }
    }
    assert(object_key_spec(h1, e1)[i] == h1[i]);
    assert(object_key_spec(h2, e2)[i] == h2[i]);
}

/// Why a discovered file cannot be ingested.
#[derive(Debug, Clone, Copy, PartialEq, Eq, Structural)]
pub enum ItemError {
    /// The path has no final component.
    NoFileName,
    /// The file name has no extension.
    NoExtension,
}

/// A discovered image with its content-derived identity.
#[derive(Debug, Clone)]
pub struct IngestItem {
    /// Where the file was found.
    pub path: String,
    /// The file's name, the last component of `path`.
    pub file_name: String,
    /// The content hash of the file's bytes.
    pub hash: String,
    /// The blob store key, `"{hash}.{extension}"`.
    pub key: String,
    /// The identifier of its indexed point, derived from `hash` alone.
    pub id: String,
}

/// The identity of a file found at `path` with contents `bytes`: its file
/// name, hash, blob key and point id, or why it has none.
pub open spec fn item_spec(path: Seq<char>, bytes: Seq<u8>) -> Result<
    (Seq<char>, Seq<char>, Seq<char>, Seq<char>),
    ItemError,
> {
    match path_file_name(path) {
        None => Err(ItemError::NoFileName),
        Some(name) => match extension_spec(name) {
            None => Err(ItemError::NoExtension),
            Some(ext) => Ok(
                (
                    name,
                    content_hash_spec(bytes),
                    object_key_spec(content_hash_spec(bytes), ext),
                    point_id_spec(content_hash_spec(bytes)),
                ),
            ),
        },
    }
}

impl IngestItem {
    /// The item's (file name, hash, key, id).
    pub open spec fn identity(&self) -> (Seq<char>, Seq<char>, Seq<char>, Seq<char>) {
        (self.file_name@, self.hash@, self.key@, self.id@)
    }

    /// Hashes the contents of the file found at `path` and derives its blob
    /// key and point id.
    pub fn from_content(path: String, bytes: &[u8]) -> (r: Result<IngestItem, ItemError>)
        ensures
            match (r, item_spec(path@, bytes@)) {
                (Ok(item), Ok(id)) => item.path@ == path@ && item.identity() == id,
                (Err(e), Err(f)) => e == f,
                _ => false,
            },
    {
        let file_name = match file_name_of(path.as_str()) {
            Some(n) => n,
            None => return Err(ItemError::NoFileName),
        };
        let ext = match extension_of_name(file_name.as_str()) {
            Some(e) => e,
            None => return Err(ItemError::NoExtension),
        };
        let hash = content_hash(bytes);
        let key = object_key(hash.as_str(), ext.as_str());
        let id = point_id(hash.as_str());
        Ok(IngestItem { path, file_name, hash, key, id })
    }
}

/// The record an indexed point carries besides its vector.
#[derive(Debug, Clone)]
pub struct PointRecord {
    /// Derived from the content hash alone.
    pub id: String,
    pub hash: String,
    /// The file name the image was ingested under.
    pub path: String,
    /// Where its blob can be fetched.
    pub url: String,
}

impl IngestItem {
    /// The point record of the item, with its blob's URL under `base_url`.
    pub fn point_record(&self, base_url: &str) -> (r: PointRecord)
        ensures
            r.id@ == self.id@,
            r.hash@ == self.hash@,
            r.path@ == self.file_name@,
            r.url@ == url_join_spec(base_url@, self.key@),
    {
        PointRecord {
            id: self.id.clone(),
            hash: self.hash.clone(),
            path: self.file_name.clone(),
            url: url_join(base_url, self.key.as_str()),
        }
    }

    /// The item as the blob store and vector index see it, given its bytes.
    pub open spec fn model(&self, base_url: Seq<char>, bytes: Seq<u8>) -> ItemModel {
        ItemModel {
            key: self.key@,
            id: self.id@,
            bytes,
            point: PointModel {
                hash: self.hash@,
                path: self.file_name@,
                url: url_join_spec(base_url, self.key@),
            },
        }
    }
}

/// Byte-identical files get the same content hash wherever they were found
/// and whatever they were called; when both can be ingested, they also get
/// the same point id.
pub proof fn lemma_hash_stability(
    path1: Seq<char>,
    path2: Seq<char>,
    bytes1: Seq<u8>,
    bytes2: Seq<u8>,
)
    requires
        bytes1 == bytes2,
    ensures
        content_hash_spec(bytes1) == content_hash_spec(bytes2),
        item_spec(path1, bytes1) is Ok && item_spec(path2, bytes2) is Ok ==> item_spec(
            path1,
            bytes1,
        )->Ok_0.1 == item_spec(path2, bytes2)->Ok_0.1 && item_spec(path1, bytes1)->Ok_0.3
            == item_spec(path2, bytes2)->Ok_0.3,
{
}

} // verus!
