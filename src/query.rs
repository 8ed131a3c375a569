use vstd::prelude::*;
use crate::content::{object_key, object_key_spec};
use crate::paths::{
    extension_of_name, extension_spec, file_name_of, is_image_path, is_image_path_spec, join_path,
    opt_view, parent_of, path_file_name, path_join, path_parent, select_images, select_images_spec,
};

verus! {

/// A search result, read from the payload of a scored point.
#[derive(Debug, Clone)]
pub struct Payload {
    /// The file name the image had when it was ingested.
    pub path: String,
    /// Its content hash.
    pub hash: String,
    /// The URL of its blob.
    pub url: String,
}

/// A payload field a search result must carry.
#[derive(Debug, Clone, Copy, PartialEq, Eq, Structural)]
pub enum PayloadField {
    Url,
    Path,
    Hash,
}

/// Why a query step failed.
#[derive(Debug, Clone, Copy, PartialEq, Eq, Structural)]
pub enum QueryError {
    /// A result's payload lacks a field, or holds no text in it.
    MissingField(PayloadField),
    /// The single probe file does not have an image extension.
    InvalidImageFormat,
    /// The probe file has no parent folder to name its tag after.
    NoParentFolder,
    /// A result's path has no file extension to find its blob by.
    NoExtension,
}

/// The name of a payload field.
pub open spec fn field_name(f: PayloadField) -> Seq<char> {
    match f {
        PayloadField::Url => seq!['u', 'r', 'l'],
        PayloadField::Path => seq!['p', 'a', 't', 'h'],
        PayloadField::Hash => seq!['h', 'a', 's', 'h'],
    }
}

/// The value of the first entry named `key`.
pub open spec fn lookup(fields: Seq<(String, String)>, key: Seq<char>) -> Option<Seq<char>>
    decreases fields.len(),
{
    if fields.len() == 0 {
        None
    } else if fields[0].0@ == key {
        Some(fields[0].1@)
    } else {
        lookup(fields.subrange(1, fields.len() as int), key)
    }
}

fn field_key(f: PayloadField) -> (r: String)
    ensures
        r@ == field_name(f),
{
    proof {
        reveal_strlit("url");
        reveal_strlit("path");
        reveal_strlit("hash");
    }
    match f {
        PayloadField::Url => String::from_str("url"),
        PayloadField::Path => String::from_str("path"),
        PayloadField::Hash => String::from_str("hash"),
    }
}

/// The value of the first entry named `key`.
pub fn find_entry(fields: &Vec<(String, String)>, key: &String) -> (r: Option<String>)
    ensures
        opt_view(r) == lookup(fields@, key@),
{
    let mut i: usize = 0;
    assert(fields@.subrange(0, fields@.len() as int) =~= fields@);
    while i < fields.len()
        invariant
            i <= fields@.len(),
            lookup(fields@, key@) == lookup(fields@.subrange(i as int, fields@.len() as int), key@),
        decreases fields@.len() - i,
    {
        let ghost rest = fields@.subrange(i as int, fields@.len() as int);
        assert(rest.subrange(1, rest.len() as int) =~= fields@.subrange(i + 1, fields@.len() as int));
        if fields[i].0 == *key {
            return Some(fields[i].1.clone());
        }
        i = i + 1;
    }
    None
}

/// The value of the first entry named after `f`.
fn find_field(fields: &Vec<(String, String)>, f: PayloadField) -> (r: Option<String>)
    ensures
        opt_view(r) == lookup(fields@, field_name(f)),
{
    let key = field_key(f);
    find_entry(fields, &key)
}

/// The payload read from a result's text fields, or the first of `url`,
/// `path`, `hash` that is missing.
pub open spec fn payload_spec(fields: Seq<(String, String)>) -> Result<
    (Seq<char>, Seq<char>, Seq<char>),
    QueryError,
> {
    match (
        lookup(fields, field_name(PayloadField::Url)),
        lookup(fields, field_name(PayloadField::Path)),
        lookup(fields, field_name(PayloadField::Hash)),
    ) {
        (None, _, _) => Err(QueryError::MissingField(PayloadField::Url)),
        (_, None, _) => Err(QueryError::MissingField(PayloadField::Path)),
        (_, _, None) => Err(QueryError::MissingField(PayloadField::Hash)),
        (Some(url), Some(path), Some(hash)) => Ok((path, hash, url)),
    }
}

impl Payload {
    /// (path, hash, url).
    pub open spec fn view(&self) -> (Seq<char>, Seq<char>, Seq<char>) {
        (self.path@, self.hash@, self.url@)
    }

    /// Builds the typed record from a result's payload, given as its
    /// (name, text) entries; fails on the first required field that is absent.
    pub fn from_fields(fields: &Vec<(String, String)>) -> (r: Result<Payload, QueryError>)
        ensures
            match (r, payload_spec(fields@)) {
                (Ok(p), Ok(v)) => p.view() == v,
                (Err(e), Err(f)) => e == f,
                _ => false,
            },
    {
        let url = match find_field(fields, PayloadField::Url) {
            Some(u) => u,
            None => return Err(QueryError::MissingField(PayloadField::Url)),
        };
        let path = match find_field(fields, PayloadField::Path) {
            Some(p) => p,
            None => return Err(QueryError::MissingField(PayloadField::Path)),
        };
        let hash = match find_field(fields, PayloadField::Hash) {
            Some(h) => h,
            None => return Err(QueryError::MissingField(PayloadField::Hash)),
        };
        Ok(Payload { path, hash, url })
    }

    /// The blob key the result's bytes were stored under:
    /// `"{hash}.{extension of path}"`.
    pub open spec fn blob_key_spec(&self) -> Option<Seq<char>> {
        match path_file_name(self.path@) {
            Some(name) => match extension_spec(name) {
                Some(ext) => Some(object_key_spec(self.hash@, ext)),
                None => None,
            },
            None => None,
        }
    }

    /// The blob key of the result, or `NoExtension` when its path has none.
    pub fn blob_key(&self) -> (r: Result<String, QueryError>)
        ensures
            match (r, self.blob_key_spec()) {
                (Ok(k), Some(s)) => k@ == s,
                (Err(e), None) => e == QueryError::NoExtension,
                _ => false,
            },
    {
        let name = match file_name_of(self.path.as_str()) {
            Some(n) => n,
            None => return Err(QueryError::NoExtension),
        };
        match extension_of_name(name.as_str()) {
            Some(ext) => Ok(object_key(self.hash.as_str(), ext.as_str())),
            None => Err(QueryError::NoExtension),
        }
    }

    /// Where the result is written: its path under the group's output folder.
    pub fn destination(&self, group_dir: &str) -> (r: String)
        ensures
            r@ == path_join(group_dir@, self.path@),
    {
        join_path(group_dir, self.path.as_str())
    }
}

/// Where a result's bytes are fetched from.
#[derive(Debug, Clone, PartialEq, Eq)]
pub enum DownloadSource {
    /// Direct retrieval from this URL.
    Url(String),
    /// A blob store download of this key.
    Blob(String),
}

/// Picks the source of a result's bytes: its URL when `use_url`, else its
/// blob key.
pub fn download_source(payload: &Payload, use_url: bool) -> (r: Result<DownloadSource, QueryError>)
    ensures
        use_url ==> (r matches Ok(DownloadSource::Url(u)) && u@ == payload.url@),
        !use_url ==> match (r, payload.blob_key_spec()) {
            (Ok(DownloadSource::Blob(k)), Some(s)) => k@ == s,
            (Err(e), None) => e == QueryError::NoExtension,
            _ => false,
        },
{
    if use_url {
        Ok(DownloadSource::Url(payload.url.clone()))
    } else {
        match payload.blob_key() {
            Ok(k) => Ok(DownloadSource::Blob(k)),
            Err(e) => Err(e),
        }
    }
}

/// A directory found under the probe root, with the paths of its entries.
#[derive(Debug, Clone)]
pub struct DirListing {
    pub dir: String,
    pub entries: Vec<String>,
}

/// Probe images grouped under one tag, searched together.
#[derive(Debug, Clone)]
pub struct TagGroup {
    /// The name of the folder the images came from.
    pub tag: String,
    /// The image files, in listing order.
    pub files: Vec<String>,
}

impl TagGroup {
    pub open spec fn view(&self) -> (Seq<char>, Seq<String>) {
        (self.tag@, self.files@)
    }
}

/// The output folder of a tag group: the tag's name under the output root.
pub fn group_output_dir(root: &str, tag: &str) -> (r: String)
    ensures
        r@ == path_join(root@, tag@),
{
    join_path(root, tag)
}

/// The group a listed directory gives: named after the directory, holding
/// its image entries; none when it has no name or no image.
pub open spec fn group_of(l: DirListing) -> Option<(Seq<char>, Seq<String>)> {
    match path_file_name(l.dir@) {
        Some(name) => if select_images_spec(l.entries@).len() > 0 {
            Some((name, select_images_spec(l.entries@)))
        } else {
            None
        },
        None => None,
    }
}

/// The groups of a sequence of listings, in order.
pub open spec fn tag_groups_spec(ls: Seq<DirListing>) -> Seq<(Seq<char>, Seq<String>)>
    decreases ls.len(),
{
    if ls.len() == 0 {
        seq![]
    } else {
        let rest = tag_groups_spec(ls.drop_last());
        match group_of(ls.last()) {
            Some(g) => rest.push(g),
            None => rest,
        }
    }
}

/// Groups the probe images by the directory that holds them, one group per
/// directory with at least one image.
pub fn tag_groups(listings: &Vec<DirListing>) -> (r: Vec<TagGroup>)
    ensures
        r@.map_values(|g: TagGroup| g.view()) == tag_groups_spec(listings@),
{
    let mut r: Vec<TagGroup> = Vec::new();
    for i in 0..listings.len()
        invariant
            r@.map_values(|g: TagGroup| g.view()) == tag_groups_spec(listings@.subrange(0, i as int)),
    {
        let ghost before = r@;
        proof {
            assert(listings@.subrange(0, i + 1).drop_last() =~= listings@.subrange(0, i as int));
        }
        let l = &listings[i];
        match file_name_of(l.dir.as_str()) {
            Some(tag) => {
                let files = select_images(&l.entries);
                if files.len() > 0 {
                    r.push(TagGroup { tag, files });
                    proof {
                        assert(r@.map_values(|g: TagGroup| g.view()) =~= before.map_values(
                            |g: TagGroup| g.view(),
                        ).push((tag@, files@)));
                    }
                }
            },
            None => {},
        }
    }
    proof {
        assert(listings@.subrange(0, listings@.len() as int) =~= listings@);
    }
    r
}

/// The group of a single probe file: named after its parent folder.
pub open spec fn single_group_spec(input: Seq<char>) -> Result<(Seq<char>, Seq<String>), QueryError> {
    if !is_image_path_spec(input) {
        Err(QueryError::InvalidImageFormat)
    } else {
        match path_parent(input) {
            Some(parent) => match path_file_name(parent) {
                Some(tag) => Ok((tag, seq![])),
                None => Err(QueryError::NoParentFolder),
            },
            None => Err(QueryError::NoParentFolder),
        }
    }
}

/// Makes the one group of a single probe image, tagged with its parent
/// folder's name.
pub fn single_image_group(input: &String) -> (r: Result<TagGroup, QueryError>)
    ensures
        match (r, single_group_spec(input@)) {
            (Ok(g), Ok(v)) => g.tag@ == v.0 && g.files@ == seq![*input],
            (Err(e), Err(f)) => e == f,
            _ => false,
        },
{
    if !is_image_path(input.as_str()) {
        return Err(QueryError::InvalidImageFormat);
    }
    let parent = match parent_of(input.as_str()) {
        Some(p) => p,
        None => return Err(QueryError::NoParentFolder),
    };
    let tag = match file_name_of(parent.as_str()) {
        Some(t) => t,
        None => return Err(QueryError::NoParentFolder),
    };
    let mut files: Vec<String> = Vec::new();
    files.push(input.clone());
    Ok(TagGroup { tag, files })
}

/// The folder results are written under: the one given, else an `output`
/// folder beside a probe directory, else the probe file's own folder.
pub fn output_root(input: &str, input_is_dir: bool, output: Option<String>) -> (r: Result<
    String,
    QueryError,
>)
    ensures
        forall|o: String| output == Some(o) ==> (r matches Ok(s) && s@ == o@),
        output is None ==> match (r, path_parent(input@)) {
            (Ok(s), Some(p)) => s@ == if input_is_dir {
                path_join(p, seq!['o', 'u', 't', 'p', 'u', 't'])
            } else {
                p
            },
            (Err(e), None) => e == QueryError::NoParentFolder,
            _ => false,
        },
{
    match output {
        Some(o) => Ok(o),
        None => match parent_of(input) {
            Some(p) => if input_is_dir {
                proof {
                    reveal_strlit("output");
                    assert("output"@ =~= seq!['o', 'u', 't', 'p', 'u', 't']);
                }
                Ok(join_path(p.as_str(), "output"))
            } else {
                Ok(p)
            },
            None => Err(QueryError::NoParentFolder),
        },
    }
}

} // verus!
