use vstd::prelude::*;

verus! {

/// What `std::path::Path::file_name` gives for a path, in the path syntax of
/// the build target: its last component, or nothing when the path ends in
/// `..` or is a bare root or prefix.
pub uninterp spec fn path_file_name(path: Seq<char>) -> Option<Seq<char>>;

/// What `std::path::Path::parent` gives for a path, in the path syntax of the
/// build target: the path without its last component, or nothing when it ends
/// in a root or prefix, or is empty.
pub uninterp spec fn path_parent(path: Seq<char>) -> Option<Seq<char>>;

/// What `std::path::Path::join` gives, in the path syntax of the build
/// target: `child` appended to `base` with one separator, or `child` alone
/// when it is absolute.
pub uninterp spec fn path_join(base: Seq<char>, child: Seq<char>) -> Seq<char>;

/// The view of an optional string.
pub open spec fn opt_view(s: Option<String>) -> Option<Seq<char>> {
    match s {
        Some(t) => Some(t@),
        None => None,
    }
}

/// Relies on `std::path::Path::file_name`; the path is built from a `&str`, so
/// the component it returns is valid UTF-8.
#[verifier::external_body]
pub(crate) fn file_name_of(path: &str) -> (r: Option<String>)
    ensures
        opt_view(r) == path_file_name(path@),
{
    std::path::Path::new(path).file_name().and_then(|n| n.to_str()).map(|n| n.to_string())
}

/// Relies on `std::path::Path::parent`; the path is built from a `&str`, so the
/// parent it returns is valid UTF-8.
#[verifier::external_body]
pub(crate) fn parent_of(path: &str) -> (r: Option<String>)
    ensures
        opt_view(r) == path_parent(path@),
{
    std::path::Path::new(path).parent().and_then(|p| p.to_str()).map(|p| p.to_string())
}

/// Relies on `std::path::Path::join`; both parts are valid UTF-8, and so is
/// the joined path.
#[verifier::external_body]
pub(crate) fn join_path(base: &str, child: &str) -> (r: String)
    ensures
        r@ == path_join(base@, child@),
{
    std::path::Path::new(base).join(child).to_string_lossy().into_owned()
}

/// The index of the last `'.'` in `s`, or -1 when there is none.
pub open spec fn last_dot(s: Seq<char>) -> int
    decreases s.len(),
{
    if s.len() == 0 {
        -1
    } else if s.last() == '.' {
        s.len() - 1
    } else {
        last_dot(s.drop_last())
    }
}

/// The extension of a file name as `Path::extension` defines it: what follows
/// the last `'.'`, unless there is no `'.'` or the only one starts the name.
pub open spec fn extension_spec(name: Seq<char>) -> Option<Seq<char>> {
    if last_dot(name) > 0 {
        Some(name.subrange(last_dot(name) + 1, name.len() as int))
    } else {
        None
    }
}

proof fn lemma_last_dot_bounds(s: Seq<char>)
    ensures
        -1 <= last_dot(s) < s.len(),
        last_dot(s) >= 0 ==> s[last_dot(s)] == '.',
    decreases s.len(),
{
    if s.len() > 0 && s.last() != '.' {
        lemma_last_dot_bounds(s.drop_last());
    }
}

/// The extension of a file name (see `extension_spec`).
pub fn extension_of_name(name: &str) -> (r: Option<String>)
    ensures
        opt_view(r) == extension_spec(name@),
{
    let len = name.unicode_len();
    let mut i: usize = len;
    assert(name@.subrange(0, len as int) =~= name@);
    // the characters at i.. hold no '.'
    while i > 0 && name.get_char(i - 1) != '.'
        invariant
            i <= len,
            len == name@.len(),
            last_dot(name@) == last_dot(name@.subrange(0, i as int)),
        decreases i,
    {
        proof {
            let s = name@.subrange(0, i as int);
            assert(s.drop_last() =~= name@.subrange(0, i - 1));
        }
        i = i - 1;
    }
    proof {
        let s = name@.subrange(0, i as int);
        if i == 0 {
            assert(last_dot(s) == -1);
        } else {
            assert(s.last() == '.');
        }
    }
    if i <= 1 {
        None
    } else {
        Some(name.substring_char(i, len).to_string())
    }
}

/// `c` is the ASCII letter or other character `l`, ignoring ASCII case, where
/// `l` is lower case.
pub open spec fn char_eq_ignore_case(c: char, l: char) -> bool {
    c == l || ('a' <= l <= 'z' && c as u32 + 32 == l as u32)
}

/// `s` equals the lower-case ASCII text `l`, ignoring ASCII case.
pub open spec fn eq_ignore_case(s: Seq<char>, l: Seq<char>) -> bool {
    s.len() == l.len() && forall|i: int| 0 <= i < s.len() ==> char_eq_ignore_case(#[trigger] s[i], l[i])
}

/// The file extensions the `image` crate maps to an image format, compared
/// ignoring ASCII case.
pub open spec fn known_image_extension(e: Seq<char>) -> bool {
    ||| eq_ignore_case(e, seq!['a', 'v', 'i', 'f'])
    ||| eq_ignore_case(e, seq!['j', 'p', 'g'])
    ||| eq_ignore_case(e, seq!['j', 'p', 'e', 'g'])
    ||| eq_ignore_case(e, seq!['j', 'f', 'i', 'f'])
    ||| eq_ignore_case(e, seq!['p', 'n', 'g'])
    ||| eq_ignore_case(e, seq!['a', 'p', 'n', 'g'])
    ||| eq_ignore_case(e, seq!['g', 'i', 'f'])
    ||| eq_ignore_case(e, seq!['w', 'e', 'b', 'p'])
    ||| eq_ignore_case(e, seq!['t', 'i', 'f'])
    ||| eq_ignore_case(e, seq!['t', 'i', 'f', 'f'])
    ||| eq_ignore_case(e, seq!['t', 'g', 'a'])
    ||| eq_ignore_case(e, seq!['d', 'd', 's'])
    ||| eq_ignore_case(e, seq!['b', 'm', 'p'])
    ||| eq_ignore_case(e, seq!['i', 'c', 'o'])
    ||| eq_ignore_case(e, seq!['h', 'd', 'r'])
    ||| eq_ignore_case(e, seq!['e', 'x', 'r'])
    ||| eq_ignore_case(e, seq!['p', 'b', 'm'])
    ||| eq_ignore_case(e, seq!['p', 'a', 'm'])
    ||| eq_ignore_case(e, seq!['p', 'p', 'm'])
    ||| eq_ignore_case(e, seq!['p', 'g', 'm'])
    ||| eq_ignore_case(e, seq!['p', 'n', 'm'])
    ||| eq_ignore_case(e, seq!['f', 'f'])
    ||| eq_ignore_case(e, seq!['q', 'o', 'i'])
}

/// Relies on `image::ImageFormat::from_extension`: it lower-cases the ASCII
/// letters of the extension and looks it up in a fixed list of extensions.
#[verifier::external_body]
fn is_image_extension(ext: &str) -> (r: bool)
    ensures
        r == known_image_extension(ext@),
{
    image::ImageFormat::from_extension(ext).is_some()
}

/// The path names a file whose extension the `image` crate recognises.
pub open spec fn is_image_path_spec(path: Seq<char>) -> bool {
    match path_file_name(path) {
        Some(name) => match extension_spec(name) {
            Some(e) => known_image_extension(e),
            None => false,
        },
        None => false,
    }
}

/// Whether the path names a file with an image extension; decoding is not
/// attempted.
pub fn is_image_path(path: &str) -> (r: bool)
    ensures
        r == is_image_path_spec(path@),
{
    match file_name_of(path) {
        Some(name) => match extension_of_name(name.as_str()) {
            Some(e) => is_image_extension(e.as_str()),
            None => false,
        },
        None => false,
    }
}

/// The paths of `paths` that name image files, in their order.
pub open spec fn select_images_spec(paths: Seq<String>) -> Seq<String> {
    paths.filter(|p: String| is_image_path_spec(p@))
}

/// Keeps the discovered paths that name image files, in their order.
pub fn select_images(paths: &Vec<String>) -> (r: Vec<String>)
    ensures
        r@ == select_images_spec(paths@),
{
    let mut r: Vec<String> = Vec::new();
    for i in 0..paths.len()
        invariant
            r@ == select_images_spec(paths@.subrange(0, i as int)),
    {
        proof {
            let s = paths@.subrange(0, i + 1);
            assert(s.drop_last() =~= paths@.subrange(0, i as int));
            reveal(Seq::filter);
        }
        if is_image_path(paths[i].as_str()) {
            r.push(paths[i].clone());
        }
    }
    proof {
        assert(paths@.subrange(0, paths@.len() as int) =~= paths@);
    }
    r
}

} // verus!
