use image_tager::content::object_key;
use image_tager::preprocess::{letterbox, Letterbox};
use image_tager::query::{
    download_source, group_output_dir, output_root, single_image_group, tag_groups, DirListing,
    DownloadSource, Payload, PayloadField, QueryError,
};

fn fields(entries: &[(&str, &str)]) -> Vec<(String, String)> {
    entries.iter().map(|(k, v)| (k.to_string(), v.to_string())).collect()
}

#[test]
fn payload_from_all_fields() {
    let p = Payload::from_fields(&fields(&[
        ("hash", "h1"),
        ("path", "cat.png"),
        ("url", "http://s3/b/h1.png"),
        ("path", "ignored.png"),
    ]))
    .unwrap();
    assert_eq!(p.path, "cat.png");
    assert_eq!(p.hash, "h1");
    assert_eq!(p.url, "http://s3/b/h1.png");
}

#[test]
fn payload_missing_fields() {
    let e = Payload::from_fields(&fields(&[("path", "a.png"), ("hash", "h")])).unwrap_err();
    assert_eq!(e, QueryError::MissingField(PayloadField::Url));
    let e = Payload::from_fields(&fields(&[("url", "u"), ("hash", "h")])).unwrap_err();
    assert_eq!(e, QueryError::MissingField(PayloadField::Path));
    let e = Payload::from_fields(&fields(&[("url", "u"), ("path", "a.png")])).unwrap_err();
    assert_eq!(e, QueryError::MissingField(PayloadField::Hash));
}

#[test]
fn download_sources() {
    let p = Payload { path: "cat.png".to_string(), hash: "h1".to_string(), url: "http://u".to_string() };
    assert_eq!(download_source(&p, true).unwrap(), DownloadSource::Url("http://u".to_string()));
    assert_eq!(download_source(&p, false).unwrap(), DownloadSource::Blob(object_key("h1", "png")));
    let q = Payload { path: "README".to_string(), hash: "h2".to_string(), url: "u".to_string() };
    assert_eq!(download_source(&q, false).unwrap_err(), QueryError::NoExtension);
    assert_eq!(q.blob_key().unwrap_err(), QueryError::NoExtension);
}

#[test]
fn destinations() {
    let p = Payload { path: "cat.png".to_string(), hash: "h".to_string(), url: "u".to_string() };
    assert_eq!(p.destination("out/cats"), "out/cats/cat.png");
    assert_eq!(group_output_dir("out", "cats"), "out/cats");
}

#[test]
fn grouping_by_folder() {
    let listings = vec![
        DirListing { dir: "root".to_string(), entries: vec!["root/cats".to_string(), "root/x.txt".to_string()] },
        DirListing {
            dir: "root/cats".to_string(),
            entries: vec!["root/cats/a.png".to_string(), "root/cats/b.txt".to_string(), "root/cats/c.jpg".to_string()],
        },
        DirListing { dir: "root/dogs".to_string(), entries: vec!["root/dogs/d.gif".to_string()] },
    ];
    let groups = tag_groups(&listings);
    assert_eq!(groups.len(), 2);
    assert_eq!(groups[0].tag, "cats");
    assert_eq!(groups[0].files, vec!["root/cats/a.png", "root/cats/c.jpg"]);
    assert_eq!(groups[1].tag, "dogs");
    assert_eq!(groups[1].files, vec!["root/dogs/d.gif"]);
    assert!(tag_groups(&Vec::new()).is_empty());
}

#[test]
fn single_probe_image() {
    let g = single_image_group(&"probes/cats/a.png".to_string()).unwrap();
    assert_eq!(g.tag, "cats");
    assert_eq!(g.files, vec!["probes/cats/a.png"]);
    assert_eq!(single_image_group(&"probes/cats/a.txt".to_string()).unwrap_err(), QueryError::InvalidImageFormat);
    assert_eq!(single_image_group(&"a.png".to_string()).unwrap_err(), QueryError::NoParentFolder);
}

#[test]
fn output_roots() {
    assert_eq!(output_root("/data/probes", true, Some("/tmp/out".to_string())).unwrap(), "/tmp/out");
    assert_eq!(output_root("/data/probes", true, None).unwrap(), "/data/output");
    assert_eq!(output_root("/data/probes/a.png", false, None).unwrap(), "/data/probes");
    assert_eq!(output_root("/", true, None).unwrap_err(), QueryError::NoParentFolder);
}

#[test]
fn letterbox_centres_the_image() {
    assert_eq!(letterbox(100, 50), Letterbox { side: 100, left: 0, top: 25 });
    assert_eq!(letterbox(31, 64), Letterbox { side: 64, left: 16, top: 0 });
    assert_eq!(letterbox(7, 7), Letterbox { side: 7, left: 0, top: 0 });
}
