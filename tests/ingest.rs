use std::collections::HashMap;

use image_tager::batching::{chunk_ranges, reduction_ranges};
use image_tager::content::{point_id, IngestItem, PointRecord};
use image_tager::ingest::{
    ingest_step, pair_with_vectors, plan_collection, start, Action, BatchError, CollectionPlan,
    Event, Stage, StartupError,
};
use image_tager::query::{download_source, DownloadSource, Payload};

/// In-memory stand-ins for the blob store, the vector index and the
/// embedding service.
#[derive(Default)]
struct Fakes {
    blobs: HashMap<String, Vec<u8>>,
    points: HashMap<String, (Vec<f32>, PointRecord)>,
    embed_calls: usize,
    uploads: usize,
}

fn embed(bytes: &[u8]) -> Vec<f32> {
    let mut v = vec![0f32; 8];
    for b in bytes {
        v[(*b % 8) as usize] += 1.0;
    }
    v
}

fn cosine(a: &[f32], b: &[f32]) -> f32 {
    let dot: f32 = a.iter().zip(b).map(|(x, y)| x * y).sum();
    let na: f32 = a.iter().map(|x| x * x).sum::<f32>().sqrt();
    let nb: f32 = b.iter().map(|x| x * x).sum::<f32>().sqrt();
    dot / (na * nb)
}

fn ingest(f: &mut Fakes, files: &[(&str, Vec<u8>)], base_url: &str) {
    for (path, bytes) in files {
        let item = IngestItem::from_content(path.to_string(), bytes).unwrap();
        let (mut stage, mut action) = start();
        let mut vector = None;
        loop {
            let event = match action {
                Action::CheckBlob => Event::BlobPresence(f.blobs.contains_key(&item.key)),
                Action::Decode => Event::Decoded,
                Action::Embed => {
                    f.embed_calls += 1;
                    vector = Some(embed(bytes));
                    Event::Embedded
                }
                Action::Upload => {
                    f.blobs.insert(item.key.clone(), bytes.clone());
                    f.uploads += 1;
                    Event::Uploaded
                }
                Action::Upsert => {
                    let record = item.point_record(base_url);
                    f.points.insert(record.id.clone(), (vector.clone().unwrap(), record));
                    Event::Upserted
                }
                Action::Report | Action::Done => break,
            };
            let next = ingest_step(stage, event);
            stage = next.0;
            action = next.1;
        }
        assert!(stage == Stage::Indexed || stage == Stage::Skipped);
    }
}

fn three_images() -> Vec<(&'static str, Vec<u8>)> {
    vec![
        ("imgs/a.png", vec![0u8, 0, 0, 1, 9, 17]),
        ("imgs/b.png", vec![2u8, 2, 2, 3, 3, 10]),
        ("imgs/sub/c.png", vec![4u8, 5, 6, 7, 7, 7, 7]),
    ]
}

#[test]
fn step_table() {
    assert_eq!(start(), (Stage::Hashed, Action::CheckBlob));
    assert_eq!(ingest_step(Stage::Hashed, Event::BlobPresence(true)), (Stage::Skipped, Action::Done));
    assert_eq!(ingest_step(Stage::Hashed, Event::BlobPresence(false)), (Stage::Decoding, Action::Decode));
    assert_eq!(ingest_step(Stage::Decoding, Event::Decoded), (Stage::Embedding, Action::Embed));
    assert_eq!(ingest_step(Stage::Embedding, Event::Embedded), (Stage::Uploading, Action::Upload));
    assert_eq!(ingest_step(Stage::Uploading, Event::Uploaded), (Stage::Indexing, Action::Upsert));
    assert_eq!(ingest_step(Stage::Indexing, Event::Upserted), (Stage::Indexed, Action::Done));
    assert_eq!(ingest_step(Stage::Embedding, Event::Failure), (Stage::Failed, Action::Report));
    assert_eq!(ingest_step(Stage::Decoding, Event::Uploaded), (Stage::Failed, Action::Report));
    assert_eq!(ingest_step(Stage::Skipped, Event::Decoded), (Stage::Skipped, Action::Done));
}

#[test]
fn present_blob_short_circuits() {
    let bytes = vec![1u8, 2, 3];
    let item = IngestItem::from_content("x/pic.png".to_string(), &bytes).unwrap();
    let mut f = Fakes::default();
    f.blobs.insert(format!("{}.png", item.hash), bytes.clone());
    ingest(&mut f, &[("x/pic.png", bytes)], "http://s3/b");
    assert_eq!(f.embed_calls, 0);
    assert_eq!(f.uploads, 0);
    assert!(f.points.is_empty());
}

#[test]
fn ingest_twice_is_idempotent() {
    let mut f = Fakes::default();
    let files = vec![("x/pic.png", vec![5u8, 6, 7])];
    ingest(&mut f, &files, "http://s3/b");
    assert_eq!((f.blobs.len(), f.points.len(), f.embed_calls, f.uploads), (1, 1, 1, 1));
    let ids: Vec<String> = f.points.keys().cloned().collect();
    ingest(&mut f, &files, "http://s3/b");
    assert_eq!((f.blobs.len(), f.points.len(), f.embed_calls, f.uploads), (1, 1, 1, 1));
    assert_eq!(f.points.keys().cloned().collect::<Vec<_>>(), ids);
}

#[test]
fn vectors_pair_by_position() {
    let pairs = pair_with_vectors(vec!["a", "b", "c"], vec![vec![1.0f32], vec![2.0], vec![3.0]]).unwrap();
    assert_eq!(pairs, vec![("a", vec![1.0f32]), ("b", vec![2.0]), ("c", vec![3.0])]);
    let single = pair_with_vectors(vec![7u8], vec![0.5f32]).unwrap();
    assert_eq!(single, vec![(7u8, 0.5f32)]);
    assert_eq!(
        pair_with_vectors(vec![1, 2], vec![0.5f32]).unwrap_err(),
        BatchError::LengthMismatch { expected: 2, got: 1 }
    );
}

#[test]
fn collection_bootstrap() {
    assert_eq!(plan_collection(None, 768), Ok(CollectionPlan::Create { dimension: 768 }));
    assert_eq!(plan_collection(Some(768), 768), Ok(CollectionPlan::UseExisting));
    assert_eq!(
        plan_collection(Some(512), 768),
        Err(StartupError::DimensionMismatch { expected: 768, found: 512 })
    );
}

#[test]
fn end_to_end_three_images() {
    let base = "http://s3:9000/images";
    let files = three_images();
    let mut f = Fakes::default();
    ingest(&mut f, &files, base);
    assert_eq!(f.blobs.len(), 3);
    assert_eq!(f.points.len(), 3);
    for (id, (_, record)) in &f.points {
        assert_eq!(*id, point_id(&record.hash));
    }

    // query with the second image as the only probe
    let (probe_path, probe_bytes) = &files[1];
    let probe = IngestItem::from_content(probe_path.to_string(), probe_bytes).unwrap();
    let vectors = vec![embed(probe_bytes)];
    let ranges = reduction_ranges(vectors.len());
    assert_eq!(ranges, vec![(0, 1)]);
    let query: Vec<Vec<f32>> = ranges.iter().map(|(s, _)| vectors[*s].clone()).collect();
    assert_eq!(query, vectors);

    let (limit, threshold) = (1usize, 0.0f32);
    let mut scored: Vec<(f32, &PointRecord)> = f
        .points
        .values()
        .map(|(v, r)| (query.iter().map(|q| cosine(q, v)).fold(f32::MIN, f32::max), r))
        .filter(|(s, _)| *s > threshold)
        .collect();
    scored.sort_by(|a, b| b.0.partial_cmp(&a.0).unwrap());
    scored.truncate(limit);
    assert_eq!(scored.len(), 1);

    let record = scored[0].1;
    let payload = Payload::from_fields(&vec![
        ("path".to_string(), record.path.clone()),
        ("hash".to_string(), record.hash.clone()),
        ("url".to_string(), record.url.clone()),
    ])
    .unwrap();
    assert_eq!(payload.hash, probe.hash);
    match download_source(&payload, false).unwrap() {
        DownloadSource::Blob(key) => assert_eq!(f.blobs[&key], *probe_bytes),
        DownloadSource::Url(_) => panic!("expected a blob download"),
    }
    assert_eq!(payload.url, format!("{}/{}", base, probe.key));
}

#[test]
fn sub_batches_keep_alignment() {
    let items: Vec<u32> = (0..10).collect();
    let vectors: Vec<f32> = (0..10).map(|i| i as f32 * 0.5).collect();
    let mut joined = Vec::new();
    for (s, e) in chunk_ranges(items.len(), 3) {
        joined.extend(pair_with_vectors(items[s..e].to_vec(), vectors[s..e].to_vec()).unwrap());
    }
    assert_eq!(joined, pair_with_vectors(items, vectors).unwrap());
}
