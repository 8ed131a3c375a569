use image_tager::env_config::Config;

#[test]
fn variables_with_defaults() {
    let vars: Vec<(String, String)> = [
        ("BUCKET_NAME", "images"),
        ("QDRANT_URL", "http://localhost:6334"),
        ("PATH", "/usr/bin"),
        ("BUCKET_NAME", "later"),
    ]
    .iter()
    .map(|(k, v)| (k.to_string(), v.to_string()))
    .collect();
    let c = Config::from_vars(&vars);
    assert_eq!(c.bucket_name, "images");
    assert_eq!(c.qdrant_url, "http://localhost:6334");
    assert_eq!(c.device_id, "0");
    assert_eq!(c.access_key_id, "");
    assert_eq!(c.endpoint, "");
    assert_eq!(c.region, "");
    assert_eq!(c.secret_access_key, "");
    assert_eq!(c.collection_name, "");
}

#[test]
fn device_id_when_set() {
    let vars = vec![("DEVICE_ID".to_string(), "2".to_string())];
    assert_eq!(Config::from_vars(&vars).device_id, "2");
}
