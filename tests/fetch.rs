use std::collections::HashMap;

use google_fonts::fetch::CachePath;
use google_fonts::manifest::manifest_json;
use google_fonts::{
    abeezee_regular, ar_one_sans_bold, Action, Event, Font, FontError, FontFetch, Stage,
};

const JUNK_BODY: &str = ")]}'\n{\"manifest\":{\"fileRefs\":[{\"url\":\"http://x/y.ttf\"}]}}";

fn decode_urls(json: &[u8]) -> Result<Vec<String>, String> {
    let value: serde_json::Value = serde_json::from_slice(json).map_err(|e| e.to_string())?;
    let refs = value["manifest"]["fileRefs"].as_array().ok_or("no fileRefs".to_string())?;
    let mut urls = Vec::new();
    for r in refs {
        urls.push(r["url"].as_str().ok_or("no url".to_string())?.to_string());
    }
    Ok(urls)
}

fn key(p: &CachePath) -> String {
    format!("{}/{}/{}", p.root, p.folder, p.file)
}

struct World {
    files: HashMap<String, Vec<u8>>,
    manifest_body: Vec<u8>,
    download: Vec<u8>,
    manifest_calls: usize,
    download_calls: usize,
    requested_family: Vec<String>,
    requested_url: Vec<String>,
    fail_write: bool,
}

impl World {
    fn new(manifest_body: &str, download: &[u8]) -> World {
        World {
            files: HashMap::new(),
            manifest_body: manifest_body.as_bytes().to_vec(),
            download: download.to_vec(),
            manifest_calls: 0,
            download_calls: 0,
            requested_family: Vec::new(),
            requested_url: Vec::new(),
            fail_write: false,
        }
    }

    fn drive(&mut self, mut fetch: FontFetch) -> Result<Vec<u8>, FontError> {
        while let Some(action) = fetch.action() {
            let event = match action {
                Action::ProbeCache(p) => Event::CacheProbed(self.files.contains_key(&key(&p))),
                Action::ReadCache(p) => Event::CacheRead(
                    self.files.get(&key(&p)).cloned().ok_or("gone".to_string()),
                ),
                Action::PrepareCacheDir(_) => Event::CacheDirReady(Ok(())),
                Action::FetchManifest(name) => {
                    self.manifest_calls += 1;
                    self.requested_family.push(name);
                    Event::ManifestFetched(Ok(self.manifest_body.clone()))
                }
                Action::DecodeManifest(json) => Event::ManifestDecoded(decode_urls(&json)),
                Action::Download(url) => {
                    self.download_calls += 1;
                    self.requested_url.push(url);
                    Event::Downloaded(Ok(self.download.clone()))
                }
                Action::WriteCache(p, bytes) => {
                    if self.fail_write {
                        Event::CacheWritten(Err("read-only".to_string()))
                    } else {
                        self.files.insert(key(&p), bytes);
                        Event::CacheWritten(Ok(()))
                    }
                }
            };
            fetch = fetch.step(event);
        }
        fetch.finish().unwrap()
    }
}

#[test]
fn manifest_junk_prefix_is_stripped() {
    let json = manifest_json(JUNK_BODY.as_bytes().to_vec());
    assert_eq!(json, b"{\"manifest\":{\"fileRefs\":[{\"url\":\"http://x/y.ttf\"}]}}".to_vec());
    let urls = decode_urls(&json).unwrap();
    assert_eq!(urls, vec!["http://x/y.ttf".to_string()]);
}

#[test]
fn manifest_without_prefix_or_brace_is_kept() {
    assert_eq!(manifest_json(b"{\"a\":1}".to_vec()), b"{\"a\":1}".to_vec());
    assert_eq!(manifest_json(b"no json".to_vec()), b"no json".to_vec());
    assert_eq!(manifest_json(Vec::new()), Vec::<u8>::new());
    assert_eq!(manifest_json(b"xx{a}{b}".to_vec()), b"{a}{b}".to_vec());
}

#[test]
fn cache_miss_then_hit() {
    let bytes = b"font bytes".to_vec();
    let mut world = World::new(JUNK_BODY, &bytes);
    let first = world.drive(abeezee_regular(Some("/cache".to_string())));
    assert_eq!(first.unwrap(), bytes);
    assert_eq!(world.files.get("/cache/google-fonts/ABeeZeeRegular.ttf"), Some(&bytes));
    assert_eq!(world.requested_family, vec!["ABeeZee".to_string()]);
    assert_eq!(world.requested_url, vec!["http://x/y.ttf".to_string()]);
    assert_eq!((world.manifest_calls, world.download_calls), (1, 1));

    let second = world.drive(abeezee_regular(Some("/cache".to_string())));
    assert_eq!(second.unwrap(), bytes);
    assert_eq!((world.manifest_calls, world.download_calls), (1, 1));
}

#[test]
fn cache_idempotence_counts_one_fetch_each() {
    let mut world = World::new(JUNK_BODY, b"data");
    for _ in 0..3 {
        let r = world.drive(FontFetch::cached(Font::ABeeZeeRegular, Some("/c".to_string())));
        assert_eq!(r.unwrap(), b"data".to_vec());
    }
    assert_eq!(world.manifest_calls, 1);
    assert_eq!(world.download_calls, 1);
}

#[test]
fn missing_cache_directory() {
    let mut world = World::new(JUNK_BODY, b"data");
    let fetch = abeezee_regular(None);
    assert!(fetch.is_done());
    assert!(fetch.action().is_none());
    match world.drive(fetch) {
        Err(FontError::CacheDir(e)) => assert_eq!(e.message(), "Missing cache directory"),
        other => panic!("unexpected outcome {:?}", other),
    }
    assert_eq!((world.manifest_calls, world.download_calls), (0, 0));
}

#[test]
fn index_mismatch() {
    let body = "{\"manifest\":{\"fileRefs\":[{\"url\":\"http://x/a.ttf\"},{\"url\":\"http://x/b.ttf\"}]}}";
    let mut world = World::new(body, b"data");
    match world.drive(ar_one_sans_bold(Some("/c".to_string()))) {
        Err(FontError::Index { position, available }) => {
            assert_eq!((position, available), (3, 2));
        }
        other => panic!("unexpected outcome {:?}", other),
    }
    assert_eq!(world.download_calls, 0);
    assert!(world.files.is_empty());
}

#[test]
fn selects_file_at_font_position() {
    let body = "xx{\"manifest\":{\"fileRefs\":[{\"url\":\"u0\"},{\"url\":\"u1\"},{\"url\":\"u2\"},{\"url\":\"u3\"}]}}";
    let mut world = World::new(body, b"bold");
    let r = world.drive(FontFetch::uncached(Font::AROneSansBold));
    assert_eq!(r.unwrap(), b"bold".to_vec());
    assert_eq!(world.requested_family, vec!["AR One Sans".to_string()]);
    assert_eq!(world.requested_url, vec!["u3".to_string()]);
    assert!(world.files.is_empty());
}

#[test]
fn malformed_manifest_is_deserialize_error() {
    let mut world = World::new(")]}' not json", b"data");
    let r = world.drive(FontFetch::uncached(Font::AcmeRegular));
    assert!(matches!(r, Err(FontError::Deserialize(_))));
    assert_eq!(world.download_calls, 0);
}

#[test]
fn failed_write_is_cache_file_error() {
    let mut world = World::new(JUNK_BODY, b"data");
    world.fail_write = true;
    let r = world.drive(FontFetch::cached(Font::AcmeRegular, Some("/c".to_string())));
    match r {
        Err(FontError::CacheFile(m)) => assert_eq!(m, "read-only"),
        other => panic!("unexpected outcome {:?}", other),
    }
}

#[test]
fn transport_failures_are_network_errors() {
    let fetch = FontFetch::uncached(Font::AbelRegular);
    let fetch = fetch.step(Event::ManifestFetched(Err("timeout".to_string())));
    match fetch.finish() {
        Some(Err(FontError::Network(m))) => assert_eq!(m, "timeout"),
        other => panic!("unexpected outcome {:?}", other),
    }

    let fetch = FontFetch::uncached(Font::AbelRegular)
        .step(Event::ManifestFetched(Ok(JUNK_BODY.as_bytes().to_vec())))
        .step(Event::ManifestDecoded(Ok(vec!["u".to_string()])))
        .step(Event::Downloaded(Err("reset".to_string())));
    assert!(matches!(fetch.finish(), Some(Err(FontError::Network(_)))));
}

#[test]
fn cache_read_and_dir_failures_are_cache_file_errors() {
    let fetch = FontFetch::cached(Font::AbelRegular, Some("/c".to_string()))
        .step(Event::CacheProbed(true))
        .step(Event::CacheRead(Err("denied".to_string())));
    assert!(matches!(fetch.finish(), Some(Err(FontError::CacheFile(_)))));

    let fetch = FontFetch::cached(Font::AbelRegular, Some("/c".to_string()))
        .step(Event::CacheProbed(false))
        .step(Event::CacheDirReady(Err("denied".to_string())));
    assert!(matches!(fetch.finish(), Some(Err(FontError::CacheFile(_)))));
}

#[test]
fn unrelated_event_changes_nothing() {
    let fetch = FontFetch::cached(Font::AbelRegular, Some("/c".to_string()))
        .step(Event::Downloaded(Ok(vec![1, 2])));
    assert!(matches!(fetch.stage(), Stage::Probing));
    match fetch.action() {
        Some(Action::ProbeCache(p)) => {
            assert_eq!(key(&p), "/c/google-fonts/AbelRegular.ttf");
        }
        _ => panic!("expected a probe"),
    }
    assert!(fetch.finish().is_none());
}
