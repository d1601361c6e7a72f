use figma_mcp::figma::client::status_is_success;
use figma_mcp::figma::image_cache::{ImageCache, ImageEntry};
use figma_mcp::scale::Scale;
use figma_mcp::server::{
    begin_read, begin_read_now, blob_contents, depth_or_default, describe_resource, exported_images,
    failure_text, finish_read, format_or_default, register_exports, register_exports_at,
    register_payload_at, render_payload, scale_or_default, shown_text, split_node_ids, Download,
    ExportedImage, ReadStep, Tool,
};
use figma_mcp::timestamp::Timestamp;
use figma_mcp::Error;
use serde_json::Value;

fn scale(factor: f64) -> Scale {
    Scale::from_bits(factor.to_bits())
}

fn cache_with_one(at: u64) -> (ImageCache, String) {
    let mut cache = ImageCache::new();
    let uri = cache.register_export_at(
        "ABC123".to_string(),
        "1:2".to_string(),
        "png".to_string(),
        scale(1.0),
        "https://cdn/img".to_string(),
        Timestamp::from_secs(at),
    );
    (cache, uri)
}

fn good_answer(body: Vec<u8>) -> Download {
    Download::Answered { code: 200, status: "200 OK".to_string(), body: Ok(body) }
}

#[test]
fn read_of_an_unknown_uri_is_not_found() {
    let (cache, _) = cache_with_one(100);
    match begin_read(&cache, "figma://file/none", &Timestamp::from_secs(100)) {
        ReadStep::Fail(Error::NotFound(message)) => assert_eq!(message, "Resource not found: figma://file/none"),
        other => panic!("unexpected: {:?}", other),
    }
}

#[test]
fn read_of_a_fresh_entry_asks_for_a_download() {
    let (cache, uri) = cache_with_one(100);
    match begin_read(&cache, &uri, &Timestamp::from_secs(3_700)) {
        ReadStep::Download { url, format } => {
            assert_eq!(url, "https://cdn/img");
            assert_eq!(format, "png");
        }
        other => panic!("unexpected: {:?}", other),
    }
}

#[test]
fn read_of_an_expired_entry_fails() {
    let (cache, uri) = cache_with_one(100);
    match begin_read(&cache, &uri, &Timestamp::from_secs(3_701)) {
        ReadStep::Fail(Error::Expired(message)) => {
            assert_eq!(message, "Figma URL has expired. Please re-export the image.")
        }
        other => panic!("unexpected: {:?}", other),
    }
    // Half a second past the hour is past the hour.
    assert!(matches!(
        begin_read(&cache, &uri, &Timestamp::new(3_700, 500_000_000)),
        ReadStep::Fail(Error::Expired(_))
    ));
    assert!(matches!(begin_read(&cache, &uri, &Timestamp::new(3_700, 0)), ReadStep::Download { .. }));
}

#[test]
fn read_of_kept_bytes_needs_no_download_even_when_expired() {
    let (mut cache, uri) = cache_with_one(100);
    cache.update_cached_data(&uri, vec![7, 8, 9]).unwrap();
    for now in [100u64, 3_700, 3_701, 10_000_000, 0] {
        match begin_read(&cache, &uri, &Timestamp::from_secs(now)) {
            ReadStep::Serve { data, format } => {
                assert_eq!(data, vec![7, 8, 9]);
                assert_eq!(format, "png");
            }
            other => panic!("unexpected: {:?}", other),
        }
    }
}

#[test]
fn read_by_the_clock() {
    let (mut cache, old) = cache_with_one(100);
    assert!(matches!(begin_read_now(&cache, &old), ReadStep::Fail(Error::Expired(_))));
    assert!(matches!(begin_read_now(&cache, "nothing"), ReadStep::Fail(Error::NotFound(_))));
    let fresh = cache.register_export(
        "K".to_string(),
        "5:5".to_string(),
        "svg".to_string(),
        scale(2.0),
        "https://cdn/fresh".to_string(),
    );
    assert!(matches!(begin_read_now(&cache, &fresh), ReadStep::Download { .. }));
    cache.update_cached_data(&old, vec![1]).unwrap();
    assert!(matches!(begin_read_now(&cache, &old), ReadStep::Serve { .. }));
}

#[test]
fn good_download_is_kept_and_handed_out() {
    let (mut cache, uri) = cache_with_one(100);
    let outcome = finish_read(&mut cache, &uri, good_answer(vec![0x89, 0x50]));
    assert_eq!(outcome.unwrap(), vec![0x89, 0x50]);
    assert_eq!(cache.get_entry(&uri).unwrap().cached_data, Some(vec![0x89, 0x50]));
    assert!(matches!(begin_read(&cache, &uri, &Timestamp::from_secs(100)), ReadStep::Serve { .. }));
}

#[test]
fn second_download_wins() {
    let (mut cache, uri) = cache_with_one(100);
    finish_read(&mut cache, &uri, good_answer(vec![1])).unwrap();
    finish_read(&mut cache, &uri, good_answer(vec![2])).unwrap();
    assert_eq!(cache.get_entry(&uri).unwrap().cached_data, Some(vec![2]));
}

#[test]
fn download_for_a_uri_that_is_gone_is_handed_out_and_not_kept() {
    let mut cache = ImageCache::new();
    let outcome = finish_read(&mut cache, "figma://file/gone", good_answer(vec![1, 2]));
    assert_eq!(outcome.unwrap(), vec![1, 2]);
    assert_eq!(cache.len(), 0);
}

#[test]
fn failed_download_leaves_the_cache_alone() {
    let (mut cache, uri) = cache_with_one(100);
    match finish_read(&mut cache, &uri, Download::SendFailed("connection refused".to_string())) {
        Err(Error::Network(message)) => assert_eq!(message, "Failed to download image: connection refused"),
        other => panic!("unexpected: {:?}", other),
    }
    let refused = Download::Answered { code: 403, status: "403 Forbidden".to_string(), body: Ok(vec![1, 2, 3]) };
    match finish_read(&mut cache, &uri, refused) {
        Err(Error::Network(message)) => assert_eq!(message, "Failed to download image: HTTP 403 Forbidden"),
        other => panic!("unexpected: {:?}", other),
    }
    let broken = Download::Answered { code: 200, status: "200 OK".to_string(), body: Err("early eof".to_string()) };
    match finish_read(&mut cache, &uri, broken) {
        Err(Error::Network(message)) => assert_eq!(message, "Failed to read image data: early eof"),
        other => panic!("unexpected: {:?}", other),
    }
    assert_eq!(cache.get_entry(&uri).unwrap().cached_data, None);
    assert_eq!(cache.len(), 1);
}

#[test]
fn success_is_the_range_from_200_to_299() {
    for code in 0..=u16::MAX {
        assert_eq!(status_is_success(code), (200..300).contains(&code));
    }
    let (mut cache, uri) = cache_with_one(100);
    for code in [199u16, 300, 301, 404, 500, 0] {
        let answer = Download::Answered { code, status: code.to_string(), body: Ok(vec![1]) };
        assert!(finish_read(&mut cache, &uri, answer).is_err());
    }
    for code in [200u16, 204, 299] {
        let answer = Download::Answered { code, status: code.to_string(), body: Ok(vec![1]) };
        assert!(finish_read(&mut cache, &uri, answer).is_ok());
    }
}

#[test]
fn blob_contents_hold_base64_and_mime_type() {
    let contents = blob_contents("figma://file/K/node/1:2.png", "PNG", &vec![0x89, 0x50, 0x4e, 0x47]);
    assert_eq!(contents.uri, "figma://file/K/node/1:2.png");
    assert_eq!(contents.mime_type, "image/png");
    assert_eq!(contents.blob, "iVBORw==");
    assert_eq!(blob_contents("u", "bin", &vec![]).blob, "");
    assert_eq!(blob_contents("u", "bin", &vec![]).mime_type, "application/octet-stream");
    assert_eq!(blob_contents("u", "svg", &b"hello world~".to_vec()).blob, "aGVsbG8gd29ybGR+");
    assert_eq!(blob_contents("u", "svg", &vec![0xff, 0xfe]).blob, "//4=");
    assert_eq!(blob_contents("u", "svg", &vec![0]).blob, "AA==");
    assert_eq!(blob_contents("u", "svg", &vec![0, 0, 0]).blob, "AAAA");
}

#[test]
fn defaults_of_the_operations() {
    assert_eq!(format_or_default(None), "png");
    assert_eq!(format_or_default(Some("svg".to_string())), "svg");
    assert_eq!(format_or_default(Some(String::new())), "");
    assert_eq!(scale_or_default(None), scale(1.0));
    assert_eq!(scale_or_default(Some(scale(4.0))), scale(4.0));
    assert_eq!(depth_or_default(None), 1);
    assert_eq!(depth_or_default(Some(0)), 0);
    assert_eq!(depth_or_default(Some(3)), 3);
}

#[test]
fn node_ids_are_split_at_commas_and_trimmed() {
    assert_eq!(split_node_ids("1:2"), vec!["1:2"]);
    assert_eq!(split_node_ids("1:2,3:4"), vec!["1:2", "3:4"]);
    assert_eq!(split_node_ids(" 1:2 ,\t3:4\n, 5:6"), vec!["1:2", "3:4", "5:6"]);
    assert_eq!(split_node_ids(""), vec![""]);
    assert_eq!(split_node_ids("1:2,"), vec!["1:2", ""]);
    assert_eq!(split_node_ids(",, ,"), vec!["", "", "", ""]);
    assert_eq!(split_node_ids("a b"), vec!["a b"]);
}

fn image(node_id: &str, url: Option<&str>) -> ExportedImage {
    ExportedImage { node_id: node_id.to_string(), url: url.map(|u| u.to_string()) }
}

#[test]
fn exports_are_registered_in_order() {
    let mut cache = ImageCache::new();
    let images = vec![
        image("1:2", Some("https://cdn/a")),
        image("3:4", None),
        image("5:6", Some("https://cdn/c")),
        image("1:2", Some("https://cdn/a2")),
    ];
    let uris = register_exports_at(&mut cache, "K", "png", scale(2.0), &images, Timestamp::from_secs(50));
    assert_eq!(
        uris,
        vec!["figma://file/K/node/1:2@2x.png", "figma://file/K/node/5:6@2x.png", "figma://file/K/node/1:2@2x.png"]
    );
    let list = cache.list_all();
    assert_eq!(list.len(), 2);
    assert_eq!(list[0].0, "figma://file/K/node/1:2@2x.png");
    assert_eq!(list[0].1.figma_url, "https://cdn/a2");
    assert_eq!(list[0].1.export_time, Timestamp::from_secs(50));
    assert_eq!(list[0].1.scale, scale(2.0));
    assert_eq!(list[1].0, "figma://file/K/node/5:6@2x.png");
    assert_eq!(list[1].1.figma_url, "https://cdn/c");
    assert!(cache.get_entry("figma://file/K/node/3:4@2x.png").is_none());
}

#[test]
fn export_over_an_entry_with_bytes_resets_it() {
    let (mut cache, uri) = cache_with_one(100);
    cache.update_cached_data(&uri, vec![1]).unwrap();
    register_exports_at(&mut cache, "ABC123", "png", scale(1.0), &vec![image("1:2", Some("https://new"))], Timestamp::from_secs(200));
    let entry = cache.get_entry(&uri).unwrap();
    assert_eq!(entry.cached_data, None);
    assert_eq!(entry.figma_url, "https://new");
    assert_eq!(entry.export_time, Timestamp::from_secs(200));
}

#[test]
fn export_of_nothing_changes_nothing() {
    let (mut cache, uri) = cache_with_one(100);
    assert!(register_exports_at(&mut cache, "K", "png", scale(1.0), &vec![], Timestamp::from_secs(200)).is_empty());
    assert!(register_exports_at(&mut cache, "K", "png", scale(1.0), &vec![image("9:9", None)], Timestamp::from_secs(200))
        .is_empty());
    assert_eq!(cache.len(), 1);
    assert_eq!(cache.get_entry(&uri).unwrap().export_time, Timestamp::from_secs(100));
}

#[test]
fn exports_by_the_clock_share_one_time() {
    let mut cache = ImageCache::new();
    register_exports(&mut cache, "K", "jpg", scale(1.0), &vec![image("1:1", Some("https://a")), image("2:2", Some("https://b"))]);
    let list = cache.list_all();
    assert_eq!(list.len(), 2);
    assert_eq!(list[0].1.export_time, list[1].1.export_time);
    assert!(!cache.is_expired(&list[0].1));
}

fn json(text: &str) -> Value {
    serde_json::from_str(text).unwrap()
}

#[test]
fn images_are_read_from_the_answer() {
    let payload = json(r#"{"err":null,"images":{"1:2":"https://cdn/a","3:4":null,"5:6":"https://cdn/c","7:8":17}}"#);
    let images = exported_images(&payload);
    let pairs: Vec<(&str, Option<&str>)> = images.iter().map(|i| (i.node_id.as_str(), i.url.as_deref())).collect();
    assert_eq!(
        pairs,
        vec![("1:2", Some("https://cdn/a")), ("3:4", None), ("5:6", Some("https://cdn/c")), ("7:8", None)]
    );
    assert!(exported_images(&json(r#"{"images":[]}"#)).is_empty());
    assert!(exported_images(&json(r#"{"images":"x"}"#)).is_empty());
    assert!(exported_images(&json(r#"{"image":{"1:2":"u"}}"#)).is_empty());
    assert!(exported_images(&json(r#"["images"]"#)).is_empty());
    assert!(exported_images(&json(r#"{"images":{}}"#)).is_empty());
}

#[test]
fn images_of_the_answer_are_registered() {
    let mut cache = ImageCache::new();
    let payload = json(r#"{"images":{"1:2":"https://cdn/a","3:4":null}}"#);
    let uris = register_payload_at(&mut cache, "K", "png", scale(1.0), &payload, Timestamp::from_secs(9));
    assert_eq!(uris, vec!["figma://file/K/node/1:2.png"]);
    assert_eq!(cache.len(), 1);
    let entry = cache.get_entry("figma://file/K/node/1:2.png").unwrap();
    assert_eq!(entry.figma_url, "https://cdn/a");
    assert_eq!(entry.export_time, Timestamp::from_secs(9));
}

#[test]
fn payload_is_shown_over_several_lines() {
    assert_eq!(render_payload(&json(r#"{"a":1,"b":[true,null]}"#)), "{\n  \"a\": 1,\n  \"b\": [\n    true,\n    null\n  ]\n}");
    assert_eq!(render_payload(&json("null")), "null");
    assert_eq!(render_payload(&json(r#""x""#)), "\"x\"");
    assert_eq!(shown_text(Ok("{}".to_string())), "{}");
    assert_eq!(shown_text(Err("key must be a string".to_string())), "Serialization error: key must be a string");
}

fn entry(cached: Option<Vec<u8>>) -> ImageEntry {
    ImageEntry {
        file_key: "ABC123".to_string(),
        node_id: "1:2".to_string(),
        format: "PNG".to_string(),
        scale: scale(2.0),
        figma_url: "https://cdn/a".to_string(),
        cached_data: cached,
        export_time: Timestamp::from_secs(1),
    }
}

#[test]
fn resource_is_described_for_the_listing() {
    let info = describe_resource("figma://file/ABC123/node/1:2@2x.PNG", &entry(None), "2");
    assert_eq!(info.uri, "figma://file/ABC123/node/1:2@2x.PNG");
    assert_eq!(info.name, "Node 1:2 Export");
    assert_eq!(info.description, "Exported from Figma file ABC123 as PNG (2x scale)");
    assert_eq!(info.mime_type, "image/png");
    assert_eq!(info.size, None);

    let info = describe_resource("u", &entry(Some(vec![0; 1234])), "0.5");
    assert_eq!(info.description, "Exported from Figma file ABC123 as PNG (0.5x scale)");
    assert_eq!(info.size, Some(1234));
    assert_eq!(describe_resource("u", &entry(Some(vec![])), "1").size, Some(0));
}

#[test]
fn failure_of_each_operation_is_labelled() {
    let error = Error::InvalidUrl("Not a Figma URL: x".to_string());
    assert_eq!(failure_text(Tool::ParseUrl, &error), "Error parsing URL: Invalid URL: Not a Figma URL: x");
    let error = Error::FigmaApi("HTTP 404 Not Found: {}".to_string());
    assert_eq!(failure_text(Tool::GetFile, &error), "Error fetching file: Figma API error: HTTP 404 Not Found: {}");
    assert_eq!(failure_text(Tool::GetFileNodes, &error), "Error fetching file nodes: Figma API error: HTTP 404 Not Found: {}");
    assert_eq!(failure_text(Tool::ExportImages, &error), "Error exporting images: Figma API error: HTTP 404 Not Found: {}");
    let error = Error::Network("timed out".to_string());
    assert_eq!(failure_text(Tool::GetMe, &error), "Error fetching user info: Network error: timed out");
}

#[test]
fn every_kind_of_error_has_its_label() {
    assert_eq!(Error::FigmaApi("m".to_string()).to_string(), "Figma API error: m");
    assert_eq!(Error::InvalidUrl("m".to_string()).to_string(), "Invalid URL: m");
    assert_eq!(Error::Auth("m".to_string()).to_string(), "Authentication error: m");
    assert_eq!(Error::Network("m".to_string()).to_string(), "Network error: m");
    assert_eq!(Error::NotFound("m".to_string()).to_string(), "Not found: m");
    assert_eq!(Error::Expired("m".to_string()).to_string(), "Expired: m");
    assert_eq!(Error::Internal("m".to_string()).to_string(), "Internal error: m");
    assert_eq!(Error::Internal(String::new()).to_string(), "Internal error: ");
}
