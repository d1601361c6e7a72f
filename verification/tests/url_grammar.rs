use figma_mcp::figma::url_parser::classify;
use figma_mcp::figma::{FigmaUrlParser, FigmaUrlType};
use figma_mcp::Error;
use regex::Regex;

const FILE_PATTERN: &str =
    r"^https?://(?:www\.)?figma\.com/(?:file|design)/([A-Za-z0-9]+)(?:/[^?]*)?(?:\?.*node-id=([^&]+))?";

fn by_pattern(pattern: &Regex, address: &str) -> FigmaUrlType {
    match pattern.captures(address) {
        Some(captures) => FigmaUrlType::File {
            file_id: captures.get(1).unwrap().as_str().to_string(),
            node_id: captures.get(2).map(|m| m.as_str().to_string()),
        },
        None => FigmaUrlType::Unknown,
    }
}

fn file(file_id: &str, node_id: Option<&str>) -> FigmaUrlType {
    FigmaUrlType::File { file_id: file_id.to_string(), node_id: node_id.map(|n| n.to_string()) }
}

#[test]
fn classify_agrees_with_the_pattern() {
    let pattern = Regex::new(FILE_PATTERN).unwrap();
    let addresses = [
        "",
        "h",
        "http://",
        "https://",
        "https://figma.com",
        "https://figma.com/",
        "https://figma.com/file",
        "https://figma.com/file/",
        "https://figma.com/file/A",
        "https://figma.com/file//x",
        "https://figma.com/design/",
        "https://figma.com/design/9",
        "ftp://figma.com/file/ABC",
        "HTTPS://figma.com/file/ABC",
        "https://FIGMA.com/file/ABC",
        " https://figma.com/file/ABC",
        "https://www.figma.com/file/ABC123",
        "https://www.figma.com/file/ABC123/",
        "https://www.figma.com/file/ABC123?node-id=1",
        "https://www.figma.com/file/ABC123-x?node-id=1",
        "https://www.figma.com/file/ABC123/?node-id=",
        "https://www.figma.com/file/ABC123/?node-id=&a=b",
        "https://www.figma.com/file/ABC123/?node-id=&node-id=7",
        "https://www.figma.com/file/ABC123/?node-id=1&node-id=2",
        "https://www.figma.com/file/ABC123/?node-id=1&node-id=",
        "https://www.figma.com/file/ABC123/?node-id=1&node-id=&x",
        "https://www.figma.com/file/ABC123/n?a=b&node-id=5%3A6&c=d",
        "https://www.figma.com/file/ABC123/n?a=node-id=node-id=9",
        "https://www.figma.com/file/ABC123/n?x?node-id=4",
        "https://www.figma.com/file/ABC123/n?x\nnode-id=4",
        "https://www.figma.com/file/ABC123/n?node-id=4\n5&",
        "https://www.figma.com/file/ABC123/n?x\n",
        "https://www.figma.com/file/ABC123/n\n?node-id=4",
        "https://www.figma.com/file/ABC123/a/b/c?node-id=1#frag",
        "https://www.figma.com/file/ABC123#x?node-id=1",
        "https://www.figma.com/file/ABC123/n?node-id",
        "https://www.figma.com/file/ABC123/n?node-id=x",
        "https://www.figma.com/file/ABC123/n?anode-id=x",
        "https://www.figma.com/file/\u{e9}BC/n",
        "https://www.figma.com/file/AB\u{e9}C/n?node-id=\u{4e2d}\u{6587}&z",
        "https://www.figma.com/files/project/123456",
        "https://www.figma.com/designs/ABC",
        "https://www.figma.com/proto/ABC123/name",
        "https://www.figma.comx/file/ABC",
        "https://wwwxfigma.com/file/ABC",
        "https://www.figmaxcom/file/ABC",
        "https://www.www.figma.com/file/ABC",
        "https://example.com/https://figma.com/file/ABC",
        "http://figma.com/design/Zz09/n?node-id=201-95620",
    ];
    for address in addresses {
        assert_eq!(classify(address), by_pattern(&pattern, address), "address {:?}", address);
    }
}

#[test]
fn node_id_is_the_value_after_the_last_key() {
    assert_eq!(
        classify("https://figma.com/file/K1/n?node-id=1&node-id=2&x=y"),
        file("K1", Some("2"))
    );
    assert_eq!(classify("https://figma.com/file/K1/n?node-id=1&node-id="), file("K1", Some("1")));
    assert_eq!(classify("https://figma.com/file/K1/n?node-id=&x"), file("K1", None));
}

#[test]
fn node_id_is_not_decoded() {
    let parser = FigmaUrlParser::new();
    let info = parser.parse("https://www.figma.com/design/ABC123/name?node-id=1%3A2").unwrap();
    assert_eq!(info.url_type, file("ABC123", Some("1%3A2")));
    assert_eq!(info.original_url, "https://www.figma.com/design/ABC123/name?node-id=1%3A2");
}

#[test]
fn file_id_stops_at_the_first_other_character() {
    assert_eq!(classify("https://figma.com/file/abc-def/n"), file("abc", None));
    assert_eq!(classify("https://figma.com/file/abc_def?node-id=3"), file("abc", None));
    assert_eq!(classify("https://figma.com/file/-abc"), FigmaUrlType::Unknown);
}

#[test]
fn foreign_host_is_an_error() {
    let parser = FigmaUrlParser::new();
    match parser.parse("https://example.com") {
        Err(Error::InvalidUrl(message)) => assert_eq!(message, "Not a Figma URL: https://example.com"),
        other => panic!("unexpected: {:?}", other),
    }
    match parser.parse("https://figma.com.example.org/file/ABC") {
        Err(Error::InvalidUrl(message)) => {
            assert_eq!(message, "Not a Figma URL: https://figma.com.example.org/file/ABC")
        }
        other => panic!("unexpected: {:?}", other),
    }
    match parser.parse("data:text/plain,figma.com") {
        Err(Error::InvalidUrl(message)) => assert_eq!(message, "Not a Figma URL: data:text/plain,figma.com"),
        other => panic!("unexpected: {:?}", other),
    }
}

#[test]
fn malformed_address_is_an_error() {
    let parser = FigmaUrlParser::new();
    match parser.parse("not an address") {
        Err(Error::InvalidUrl(message)) => assert_eq!(message, "Malformed URL: not an address"),
        other => panic!("unexpected: {:?}", other),
    }
    match parser.extract_file_id("www.figma.com/file/ABC") {
        Err(Error::InvalidUrl(message)) => assert_eq!(message, "Malformed URL: www.figma.com/file/ABC"),
        other => panic!("unexpected: {:?}", other),
    }
}

#[test]
fn host_is_read_by_the_url_rules_and_the_shape_from_the_text() {
    let parser = FigmaUrlParser::new();
    // The host is compared as the address parser writes it, in lower case.
    let info = parser.parse("HTTPS://WWW.FIGMA.COM/file/ABC123/x").unwrap();
    assert_eq!(info.url_type, FigmaUrlType::Unknown);
    let info = parser.parse("https://www.figma.com:443/file/ABC123/x").unwrap();
    assert_eq!(info.url_type, FigmaUrlType::Unknown);
    let info = parser.parse("https://user@figma.com/file/ABC123/x").unwrap();
    assert_eq!(info.url_type, FigmaUrlType::Unknown);
}

#[test]
fn parse_with_host_decides_by_the_host() {
    let address = "https://www.figma.com/file/ABC123/x";
    let info = FigmaUrlParser::parse_with_host(address, Ok(Some("figma.com".to_string()))).unwrap();
    assert_eq!(info.url_type, file("ABC123", None));
    assert!(matches!(
        FigmaUrlParser::parse_with_host(address, Ok(Some("figma.org".to_string()))),
        Err(Error::InvalidUrl(_))
    ));
    assert!(matches!(FigmaUrlParser::parse_with_host(address, Ok(None)), Err(Error::InvalidUrl(_))));
    assert!(matches!(
        FigmaUrlParser::parse_with_host(address, Err(url::ParseError::EmptyHost)),
        Err(Error::InvalidUrl(_))
    ));
}

#[test]
fn extract_file_id_of_a_file_address() {
    let parser = FigmaUrlParser::new();
    assert_eq!(parser.extract_file_id("https://figma.com/design/XyZ9/n?node-id=1-2").unwrap(), "XyZ9");
    match parser.extract_file_id("https://www.figma.com/files/project/123") {
        Err(Error::InvalidUrl(message)) => {
            assert_eq!(message, "URL is not a file URL: https://www.figma.com/files/project/123")
        }
        other => panic!("unexpected: {:?}", other),
    }
    match parser.extract_file_id("https://example.com/file/ABC") {
        Err(Error::InvalidUrl(message)) => assert_eq!(message, "Not a Figma URL: https://example.com/file/ABC"),
        other => panic!("unexpected: {:?}", other),
    }
}

#[test]
fn classify_agrees_with_the_pattern_on_generated_addresses() {
    let pattern = Regex::new(FILE_PATTERN).unwrap();
    let starts = [
        "https://www.figma.com/file/",
        "http://figma.com/design/",
        "https://figma.com/file/",
        "https://www.figma.com/design/K7/n?",
        "http://www.figma.com/file/K7?",
        "",
    ];
    let pieces = [
        "http", "s", "://", "www.", "figma.com", "/", "file", "design", "ABC", "xyz9", "1", "?", "&", "node-id=",
        "node-id", "=", "\n", "\r", "x", "%3A", "-", ":", "#", "\u{e9}", "\u{4e2d}", " ", "a=b", "?node-id=1",
        "&node-id=", "/n",
    ];
    let mut state: u64 = 0x2545_F491_4F6C_DD1D;
    let mut next = |bound: usize| -> usize {
        state ^= state << 13;
        state ^= state >> 7;
        state ^= state << 17;
        (state % bound as u64) as usize
    };
    let mut files = 0;
    let mut nodes = 0;
    for _ in 0..200_000 {
        let mut address = starts[next(starts.len())].to_string();
        for _ in 0..next(9) {
            address.push_str(pieces[next(pieces.len())]);
        }
        let expected = by_pattern(&pattern, &address);
        match &expected {
            FigmaUrlType::File { node_id: Some(_), .. } => {
                files += 1;
                nodes += 1;
            }
            FigmaUrlType::File { .. } => files += 1,
            FigmaUrlType::Unknown => {}
        }
        assert_eq!(classify(&address), expected, "address {:?}", address);
    }
    assert!(files > 50_000 && nodes > 10_000, "files {} nodes {}", files, nodes);
}

#[test]
fn project_address_is_unknown_and_no_error() {
    let parser = FigmaUrlParser::new();
    let info = parser.parse("https://www.figma.com/files/project/123").unwrap();
    assert_eq!(info.url_type, FigmaUrlType::Unknown);
    assert_eq!(info.original_url, "https://www.figma.com/files/project/123");
}

#[test]
fn only_the_two_hosts_of_the_service_are_taken() {
    for host in ["figma.com", "www.figma.com"] {
        assert!(FigmaUrlParser::is_figma_url(&Some(host.to_string())), "host {:?}", host);
    }
    for host in ["", "api.figma.com", "figma.com.", "FIGMA.COM", "www.figma.co", "wwwxfigma.com", "figmaxcom", "example.com"] {
        assert!(!FigmaUrlParser::is_figma_url(&Some(host.to_string())), "host {:?}", host);
    }
    assert!(!FigmaUrlParser::is_figma_url(&None));
}

#[test]
fn file_id_of_a_parsed_address() {
    let address = "https://figma.com/file/K9/n";
    let parsed = FigmaUrlParser::new().parse(address);
    assert_eq!(FigmaUrlParser::file_id_of(address, parsed).unwrap(), "K9");
    let failed = FigmaUrlParser::file_id_of("x", Err(Error::InvalidUrl("Malformed URL: x".to_string())));
    match failed {
        Err(Error::InvalidUrl(message)) => assert_eq!(message, "Malformed URL: x"),
        other => panic!("unexpected: {:?}", other),
    }
}
