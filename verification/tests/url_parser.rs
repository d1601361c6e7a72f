use figma_mcp::figma::{FigmaUrlParser, FigmaUrlType};

#[test]
fn test_parse_file_url() {
    let parser = FigmaUrlParser::new();

    let result = parser.parse("https://www.figma.com/file/ABC123/my-design").unwrap();
    assert_eq!(result.url_type, FigmaUrlType::File {
        file_id: "ABC123".to_string(),
        node_id: None,
    });
}

#[test]
fn url_parser_test_parse_file_url_with_node() {
    let parser = FigmaUrlParser::new();

    let result = parser.parse("https://www.figma.com/file/ABC123/my-design?node-id=1%3A2").unwrap();
    assert_eq!(result.url_type, FigmaUrlType::File {
        file_id: "ABC123".to_string(),
        node_id: Some("1%3A2".to_string()),
    });
}

#[test]
fn url_parser_test_parse_invalid_url() {
    let parser = FigmaUrlParser::new();

    let result = parser.parse("https://example.com");
    assert!(result.is_err());
}

#[test]
fn test_parse_non_file_figma_url() {
    let parser = FigmaUrlParser::new();

    let result = parser.parse("https://www.figma.com/files/project/123456").unwrap();
    assert_eq!(result.url_type, FigmaUrlType::Unknown);
}

#[test]
fn url_parser_test_extract_file_id() {
    let parser = FigmaUrlParser::new();

    let file_id = parser.extract_file_id("https://www.figma.com/file/ABC123/my-design").unwrap();
    assert_eq!(file_id, "ABC123");
}

#[test]
fn test_parse_design_url() {
    let parser = FigmaUrlParser::new();

    let result = parser.parse("https://www.figma.com/design/ABC123/my-design").unwrap();
    assert_eq!(result.url_type, FigmaUrlType::File {
        file_id: "ABC123".to_string(),
        node_id: None,
    });
}

#[test]
fn test_parse_design_url_with_node() {
    let parser = FigmaUrlParser::new();

    let result = parser.parse("https://www.figma.com/design/ABC123/my-design?node-id=201-95620").unwrap();
    assert_eq!(result.url_type, FigmaUrlType::File {
        file_id: "ABC123".to_string(),
        node_id: Some("201-95620".to_string()),
    });
}

#[test]
fn test_extract_file_id_from_design_url() {
    let parser = FigmaUrlParser::new();

    let file_id = parser.extract_file_id("https://www.figma.com/design/mDRPCttt3pWEmznGjW8JPg/Visual-design-RET").unwrap();
    assert_eq!(file_id, "mDRPCttt3pWEmznGjW8JPg");
}
