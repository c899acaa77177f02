use feed_digest::render::{render_line, split_lines};
use feed_digest::deliver::ResendClient;

#[test]
fn heading_one_round_trip() {
    assert_eq!(render_line("# Foo"), "<h1>Foo</h1>");
}

#[test]
fn heading_levels() {
    assert_eq!(render_line("## Sub"), "<h2>Sub</h2>");
    assert_eq!(render_line("### Deep"), "<h3>Deep</h3>");
    assert_eq!(render_line("#### Not a heading"), "<p>#### Not a heading</p>");
}

#[test]
fn plain_line_becomes_paragraph() {
    assert_eq!(render_line("just some text"), "<p>just some text</p>");
    assert_eq!(render_line("1. numbered things"), "<p>1. numbered things</p>");
}

#[test]
fn line_is_trimmed_before_matching() {
    assert_eq!(render_line("   # H  "), "<h1>H</h1>");
    assert_eq!(render_line("  hello  "), "<p>hello</p>");
}

#[test]
fn bold_only_line() {
    assert_eq!(render_line("**Market Overview**"), "<p><strong>Market Overview</strong></p>");
    assert_eq!(render_line("****"), "<p><strong></strong></p>");
}

#[test]
fn short_bold_markers_fall_back_to_paragraph() {
    assert_eq!(render_line("**"), "<p>**</p>");
    assert_eq!(render_line("***"), "<p>***</p>");
}

#[test]
fn list_item_and_blank() {
    assert_eq!(render_line("- first"), "<li>first</li>");
    assert_eq!(render_line(""), "<br>");
    assert_eq!(render_line("   "), "<br>");
}

#[test]
fn split_lines_like_std() {
    assert_eq!(split_lines("a\r\nb\n"), vec!["a".to_string(), "b".to_string()]);
    assert_eq!(split_lines(""), Vec::<String>::new());
    assert_eq!(split_lines("\n"), vec!["".to_string()]);
    assert_eq!(split_lines("one"), vec!["one".to_string()]);
}

#[test]
fn whole_document_render() {
    let client = ResendClient::new("key".to_string(), "me@example.com".to_string());
    let html = client.markdown_to_html("# T\n\n- item\nplain");
    let head = "<!DOCTYPE html>\n<html>\n<head>\n    <style>\n        body { font-family: -apple-system, BlinkMacSystemFont, 'Segoe UI', Roboto, sans-serif; max-width: 800px; margin: 0 auto; padding: 20px; line-height: 1.6; }\n        h1 { color: #1a1a1a; border-bottom: 2px solid #0066cc; padding-bottom: 10px; }\n        h2 { color: #333; margin-top: 24px; }\n        h3 { color: #555; }\n        li { margin: 8px 0; }\n        p { color: #444; }\n    </style>\n</head>\n<body>\n";
    let body = "<h1>T</h1>\n<br>\n<li>item</li>\n<p>plain</p>";
    let tail = "\n</body>\n</html>";
    let expected = format!("{}{}{}", head, body, tail);
    assert_eq!(html, expected);
}
