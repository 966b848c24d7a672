use mdrender::events::{MdEvent, MdTag};
use mdrender::fences::{clean_codeblock_headers, clean_info_string};
use mdrender::links::{adjust_links, rewrite_destination};

#[test]
fn scheme_destinations_are_never_touched() {
    assert_eq!(rewrite_destination("https://www.rust-lang.org/", ""), "https://www.rust-lang.org/");
    assert_eq!(rewrite_destination("https://www.rust-lang.org/", "deep/base"), "https://www.rust-lang.org/");
    assert_eq!(rewrite_destination("mailto:x", "base"), "mailto:x");
    assert_eq!(rewrite_destination("ftp+ssh.x-1:path", "base"), "ftp+ssh.x-1:path");
}

#[test]
fn md_extensions_become_html() {
    assert_eq!(rewrite_destination("example.md", ""), "example.html");
    assert_eq!(rewrite_destination("example.md#anchor", ""), "example.html#anchor");
    assert_eq!(rewrite_destination("dir/page.md", "base"), "base/dir/page.html");
}

#[test]
fn md_inside_an_anchor_is_not_an_extension() {
    assert_eq!(rewrite_destination("foo.html#phantomdata", ""), "foo.html#phantomdata");
    assert_eq!(rewrite_destination("plain/path.png", "base"), "base/plain/path.png");
}

#[test]
fn uppercase_schemes_are_preserved_too() {
    assert_eq!(rewrite_destination("HTTPS://x", "base"), "HTTPS://x");
    assert_eq!(rewrite_destination("B:", "b"), "B:");
    assert_eq!(rewrite_destination("Mailto:x", ""), "Mailto:x");
}

#[test]
fn adjust_links_touches_only_link_and_image_starts() {
    let r = adjust_links(
        MdEvent::Start(MdTag::Link(
            pulldown_cmark::LinkType::Inline,
            String::from("a.md"),
            String::from("t"),
        )),
        "",
    );
    assert_eq!(
        r,
        MdEvent::Start(MdTag::Link(
            pulldown_cmark::LinkType::Inline,
            String::from("a.html"),
            String::from("t"),
        ))
    );
    let r = adjust_links(MdEvent::Text(String::from("a.md")), "base");
    assert_eq!(r, MdEvent::Text(String::from("a.md")));
    let r = adjust_links(
        MdEvent::End(MdTag::Link(
            pulldown_cmark::LinkType::Inline,
            String::from("a.md"),
            String::from("t"),
        )),
        "",
    );
    assert_eq!(
        r,
        MdEvent::End(MdTag::Link(
            pulldown_cmark::LinkType::Inline,
            String::from("a.md"),
            String::from("t"),
        ))
    );
}

#[test]
fn fence_info_loses_every_whitespace_character() {
    assert_eq!(
        clean_info_string("rust,    no_run,,,should_panic , ,property_3"),
        "rust,no_run,,,should_panic,,property_3"
    );
    assert_eq!(clean_info_string("  rust \t lang  "), "rustlang");
    assert_eq!(clean_info_string(""), "");
}

#[test]
fn only_code_block_starts_are_cleaned() {
    let r = clean_codeblock_headers(MdEvent::Start(MdTag::CodeBlock(String::from("rust, x"))));
    assert_eq!(r, MdEvent::Start(MdTag::CodeBlock(String::from("rust,x"))));
    let r = clean_codeblock_headers(MdEvent::End(MdTag::CodeBlock(String::from("rust, x"))));
    assert_eq!(r, MdEvent::End(MdTag::CodeBlock(String::from("rust, x"))));
    let r = clean_codeblock_headers(MdEvent::Text(String::from("a  b")));
    assert_eq!(r, MdEvent::Text(String::from("a  b")));
}
