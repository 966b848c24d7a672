use mdrender::pipeline::{render_markdown, render_markdown_with_base};

#[test]
fn preserves_external_links() {
    assert_eq!(
        render_markdown("[example](https://www.rust-lang.org/)", false),
        "<p><a href=\"https://www.rust-lang.org/\">example</a></p>\n"
    );
}

#[test]
fn it_can_adjust_markdown_links() {
    assert_eq!(
        render_markdown("[example](example.md)", false),
        "<p><a href=\"example.html\">example</a></p>\n"
    );
    assert_eq!(
        render_markdown("[example_anchor](example.md#anchor)", false),
        "<p><a href=\"example.html#anchor\">example_anchor</a></p>\n"
    );

    // this anchor contains 'md' inside of it
    assert_eq!(
        render_markdown("[phantom data](foo.html#phantomdata)", false),
        "<p><a href=\"foo.html#phantomdata\">phantom data</a></p>\n"
    );
}

#[test]
fn it_can_keep_quotes_straight() {
    assert_eq!(render_markdown("'one'", false), "<p>'one'</p>\n");
}

#[test]
fn it_can_make_quotes_curly_except_when_they_are_in_code() {
    let input = r#"
'one'
```
'two'
```
`'three'` 'four'"#;
    let expected = r#"<p>‘one’</p>
<pre><code>'two'
</code></pre>
<p><code>'three'</code> ‘four’</p>
"#;
    assert_eq!(render_markdown(input, true), expected);
}

#[test]
fn whitespace_outside_of_codeblock_header_is_preserved() {
    let input = r#"
some text with spaces
```rust
fn main() {
// code inside is unchanged
}
```
more text with spaces
"#;

    let expected = r#"<p>some text with spaces</p>
<pre><code class="language-rust">fn main() {
// code inside is unchanged
}
</code></pre>
<p>more text with spaces</p>
"#;
    assert_eq!(render_markdown(input, false), expected);
    assert_eq!(render_markdown(input, true), expected);
}

#[test]
fn rust_code_block_properties_are_passed_as_space_delimited_class() {
    let input = r#"
```rust,no_run,should_panic,property_3
```
"#;

    let expected = r#"<pre><code class="language-rust,no_run,should_panic,property_3"></code></pre>
"#;
    assert_eq!(render_markdown(input, false), expected);
    assert_eq!(render_markdown(input, true), expected);
}

#[test]
fn rust_code_block_properties_with_whitespace_are_passed_as_space_delimited_class() {
    let input = r#"
```rust,    no_run,,,should_panic , ,property_3
```
"#;

    let expected = r#"<pre><code class="language-rust,no_run,,,should_panic,,property_3"></code></pre>
"#;
    assert_eq!(render_markdown(input, false), expected);
    assert_eq!(render_markdown(input, true), expected);
}

#[test]
fn rust_code_block_without_properties_has_proper_html_class() {
    let input = r#"
```rust
```
"#;

    let expected = r#"<pre><code class="language-rust"></code></pre>
"#;
    assert_eq!(render_markdown(input, false), expected);
    assert_eq!(render_markdown(input, true), expected);

    let input = r#"
```rust
```
"#;
    assert_eq!(render_markdown(input, false), expected);
    assert_eq!(render_markdown(input, true), expected);
}

#[test]
fn base_path_prefixes_relative_links() {
    assert_eq!(
        render_markdown_with_base("[example](example.md)", false, "prefix"),
        "<p><a href=\"prefix/example.html\">example</a></p>\n"
    );
    assert_eq!(
        render_markdown_with_base("![logo](images/logo.png)", false, "prefix"),
        "<p><img src=\"prefix/images/logo.png\" alt=\"logo\" /></p>\n"
    );
    // an absolute link is untouched whatever the base
    assert_eq!(
        render_markdown_with_base("[example](https://www.rust-lang.org/)", false, "prefix"),
        "<p><a href=\"https://www.rust-lang.org/\">example</a></p>\n"
    );
}

#[test]
fn plain_text_matches_raw_serializer_output() {
    // a document with no links, no code fences and no quote characters
    // renders exactly as the serializer would render the raw parse
    let input = "plain *em* text\n\n- item one\n- item two\n\n## A heading\n";
    let mut raw = String::new();
    let mut opts = pulldown_cmark::Options::empty();
    opts.insert(pulldown_cmark::Options::ENABLE_TABLES);
    opts.insert(pulldown_cmark::Options::ENABLE_FOOTNOTES);
    opts.insert(pulldown_cmark::Options::ENABLE_STRIKETHROUGH);
    opts.insert(pulldown_cmark::Options::ENABLE_TASKLISTS);
    let parser = pulldown_cmark::Parser::new_ext(input, opts);
    pulldown_cmark::html::push_html(&mut raw, parser);
    assert_eq!(render_markdown(input, true), raw);
    assert_eq!(render_markdown(input, false), raw);
    assert_eq!(render_markdown_with_base(input, true, "prefix"), raw);
}

#[test]
fn strikethrough_and_task_lists_are_enabled() {
    assert_eq!(
        render_markdown("~~struck~~", false),
        "<p><del>struck</del></p>\n"
    );
    assert_eq!(
        render_markdown("- [x] done\n", false),
        "<ul>\n<li><input disabled=\"\" type=\"checkbox\" checked=\"\"/>\ndone</li>\n</ul>\n"
    );
}
