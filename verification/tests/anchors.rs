use mdrender::ids::{collapse_whitespace, id_from_content, normalize_id};

#[test]
fn it_generates_anchors() {
    assert_eq!(
        id_from_content("## Method-call expressions"),
        "method-call-expressions"
    );
    assert_eq!(id_from_content("## **Bold** title"), "bold-title");
    assert_eq!(id_from_content("## `Code` title"), "code-title");
}

#[test]
fn it_generates_anchors_from_non_ascii_initial() {
    assert_eq!(
        id_from_content("## `--passes`: add more rustdoc passes"),
        "--passes-add-more-rustdoc-passes"
    );
    assert_eq!(
        id_from_content("## 中文標題 CJK title"),
        "中文標題-cjk-title"
    );
    assert_eq!(id_from_content("## Über"), "über");
}

#[test]
fn it_normalizes_ids() {
    assert_eq!(
        normalize_id("`--passes`: add more rustdoc passes"),
        "--passes-add-more-rustdoc-passes"
    );
    assert_eq!(
        normalize_id("Method-call 🐙 expressions \u{1f47c}"),
        "method-call--expressions-"
    );
    assert_eq!(normalize_id("_-_12345"), "_-_12345");
    assert_eq!(normalize_id("12345"), "12345");
    assert_eq!(normalize_id("中文"), "中文");
    assert_eq!(normalize_id("にほんご"), "にほんご");
    assert_eq!(normalize_id("한국어"), "한국어");
    assert_eq!(normalize_id(""), "");
}

#[test]
fn non_ascii_letters_are_lowercased() {
    assert_eq!(normalize_id("Über ÜBER"), "über-über");
    assert_eq!(normalize_id("ΣΙΓΜΑ"), "σιγμα");
}

#[test]
fn empty_heading_gives_empty_anchor() {
    assert_eq!(id_from_content(""), "");
    assert_eq!(id_from_content("##   "), "");
}

#[test]
fn markup_and_entities_are_removed_before_normalizing() {
    assert_eq!(id_from_content("## <em>it</em> &amp; <code>x</code>"), "it--x");
    assert_eq!(id_from_content("<strong>Loud</strong> &quot;quiet&quot;"), "loud-quiet");
}

#[test]
fn collapse_whitespace_squeezes_runs_to_one_space() {
    assert_eq!(collapse_whitespace("a  b"), "a b");
    assert_eq!(collapse_whitespace("a \t\n b"), "a b");
    assert_eq!(collapse_whitespace("  lots   of\t\twhitespace  "), " lots of whitespace ");
}

#[test]
fn collapse_whitespace_keeps_single_whitespace_verbatim() {
    // a lone tab is not a run and stays a tab
    assert_eq!(collapse_whitespace("a\tb"), "a\tb");
    assert_eq!(collapse_whitespace("no runs here"), "no runs here");
}
