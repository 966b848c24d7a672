use mdrender::events::{MdEvent, MdTag};
use mdrender::quotes::{convert_quotes_to_curly, EventQuoteConverter};

#[test]
fn it_converts_single_quotes() {
    assert_eq!(convert_quotes_to_curly("'one', 'two'"), "‘one’, ‘two’");
}

#[test]
fn it_converts_double_quotes() {
    assert_eq!(convert_quotes_to_curly(r#""one", "two""#), "“one”, “two”");
}

#[test]
fn it_treats_tab_as_whitespace() {
    assert_eq!(convert_quotes_to_curly("\t'one'"), "\t‘one’");
}

#[test]
fn non_quote_text_is_left_alone() {
    assert_eq!(convert_quotes_to_curly("no quotes in here"), "no quotes in here");
    assert_eq!(convert_quotes_to_curly(""), "");
}

#[test]
fn converter_suppresses_inside_code_blocks() {
    let mut conv = EventQuoteConverter::new(true);
    let r = conv.convert(MdEvent::Text(String::from("'a'")));
    assert_eq!(r, MdEvent::Text(String::from("‘a’")));
    let r = conv.convert(MdEvent::Start(MdTag::CodeBlock(String::from("rust"))));
    assert_eq!(r, MdEvent::Start(MdTag::CodeBlock(String::from("rust"))));
    let r = conv.convert(MdEvent::Text(String::from("'kept'")));
    assert_eq!(r, MdEvent::Text(String::from("'kept'")));
    let r = conv.convert(MdEvent::End(MdTag::CodeBlock(String::from("rust"))));
    assert_eq!(r, MdEvent::End(MdTag::CodeBlock(String::from("rust"))));
    let r = conv.convert(MdEvent::Text(String::from("'b'")));
    assert_eq!(r, MdEvent::Text(String::from("‘b’")));
}

#[test]
fn disabled_converter_changes_nothing() {
    let mut conv = EventQuoteConverter::new(false);
    let r = conv.convert(MdEvent::Text(String::from("'a' \"b\"")));
    assert_eq!(r, MdEvent::Text(String::from("'a' \"b\"")));
}
