use actix_send::message::message_attr;

fn read(tokens: &str) -> (String, bool) {
    let chars: Vec<char> = tokens.chars().collect();
    let (t, b) = message_attr(&chars);
    (t.into_iter().collect(), b)
}

#[test]
fn message_attribute_result_type() {
    assert_eq!(read("(result = \"u8\")"), ("u8".to_string(), false));
    assert_eq!(read("( result = \"Vec < u8 >\" )"), ("Vec<u8>".to_string(), false));
    assert_eq!(read("(result = \"u16\", blocking)"), ("u16".to_string(), true));
    assert_eq!(read(""), ("".to_string(), false));
}
