use cyberbard::tag::{SourceTagLink, Tag};

#[test]
fn tag_text() {
    let mut tag = Tag::new("some text".to_string(), "#fafafa".to_string());
    assert_eq!("some text", tag.get_text());

    // 25 chars max
    tag.set_text("123456789012345678901234567890".to_string());
    assert_eq!("1234567890123456789012345", tag.get_text());

    // utf8 25 chars max
    tag.set_text("абвгд ёЁ 123 __ 0 jlkdsjg".to_string());
    assert_eq!("абвгд ёЁ 123 __ 0 jlkdsjg", tag.get_text());
}

#[test]
fn tag_color() {
    // default color
    let mut tag = Tag::new("some text".to_string(), "".to_string());
    assert_eq!("#2F80ED", tag.get_color());

    // correct color
    tag.set_color("#fa0055".to_string());
    assert_eq!("#fa0055", tag.get_color());

    // wrong color
    tag.set_color("абвгд ёЁ 123 __ 0 jlkdsjg".to_string());
    assert_eq!("#fa0055", tag.get_color());

    // wrong color
    tag.set_color("aa0035".to_string());
    assert_eq!("#fa0055", tag.get_color());

    // wrong color
    tag.set_color("#gg0035".to_string());
    assert_eq!("#fa0055", tag.get_color());

    // correct color
    tag.set_color("#abcdef".to_string());
    assert_eq!("#abcdef", tag.get_color());
}

#[test]
fn tag_color_check() {
    let tag = Tag::new("t".to_string(), "#000000".to_string());
    assert!(tag.is_correct_color(&"#A1b2C3".to_string()));
    assert!(!tag.is_correct_color(&"#A1b2C".to_string()));
    assert!(!tag.is_correct_color(&"A1b2C3#".to_string()));
    assert!(!tag.is_correct_color(&"".to_string()));
}

#[test]
fn source_tag_link() {
    let link = SourceTagLink::new("a/b.mp3".to_string(), "battle".to_string());
    assert_eq!("battle", link.get_tag());
    assert_eq!("a/b.mp3", link.get_source());
}
