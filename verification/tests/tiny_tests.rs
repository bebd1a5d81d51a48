use jvm_bridge::errors::{BridgeError, MappingLoadError};
use jvm_bridge::tiny::parse_tiny;

#[test]
fn header_alone_gives_empty_table() {
    let t = parse_tiny(b"tiny\t2\t0\tnamed\tobfuscated").expect("well-formed");
    assert_eq!(t.classes.len(), 0);
    assert_eq!(t.methods.len(), 0);
    assert_eq!(t.fields.len(), 0);
}

#[test]
fn directives_land_in_their_lists() {
    let text = "tiny\nc\ta\tb\nm\to\t()V\tn\tx\nf\to\tI\tg\ty\nc\tc\td\n";
    let t = parse_tiny(text.as_bytes()).expect("well-formed");
    assert_eq!(t.classes.len(), 2);
    assert_eq!(t.methods.len(), 1);
    assert_eq!(t.fields.len(), 1);
    assert_eq!(t.classes[0].stable, b"a".to_vec());
    assert_eq!(t.classes[0].obf, b"b".to_vec());
    assert_eq!(t.methods[0].owner, b"o".to_vec());
    assert_eq!(t.methods[0].desc, b"()V".to_vec());
    assert_eq!(t.methods[0].stable, b"n".to_vec());
    assert_eq!(t.methods[0].obf, b"x".to_vec());
    assert_eq!(t.fields[0].stable, b"g".to_vec());
}

#[test]
fn empty_input_is_rejected_at_the_header() {
    let e = parse_tiny(b"").expect_err("no header");
    assert_eq!(e, MappingLoadError { line: 1 });
}

#[test]
fn wrong_header_is_rejected() {
    let e = parse_tiny(b"v1\tmappings\nc\ta\tb\n").expect_err("bad header");
    assert_eq!(e, MappingLoadError { line: 1 });
}

#[test]
fn malformed_directive_names_its_line() {
    let e = parse_tiny(b"tiny\nc\ta\tb\nq\tnope\n").expect_err("bad tag");
    assert_eq!(e, MappingLoadError { line: 3 });
}

#[test]
fn class_directive_with_wrong_arity_is_rejected() {
    let e = parse_tiny(b"tiny\nc\tonly-one-name\n").expect_err("bad arity");
    assert_eq!(e, MappingLoadError { line: 2 });
}

#[test]
fn method_directive_with_wrong_arity_is_rejected() {
    let e = parse_tiny(b"tiny\nm\to\t()V\tn\n").expect_err("bad arity");
    assert_eq!(e, MappingLoadError { line: 2 });
}

#[test]
fn comments_and_blank_lines_say_nothing() {
    let t = parse_tiny(b"tiny\n\n# note\n\nc\ta\tb\n\n").expect("well-formed");
    assert_eq!(t.classes.len(), 1);
}

#[test]
fn load_failure_collapses_to_the_fatal_bridge_error() {
    let e = parse_tiny(b"").expect_err("no header");
    assert_eq!(e.to_bridge_error(), BridgeError::MappingLoad);
}
