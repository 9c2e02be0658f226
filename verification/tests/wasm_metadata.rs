use serde_json::Value;
use weasel::wasm_metadata::{
    accept_section, bounded, envelope_is_valid, find_settings, read, MAX_BYTES, SECTION,
};

const SETTINGS: &str = r#"{"formatVersion":1,"defaults":{"size":3},"richschema":{"formatVersion":1,"schema":{"type":"object"}}}"#;

fn number(mut value: usize) -> Vec<u8> {
    let mut bytes = Vec::new();
    loop {
        let low = (value % 128) as u8;
        value /= 128;
        if value == 0 {
            bytes.push(low);
            return bytes;
        }
        bytes.push(low + 128);
    }
}

fn section(name: &str, data: &[u8]) -> Vec<u8> {
    let mut body = number(name.len());
    body.extend(name.as_bytes());
    body.extend(data);
    let mut bytes = vec![0];
    bytes.extend(number(body.len()));
    bytes.extend(body);
    bytes
}

fn module(sections: &[Vec<u8>]) -> Vec<u8> {
    let mut bytes = vec![0, 97, 115, 109, 1, 0, 0, 0];
    for section in sections {
        bytes.extend(section);
    }
    bytes
}

fn parsed(text: &str) -> Result<Value, String> {
    serde_json::from_str(text).map_err(|error| error.to_string())
}

#[test]
fn settings_are_read_from_their_section() {
    assert_eq!(read(&module(&[])), Ok(None));
    assert_eq!(read(&module(&[section("name", b"\0")])), Ok(None));
    let found = read(&module(&[
        section("name", b"\0"),
        section(SECTION, SETTINGS.as_bytes()),
    ]));
    assert_eq!(found, Ok(Some(parsed(SETTINGS).unwrap())));
}

#[test]
fn a_second_section_is_refused() {
    let once = section(SECTION, SETTINGS.as_bytes());
    assert_eq!(
        read(&module(&[once.clone(), once])),
        Err("duplicate weasel.settings section".into())
    );
}

#[test]
fn only_modules_are_read() {
    let message = || Err("unsupported WASM module or exceeds 32 MiB".to_string());
    assert_eq!(read(b""), message());
    assert_eq!(read(&[0, 97, 115, 109, 2, 0, 0, 0]), message());
    assert_eq!(read(&vec![0; 33554433]), message());
    // A section that ends too early is the module's own error.
    let mut cut = module(&[section(SECTION, SETTINGS.as_bytes())]);
    cut.truncate(12);
    assert!(read(&cut).is_err());
}

#[test]
fn large_settings_are_refused() {
    let long = vec![b' '; MAX_BYTES + 1];
    assert_eq!(
        read(&module(&[section(SECTION, &long)])),
        Err("theme metadata exceeds 1 MiB".into())
    );
    assert_eq!(
        find_settings(&vec![Ok(None), Err("broken".into())]),
        Err("broken".into())
    );
}

#[test]
fn settings_must_have_the_known_shape() {
    assert!(accept_section(parsed(SETTINGS)).is_ok());
    assert_eq!(
        accept_section(Err("odd".into())),
        Err("theme metadata JSON: odd".into())
    );
    assert_eq!(
        accept_section(parsed("[]")),
        Err("theme metadata must be an object".into())
    );
    for text in [
        "{}",
        r#"{"formatVersion":2,"defaults":{},"richschema":{"formatVersion":1,"schema":{"type":"object"}}}"#,
        r#"{"formatVersion":1,"defaults":[],"richschema":{"formatVersion":1,"schema":{"type":"object"}}}"#,
        r#"{"formatVersion":1,"defaults":{},"richschema":{"formatVersion":2,"schema":{"type":"object"}}}"#,
        r#"{"formatVersion":1,"defaults":{},"richschema":{"formatVersion":1,"schema":{"type":"array"}}}"#,
        r#"{"formatVersion":1,"defaults":{},"more":1,"richschema":{"formatVersion":1,"schema":{"type":"object"}}}"#,
    ] {
        assert!(!envelope_is_valid(&parsed(text).unwrap()), "{text}");
        assert_eq!(
            accept_section(parsed(text)),
            Err("invalid theme metadata envelope/defaults/richschema".into())
        );
    }
}

#[test]
fn settings_are_bounded_in_depth_and_size() {
    let deep = |levels: usize| parsed(&format!("{}{}", "[".repeat(levels), "]".repeat(levels)));
    let mut nodes = 0;
    assert!(bounded(&deep(33).unwrap(), 0, &mut nodes).is_ok());
    assert_eq!(nodes, 33);
    let mut nodes = 0;
    assert_eq!(
        bounded(&deep(34).unwrap(), 0, &mut nodes),
        Err("theme metadata structure exceeds limits".into())
    );
    let wide = |count: usize| Value::Array(vec![Value::Null; count]);
    let mut nodes = 0;
    assert!(bounded(&wide(8191), 0, &mut nodes).is_ok());
    assert_eq!(nodes, 8192);
    let mut nodes = 0;
    assert!(bounded(&wide(8192), 0, &mut nodes).is_err());
    let mut nodes = 0;
    assert!(bounded(&parsed(SETTINGS).unwrap(), 0, &mut nodes).is_ok());
    assert_eq!(nodes, 8);
}
