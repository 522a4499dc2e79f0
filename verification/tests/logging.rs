use kma_audio_agent::logging::{redact_json, redact_pairs, Json};

fn text(value: &str) -> Json {
    Json::String(value.to_owned())
}

fn object(entries: Vec<(&str, Json)>) -> Json {
    Json::Object(
        entries
            .into_iter()
            .map(|(name, value)| (name.to_owned(), value))
            .collect(),
    )
}

fn field<'a>(value: &'a Json, name: &str) -> &'a Json {
    match value {
        Json::Object(entries) => entries
            .iter()
            .find(|entry| entry.0 == name)
            .map(|entry| &entry.1)
            .unwrap(),
        _ => panic!("no object"),
    }
}

fn as_str(value: &Json) -> &str {
    match value {
        Json::String(text) => text,
        _ => panic!("no string"),
    }
}

#[test]
fn redacts_tokens_recursively_and_in_urls() {
    let mut value = object(vec![
        ("token", text("top-secret")),
        ("nested", object(vec![("authorization", text("Bearer secret"))])),
        ("url", text("http://server/media?token=secret&asset=1")),
    ]);
    redact_json(&mut value);
    assert_eq!(as_str(field(&value, "token")), "[REDACTED]");
    assert_eq!(
        as_str(field(field(&value, "nested"), "authorization")),
        "[REDACTED]"
    );
    assert!(!as_str(field(&value, "url")).contains("secret"));
}

#[test]
fn only_the_tokens_of_a_url_are_changed() {
    let mut value = Json::Array(vec![
        text("http://server/media?token=secret&asset=1"),
        text("http://server/media?asset=1"),
        text("https://server/a b?c=d e"),
        text("no url?token=secret"),
        text("wss://host/?Access_TOKEN=x&b="),
        Json::Number("1.50".to_owned()),
        Json::Bool(true),
        Json::Null,
    ]);
    redact_json(&mut value);
    let Json::Array(items) = &value else {
        panic!("no array")
    };
    assert_eq!(
        as_str(&items[0]),
        "http://server/media?token=%5BREDACTED%5D&asset=1"
    );
    assert_eq!(as_str(&items[1]), "http://server/media?asset=1");
    assert_eq!(as_str(&items[2]), "https://server/a b?c=d e");
    assert_eq!(as_str(&items[3]), "no url?token=secret");
    assert_eq!(
        as_str(&items[4]),
        "wss://host/?Access_TOKEN=%5BREDACTED%5D&b="
    );
    assert!(matches!(&items[5], Json::Number(text) if text == "1.50"));
    assert!(matches!(items[6], Json::Bool(true)));
    assert!(matches!(items[7], Json::Null));
}

#[test]
fn every_secret_name_hides_its_value_whatever_it_is() {
    let mut value = object(vec![
        ("X-Cookie-Jar", Json::Number("1".to_owned())),
        ("PASSWORD", Json::Array(vec![text("a")])),
        ("client_secret", object(vec![("b", text("c"))])),
        ("Authorization", Json::Null),
        ("accessToken", Json::Bool(false)),
        ("plain", text("kept")),
    ]);
    redact_json(&mut value);
    for name in [
        "X-Cookie-Jar",
        "PASSWORD",
        "client_secret",
        "Authorization",
        "accessToken",
    ] {
        assert_eq!(as_str(field(&value, name)), "[REDACTED]");
    }
    assert_eq!(as_str(field(&value, "plain")), "kept");
}

#[test]
fn pairs_keep_their_names_and_their_order() {
    let pair = |name: &str, value: &str| (name.to_owned(), value.to_owned());
    let (pairs, changed) = redact_pairs(&vec![
        pair("a", "1"),
        pair("myToken", "2"),
        pair("secret", "3"),
    ]);
    assert!(changed);
    assert_eq!(
        pairs,
        vec![
            pair("a", "1"),
            pair("myToken", "[REDACTED]"),
            pair("secret", "3")
        ]
    );
    let (same, unchanged) = redact_pairs(&vec![pair("a", "1")]);
    assert!(!unchanged);
    assert_eq!(same, vec![pair("a", "1")]);
}

#[test]
fn a_redacted_value_is_redacted_already() {
    for url in [
        "http://server/media?token=secret&asset=1",
        "https://u:p@hÄ/a b?x=%zz&Token=+&y#frag ment",
        "mailto:a ?token=1",
        "x:/.//p?token=%FF",
        "file:///tmp/a?token=b",
        "file:///a/c:/x?token=1",
        "file:///c:/x?token=1",
        "file:////c|/y?token=x",
        "file://host/c:/y?token=x",
        "no url?token=secret",
    ] {
        let mut once = object(vec![("cookie", Json::Null), ("url", text(url))]);
        redact_json(&mut once);
        let mut twice = object(vec![
            ("cookie", text(as_str(field(&once, "cookie")))),
            ("url", text(as_str(field(&once, "url")))),
        ]);
        redact_json(&mut twice);
        assert_eq!(as_str(field(&twice, "url")), as_str(field(&once, "url")));
        assert_eq!(as_str(field(&twice, "cookie")), "[REDACTED]");
    }
}

#[test]
fn a_drive_letter_behind_a_host_is_read_anew() {
    let mut value = text("file://host//c|/y?token=x");
    redact_json(&mut value);
    assert_eq!(
        as_str(&value),
        "file://host/c|/y?token=%5BREDACTED%5D"
    );
    redact_json(&mut value);
    assert_eq!(as_str(&value), "file:///c:/y?token=%5BREDACTED%5D");
    let mut dots = text("file:C:\t.?token=x");
    redact_json(&mut dots);
    assert_eq!(as_str(&dots), "file:///C:/.?token=%5BREDACTED%5D");
    redact_json(&mut dots);
    assert_eq!(as_str(&dots), "file:///C:/?token=%5BREDACTED%5D");
}
