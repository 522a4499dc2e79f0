use kma_audio_agent::credentials::Credentials;
use kma_audio_agent::digest::FileDigest;
use kma_audio_agent::path::{join, manifest_name};
use kma_audio_agent::sample::{from_le_bytes, to_le_bytes, unsigned_abs};
use kma_audio_agent::text::{
    append_decimal, contains, contains_lowercase, ends_with, equals, starts_with, to_hex, trim,
    trim_end_matches,
};

#[test]
fn texts_are_searched_by_characters() {
    assert!(contains("grün und blau", "ün"));
    assert!(contains("a", ""));
    assert!(!contains("", "a"));
    assert!(!contains("abab", "abb"));
    assert!(contains_lowercase("X-AUTHORIZATION", "authorization"));
    assert!(!contains_lowercase("ÄTOK", "ätok"));
    assert!(equals("é", "é"));
    assert!(!equals("a", "ab"));
    assert!(starts_with("hw:0", "hw:"));
    assert!(!starts_with("hw", "hw:"));
    assert!(ends_with("song.mp3", ".mp3"));
    assert!(!ends_with("mp3", ".mp3"));
}

#[test]
fn texts_are_trimmed_as_std_trims_them() {
    for text in ["", " ", " a ", "\u{2003}b c\u{85}", "d\u{200b}", "\u{feff}e", "\t\n"] {
        assert_eq!(trim(text), text.trim());
    }
    for text in ["", "/", "http://a//", "a/b"] {
        assert_eq!(trim_end_matches(text, '/'), text.trim_end_matches('/'));
    }
}

#[test]
fn numbers_are_written_out() {
    for value in [0_u64, 7, 10, 65_535, u64::MAX] {
        let mut text = "n".to_owned();
        append_decimal(&mut text, value);
        assert_eq!(text, format!("n{value}"));
    }
    assert_eq!(to_hex(&[0, 1, 0xab, 0xff]), "0001abff");
}

#[test]
fn paths_are_joined_as_std_joins_them() {
    for directory in ["", "a", "a/", "/", "/a/b"] {
        for name in ["", "c", "/c", "c/d"] {
            let joined = std::path::Path::new(directory).join(name);
            assert_eq!(join(directory, name), joined.to_str().unwrap());
        }
    }
}

#[test]
fn manifests_are_known_by_their_extension() {
    for name in ["a.json", "a.b.json", ".json", "json", "a.json.part", "..json", "a.JSON"] {
        let extension = std::path::Path::new(name).extension();
        assert_eq!(
            manifest_name(name),
            extension.and_then(|value| value.to_str()) == Some("json")
        );
    }
}

#[test]
fn samples_survive_their_bytes() {
    let samples = [0, 1, -1, i32::MIN, i32::MAX, 0x0102_0304];
    let bytes = to_le_bytes(&samples);
    assert_eq!(&bytes[20..], &[4, 3, 2, 1]);
    assert_eq!(from_le_bytes(&bytes), samples.to_vec());
    assert_eq!(from_le_bytes(&bytes[..7]), vec![0]);
    assert_eq!(unsigned_abs(i32::MIN), 2_147_483_648);
}

#[test]
fn the_digest_of_a_file_does_not_depend_on_its_pieces() {
    let mut whole = FileDigest::new();
    whole.update(b"abc");
    assert_eq!(
        whole.finish(),
        (
            "ba7816bf8f01cfea414140de5dae2223b00361a396177a9cb410ff61f20015ad".to_owned(),
            3
        )
    );
    let mut pieces = FileDigest::new();
    pieces.update(b"a");
    pieces.update(b"");
    pieces.update(b"bc");
    assert_eq!(
        pieces.finish().0,
        "ba7816bf8f01cfea414140de5dae2223b00361a396177a9cb410ff61f20015ad"
    );
    assert_eq!(
        FileDigest::new().finish(),
        (
            "e3b0c44298fc1c149afbf4c8996fb92427ae41e4649b934ca495991b7852b855".to_owned(),
            0
        )
    );
}

#[test]
fn credentials_name_the_agent_and_prove_it() {
    let credentials = Credentials {
        agent_id: 0x0123_4567_89ab_cdef_0123_4567_89ab_cdef,
        room_id: "room".to_owned(),
        token: "abc".to_owned(),
    };
    assert_eq!(
        credentials.agent_id_text(),
        "01234567-89ab-cdef-0123-456789abcdef"
    );
    assert_eq!(credentials.authorization(), "Bearer abc");
}
