use sst_meta::legacy::{decode_kv_meta, KvPair};
use sst_meta::meta_data::Error;

fn pair(key: &str, value: &[u8]) -> KvPair {
    KvPair { key: key.to_string(), value: value.to_vec() }
}

#[test]
fn absent_block_is_kv_meta_data_not_found() {
    assert_eq!(decode_kv_meta(&None), Err(Error::KvMetaDataNotFound));
}

#[test]
fn absent_version_tag_is_kv_meta_data_not_found() {
    let kv = Some(vec![pair("something_else", b"2")]);
    assert_eq!(decode_kv_meta(&kv), Err(Error::KvMetaDataNotFound));
    assert_eq!(decode_kv_meta(&Some(vec![])), Err(Error::KvMetaDataNotFound));
}

#[test]
fn empty_version_tag_is_kv_meta_version_empty() {
    let kv = Some(vec![pair("meta_version", b"")]);
    assert_eq!(decode_kv_meta(&kv), Err(Error::KvMetaVersionEmpty));
}

#[test]
fn unknown_version_carries_exact_text() {
    let kv = Some(vec![pair("meta_version", b"9-beta")]);
    assert_eq!(
        decode_kv_meta(&kv),
        Err(Error::UnknownMetaVersion { version: "9-beta".to_string() })
    );
}

#[test]
fn absent_path_is_kv_meta_path_empty() {
    let kv = Some(vec![pair("meta_version", b"2")]);
    assert_eq!(decode_kv_meta(&kv), Err(Error::KvMetaPathEmpty));
}

#[test]
fn empty_path_is_kv_meta_path_empty() {
    let kv = Some(vec![pair("meta_version", b"2"), pair("meta_path", b"")]);
    assert_eq!(decode_kv_meta(&kv), Err(Error::KvMetaPathEmpty));
}

#[test]
fn invalid_utf8_version_is_utf8_error() {
    let kv = Some(vec![pair("meta_version", &[0xFF, 0xFE])]);
    assert_eq!(decode_kv_meta(&kv), Err(Error::Utf8ErrorWrapper));
}

#[test]
fn invalid_utf8_path_is_utf8_error() {
    let kv = Some(vec![pair("meta_version", b"2"), pair("meta_path", &[0x80])]);
    assert_eq!(decode_kv_meta(&kv), Err(Error::Utf8ErrorWrapper));
}

#[test]
fn current_version_yields_decoded_path() {
    let path = "tables/7/meta-αβ.sst";
    let kv = Some(vec![pair("meta_version", b"2"), pair("meta_path", path.as_bytes())]);
    assert_eq!(decode_kv_meta(&kv), Ok(path.to_string()));
}

#[test]
fn first_pair_wins_on_duplicate_keys() {
    let kv = Some(vec![
        pair("meta_version", b"2"),
        pair("meta_version", b"9"),
        pair("meta_path", b"first"),
        pair("meta_path", b"second"),
    ]);
    assert_eq!(decode_kv_meta(&kv), Ok("first".to_string()));
}
