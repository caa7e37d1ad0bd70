//! Decoder of the legacy key-value metadata block.
//!
//! Older files carry their metadata as key-value pairs in the file footer:
//! a version tag under the key `meta_version`, and — for the current
//! version — the path of the metadata file under the key `meta_path`. An
//! absent block, an empty version, an unrecognized version, an absent or
//! empty path and a value that is not valid UTF-8 are all distinct,
//! detectable error conditions.

use crate::meta_data::Error;
use vstd::prelude::*;
use vstd::utf8::{decode_utf8, valid_utf8};

verus! {

/// One key-value pair of the legacy metadata block. Keys are text; values
/// are raw bytes that may need to be interpreted as text.
#[derive(Debug, PartialEq)]
pub struct KvPair {
    pub key: String,
    pub value: Vec<u8>,
}

/// Mathematical value of a [`KvPair`].
#[verifier::ext_equal]
pub ghost struct KvPairV {
    pub key: Seq<char>,
    pub value: Seq<u8>,
}

impl View for KvPair {
    type V = KvPairV;

    open spec fn view(&self) -> KvPairV {
        KvPairV { key: self.key@, value: self.value@ }
    }
}

/// The value of the first pair that carries `key`, if any.
pub open spec fn kv_lookup(pairs: Seq<KvPairV>, key: Seq<char>) -> Option<Seq<u8>>
    decreases pairs.len(),
{
    if pairs.len() == 0 {
        None
    } else if pairs[0].key == key {
        Some(pairs[0].value)
    } else {
        kv_lookup(pairs.drop_first(), key)
    }
}

/// Outcome of decoding a legacy metadata block: the metadata file path, or
/// the exact failure.
pub ghost enum KvOutcome {
    /// The current version with a non-empty path.
    Found(Seq<char>),
    /// The block, or its version tag, is absent.
    NotFound,
    /// The version tag is present but empty.
    VersionEmpty,
    /// The path field is absent or empty.
    PathEmpty,
    /// The version or path bytes are not valid UTF-8.
    BadUtf8,
    /// The version tag holds an unrecognized value.
    UnknownVersion(Seq<char>),
}

/// Mathematical value of a legacy block as the decoder sees it.
pub open spec fn kv_pairs_view(kv: Option<Vec<KvPair>>) -> Option<Seq<KvPairV>> {
    match kv {
        Some(pairs) => Some(pairs@.map_values(|p: KvPair| p@)),
        None => None,
    }
}

/// What decoding a legacy block yields, step by step: find the version
/// tag, interpret it as text, recognize its value, then find and interpret
/// the path.
pub open spec fn kv_decode_spec(pairs_opt: Option<Seq<KvPairV>>) -> KvOutcome {
    match pairs_opt {
        None => KvOutcome::NotFound,
        Some(pairs) => match kv_lookup(pairs, "meta_version"@) {
            None => KvOutcome::NotFound,
            Some(vb) => if !valid_utf8(vb) {
                KvOutcome::BadUtf8
            } else {
                let v = decode_utf8(vb);
                if v.len() == 0 {
                    KvOutcome::VersionEmpty
                } else if v == "2"@ {
                    match kv_lookup(pairs, "meta_path"@) {
                        None => KvOutcome::PathEmpty,
                        Some(pb) => if !valid_utf8(pb) {
                            KvOutcome::BadUtf8
                        } else if decode_utf8(pb).len() == 0 {
                            KvOutcome::PathEmpty
                        } else {
                            KvOutcome::Found(decode_utf8(pb))
                        },
                    }
                } else {
                    KvOutcome::UnknownVersion(v)
                }
            },
        },
    }
}

proof fn lemma_kv_lookup_found(pairs: Seq<KvPairV>, key: Seq<char>, i: int)
    requires
        0 <= i < pairs.len(),
        pairs[i].key == key,
        forall|j: int| 0 <= j < i ==> (#[trigger] pairs[j]).key != key,
    ensures
        kv_lookup(pairs, key) == Some(pairs[i].value),
    decreases i,
{
    if i > 0 {
        lemma_kv_lookup_found(pairs.drop_first(), key, i - 1);
    }
}

proof fn lemma_kv_lookup_none(pairs: Seq<KvPairV>, key: Seq<char>)
    requires
        forall|j: int| 0 <= j < pairs.len() ==> (#[trigger] pairs[j]).key != key,
    ensures
        kv_lookup(pairs, key) is None,
    decreases pairs.len(),
{
    if pairs.len() > 0 {
        lemma_kv_lookup_none(pairs.drop_first(), key);
    }
}

/// Finds the value of the first pair that carries `key`.
#[verifier::loop_isolation(false)]
fn kv_find(pairs: &Vec<KvPair>, key: &String) -> (r: Option<Vec<u8>>)
    ensures
        match kv_lookup(pairs@.map_values(|p: KvPair| p@), key@) {
            Some(v) => r matches Some(b) && b@ == v,
            None => r is None,
        },
{
    let ghost pv = pairs@.map_values(|p: KvPair| p@);
    let mut i: usize = 0;
    while i < pairs.len()
        invariant
            i <= pairs.len(),
            forall|j: int| 0 <= j < i ==> (#[trigger] pv[j]).key != key@,
        decreases pairs.len() - i,
    {
        if pairs[i].key == *key {
            proof {
                lemma_kv_lookup_found(pv, key@, i as int);
            }
            return Some(crate::meta_data::clone_bytes(&pairs[i].value));
        }
        i += 1;
    }
    proof {
        lemma_kv_lookup_none(pv, key@);
    }
    None
}

/// Interprets raw bytes as text.
///
/// Relies on `core::str::from_utf8`: it succeeds exactly on the byte
/// sequences that are valid UTF-8, and decodes them to their characters.
#[verifier::external_body]
fn utf8_to_text(bytes: &[u8]) -> (r: Option<String>)
    ensures
        r is Some <==> valid_utf8(bytes@),
        r matches Some(s) ==> s@ == decode_utf8(bytes@),
{
    match core::str::from_utf8(bytes) {
        Ok(s) => Some(s.to_owned()),
        Err(_) => None,
    }
}

/// Decodes a legacy key-value metadata block down to the path of the
/// metadata file. Every failure is a distinct error: an absent block or
/// version tag, a version tag that is empty or unrecognized (the latter
/// reported with the exact offending text), an absent or empty path, and
/// bytes that are not valid UTF-8.
pub fn decode_kv_meta(kv: &Option<Vec<KvPair>>) -> (r: Result<String, Error>)
    ensures
        match kv_decode_spec(kv_pairs_view(*kv)) {
            KvOutcome::Found(p) => r matches Ok(s) && s@ == p,
            KvOutcome::NotFound => r == Err::<String, Error>(Error::KvMetaDataNotFound),
            KvOutcome::VersionEmpty => r == Err::<String, Error>(Error::KvMetaVersionEmpty),
            KvOutcome::PathEmpty => r == Err::<String, Error>(Error::KvMetaPathEmpty),
            KvOutcome::BadUtf8 => r == Err::<String, Error>(Error::Utf8ErrorWrapper),
            KvOutcome::UnknownVersion(v) => r matches Err(e) && e matches Error::UnknownMetaVersion {
                version,
            } && version@ == v,
        },
{
    let pairs = match kv {
        None => {
            return Err(Error::KvMetaDataNotFound);
        },
        Some(pairs) => pairs,
    };
    let version_key: String = "meta_version".to_owned();
    let version_bytes = match kv_find(pairs, &version_key) {
        None => {
            return Err(Error::KvMetaDataNotFound);
        },
        Some(b) => b,
    };
    let version_text = match utf8_to_text(version_bytes.as_slice()) {
        None => {
            return Err(Error::Utf8ErrorWrapper);
        },
        Some(t) => t,
    };
    if version_text.as_str().is_empty() {
        return Err(Error::KvMetaVersionEmpty);
    }
    let current: String = "2".to_owned();
    if version_text == current {
        let path_key: String = "meta_path".to_owned();
        let path_bytes = match kv_find(pairs, &path_key) {
            None => {
                return Err(Error::KvMetaPathEmpty);
            },
            Some(b) => b,
        };
        let path_text = match utf8_to_text(path_bytes.as_slice()) {
            None => {
                return Err(Error::Utf8ErrorWrapper);
            },
            Some(t) => t,
        };
        if path_text.as_str().is_empty() {
            return Err(Error::KvMetaPathEmpty);
        }
        Ok(path_text)
    } else {
        Err(Error::UnknownMetaVersion { version: version_text })
    }
}

} // verus!
