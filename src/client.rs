//! The raw read surface: keys named by their four characters, values of any
//! type, and key metadata as text.

use vstd::prelude::*;
use vstd::string::StringSliceAdditionalSpecFns;
use crate::commands::{key_from_name, key_of_name, CommandKey};
use crate::error::Error;
use crate::keys::{is_key_text, u32_to_key};
use crate::protocol::KeyInfo;

verus! {

/// Metadata of a key, as text.
#[derive(Clone, Debug)]
pub struct SmcKeyInfo {
    /// The key.
    pub key: String,
    /// Its type tag.
    pub data_type: String,
    /// Its payload size in bytes.
    pub data_size: u32,
}

/// The key to read for a caller-supplied name: a name that is not exactly
/// four bytes long is refused.
pub fn key_for_read(key: &str) -> (r: core::result::Result<CommandKey, Error>)
    ensures
        r == key_of_name(key.spec_bytes()),
{
    key_from_name(key)
}

/// The metadata of a key read by name, as text.
pub fn key_info_text(key: &str, info: KeyInfo) -> (r: SmcKeyInfo)
    ensures
        r.key@ == key@,
        is_key_text(info.data_type, r.data_type@),
        r.data_size == info.data_size,
{
    SmcKeyInfo { key: key.to_owned(), data_type: u32_to_key(info.data_type), data_size: info.data_size }
}

/// The metadata that reads by index gave, skipping the reads that failed,
/// in index order.
pub open spec fn listed_infos(infos: Seq<core::result::Result<KeyInfo, Error>>) -> Seq<KeyInfo>
    decreases infos.len(),
{
    if infos.len() == 0 {
        Seq::empty()
    } else {
        let rest = listed_infos(infos.drop_last());
        match infos.last() {
            Ok(info) => rest.push(info),
            Err(_) => rest,
        }
    }
}

/// Lists the names of the keys that reads by index gave, skipping failures.
pub fn list_keys(infos: &Vec<core::result::Result<KeyInfo, Error>>) -> (r: Vec<String>)
    ensures
        r@.len() == listed_infos(infos@).len(),
        forall|j: int| 0 <= j < r@.len() ==> is_key_text(#[trigger] listed_infos(infos@)[j].key, r@[j]@),
{
    let mut out: Vec<String> = Vec::new();
    let mut i: usize = 0;
    while i < infos.len()
        invariant
            0 <= i <= infos@.len(),
            out@.len() == listed_infos(infos@.take(i as int)).len(),
            forall|j: int| 0 <= j < out@.len() ==> is_key_text(#[trigger] listed_infos(infos@.take(i as int))[j].key, out@[j]@),
        decreases infos@.len() - i,
    {
        assert(infos@.take(i + 1).drop_last() =~= infos@.take(i as int));
        match &infos[i] {
            Ok(info) => {
                let name = u32_to_key(info.key);
                out.push(name);
            },
            Err(_) => {},
        }
        i += 1;
    }
    assert(infos@.take(i as int) =~= infos@);
    out
}

} // verus!
