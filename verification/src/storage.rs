//! What is handed to the non-volatile key-value storage.
use vstd::prelude::*;

verus! {

/// A value of the storage, with the type under which it is kept.
#[derive(Clone, Copy, PartialEq, Eq, Structural, Debug)]
pub enum StoredValue {
    U8(u8),
    I32(i32),
    I64(i64),
    U64(u64),
}

/// A request to write one value.
#[derive(Clone, Copy, Debug)]
pub struct StorageWrite {
    pub namespace: &'static str,
    pub key: &'static str,
    pub value: StoredValue,
}

/// Whether the storage takes `name` as a namespace or as a key: at most 15 characters, each of
/// them ASCII and none of them NUL.
pub open spec fn valid_name(name: Seq<char>) -> bool {
    name.len() <= 15 && forall|i: int| 0 <= i < name.len() ==> 0 < #[trigger] name[i] as int <= 127
}

/// The contents of one namespace.
pub type Contents = Map<Seq<char>, StoredValue>;

/// The byte that a namespace holds under `key`, if it holds one there.
pub open spec fn stored_u8(contents: Contents, key: Seq<char>) -> Option<u8> {
    if contents.contains_key(key) {
        match contents[key] {
            StoredValue::U8(value) => Some(value),
            _ => None,
        }
    } else {
        None
    }
}

/// The 32-bit number that a namespace holds under `key`, if it holds one there.
pub open spec fn stored_i32(contents: Contents, key: Seq<char>) -> Option<i32> {
    if contents.contains_key(key) {
        match contents[key] {
            StoredValue::I32(value) => Some(value),
            _ => None,
        }
    } else {
        None
    }
}

/// The signed 64-bit number that a namespace holds under `key`, if it holds one there.
pub open spec fn stored_i64(contents: Contents, key: Seq<char>) -> Option<i64> {
    if contents.contains_key(key) {
        match contents[key] {
            StoredValue::I64(value) => Some(value),
            _ => None,
        }
    } else {
        None
    }
}

} // verus!
