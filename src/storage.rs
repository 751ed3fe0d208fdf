//! A key-value store of text, kept as a JSON object.
//!
//! The store is an explicit value: the caller reads the backing file, hands
//! its contents to `storage_init`, and writes back the text that each change
//! returns.

use vstd::prelude::*;
use crate::data::CError;
use crate::json::{
    json_entries, json_is_object, json_dump_of, json_parsed_entries, new_object, is_object, has_key,
    object_len, insert_text, remove_key, clear_value, entry_text, dump, parse, JSON_TEXT_LIMIT,
};

verus! {

/// A key-value store of text.
pub struct CStorage {
    data: json::JsonValue,
}

impl View for CStorage {
    type V = Map<Seq<char>, Seq<char>>;

    closed spec fn view(&self) -> Map<Seq<char>, Seq<char>> {
        json_entries(self.data)
    }
}

impl CStorage {
    /// The backing value is a JSON object, with finitely many keys.
    pub closed spec fn wf(&self) -> bool {
        json_is_object(self.data) && json_entries(self.data).dom().finite()
    }

    /// Whether the store is well formed, as every store that `storage_init`
    /// returns is.
    pub fn is_valid(&self) -> (r: bool)
        ensures
            r == self.wf(),
    {
        is_object(&self.data)
    }

    /// The text that saves the store.
    pub closed spec fn saved_text(&self) -> Seq<char> {
        json_dump_of(self.data)
    }
}

/// A store from the contents of its backing file: none or empty contents
/// give an empty store; contents longer than `JSON_TEXT_LIMIT` characters
/// are refused as too long; other contents must be a JSON object, whose
/// entries the store then holds, or the store is corrupt. Valid JSON that is
/// not an object is refused too: every operation of a store reads or writes
/// keys, which only an object has.
pub fn storage_init(contents: Option<String>) -> (r: Result<CStorage, CError>)
    ensures
        match contents {
            None => r matches Ok(s) && s.wf() && s@ == Map::<Seq<char>, Seq<char>>::empty(),
            Some(c) => {
                if c@.len() == 0 {
                    r matches Ok(s) && s.wf() && s@ == Map::<Seq<char>, Seq<char>>::empty()
                } else if c@.len() > JSON_TEXT_LIMIT {
                    r == Err::<CStorage, CError>(CError::TooLong)
                } else {
                    match json_parsed_entries(c@) {
                        Some(Some(e)) => r matches Ok(s) && s.wf() && s@ == e,
                        _ => r == Err::<CStorage, CError>(CError::Corrupt),
                    }
                }
            },
        },
{
    match contents {
        None => Ok(CStorage { data: new_object() }),
        Some(text) => {
            let n = text.as_str().unicode_len();
            if n == 0 {
                Ok(CStorage { data: new_object() })
            } else if n > JSON_TEXT_LIMIT {
                Err(CError::TooLong)
            } else {
                match parse(text.as_str()) {
                    Some(v) => {
                        if is_object(&v) {
                            Ok(CStorage { data: v })
                        } else {
                            Err(CError::Corrupt)
                        }
                    },
                    None => Err(CError::Corrupt),
                }
            }
        },
    }
}

/// Removes every entry; the backing file is then saved empty, so the text
/// to save is empty.
pub fn storage_clear(storage: &mut CStorage) -> (r: String)
    requires
        old(storage).wf(),
    ensures
        final(storage).wf(),
        final(storage)@ == Map::<Seq<char>, Seq<char>>::empty(),
        r@.len() == 0,
{
    clear_value(&mut storage.data);
    String::new()
}

/// The text stored under `key`, if any.
pub fn storage_get(storage: &CStorage, key: &str) -> (r: Option<String>)
    requires
        storage.wf(),
    ensures
        match r {
            Some(v) => storage@.contains_key(key@) && v@ == storage@[key@],
            None => !storage@.contains_key(key@),
        },
{
    if has_key(&storage.data, key) {
        Some(entry_text(&storage.data, key))
    } else {
        None
    }
}

/// The number of keys in the store.
pub fn storage_length(storage: &CStorage) -> (r: usize)
    requires
        storage.wf(),
    ensures
        r == storage@.len(),
{
    object_len(&storage.data)
}

/// Removes `key`, and returns the text that saves the store.
pub fn storage_remove(storage: &mut CStorage, key: &str) -> (r: String)
    requires
        old(storage).wf(),
    ensures
        final(storage).wf(),
        final(storage)@ == old(storage)@.remove(key@),
        final(storage)@.len() == old(storage)@.len() - (if old(storage)@.contains_key(key@) {
            1int
        } else {
            0int
        }),
        r@ == final(storage).saved_text(),
{
    remove_key(&mut storage.data, key);
    dump(&storage.data)
}

/// Stores `value` under `key`, replacing what was there, and returns the
/// text that saves the store.
pub fn storage_set(storage: &mut CStorage, key: &str, value: &str) -> (r: String)
    requires
        old(storage).wf(),
    ensures
        final(storage).wf(),
        final(storage)@ == old(storage)@.insert(key@, value@),
        final(storage)@.len() == old(storage)@.len() + (if old(storage)@.contains_key(key@) {
            0int
        } else {
            1int
        }),
        r@ == final(storage).saved_text(),
{
    let _ = insert_text(&mut storage.data, key, value);
    dump(&storage.data)
}

} // verus!
