//! The calls into other crates, and what is taken for granted of them.

use base64::Engine;
use vstd::prelude::*;

verus! {

/// A JSON value of `serde_json`, opaque here.
#[verifier::external_type_specification]
#[verifier::external_body]
pub struct ExValue(serde_json::Value);

/// The error of a refused base64 text, opaque here.
#[verifier::external_type_specification]
#[verifier::external_body]
pub struct ExDecodeError(base64::DecodeError);

/// The members of a JSON object whose value is a string, by key; empty for a value that is not
/// an object.
pub uninterp spec fn text_members(value: serde_json::Value) -> Map<Seq<char>, Seq<char>>;

/// Calls `serde_json::Value::get` and `serde_json::Value::as_str`.
///
/// Claimed: the text comes back exactly when `value` is an object that has the key with a string
/// for its value, and it is that string.
#[verifier::external_body]
pub(crate) fn text_member(value: &serde_json::Value, key: &str) -> (text: Option<String>)
    ensures
        text is Some <==> text_members(*value).contains_key(key@),
        text matches Some(t) ==> t@ == text_members(*value)[key@],
{
    value.get(key).and_then(|v| v.as_str()).map(|s| s.to_string())
}

/// The bytes that a padded standard-alphabet base64 text stands for, or `None` where the text is
/// not such an encoding.
pub uninterp spec fn base64_bytes(text: Seq<char>) -> Option<Seq<u8>>;

/// Calls `base64::Engine::decode` of the engine `base64::engine::general_purpose::STANDARD`.
///
/// Claimed: the outcome is a function of the text alone, named `base64_bytes`, and the empty text
/// decodes to no bytes.
#[verifier::external_body]
pub(crate) fn decode_base64(text: &str) -> (decoded: Result<Vec<u8>, base64::DecodeError>)
    ensures
        decoded is Ok <==> base64_bytes(text@) is Some,
        decoded matches Ok(bytes) ==> base64_bytes(text@) == Some(bytes@),
        decoded matches Ok(bytes) ==> (text@.len() == 0 ==> bytes@.len() == 0),
        decoded is Err ==> text@.len() > 0,
{
    base64::engine::general_purpose::STANDARD.decode(text)
}

/// The lock of `tokio`, opaque here.
#[verifier::external_type_specification]
#[verifier::external_body]
#[verifier::reject_recursive_types(T)]
pub struct ExMutex<T: ?Sized>(tokio::sync::Mutex<T>);

/// The guard of a held lock of `tokio`, opaque here.
#[verifier::external_type_specification]
#[verifier::external_body]
#[verifier::reject_recursive_types(T)]
pub struct ExMutexGuard<'a, T: ?Sized>(tokio::sync::MutexGuard<'a, T>);

/// The error of a lock that is held elsewhere, opaque here.
#[verifier::external_type_specification]
#[verifier::external_body]
pub struct ExTryLockError(tokio::sync::TryLockError);

/// Calls `tokio::sync::Mutex::const_new` on the unit value. Nothing is claimed of the lock.
#[verifier::external_body]
pub(crate) fn new_lock() -> (lock: tokio::sync::Mutex<()>) {
    tokio::sync::Mutex::const_new(())
}

/// `tokio::sync::Mutex::try_lock`: a guard, or an error while the lock is held elsewhere. Which of
/// the two comes back depends on the guards that are out, so nothing is claimed of it.
pub assume_specification<'a, T: ?Sized>[ tokio::sync::Mutex::<T>::try_lock ](
    lock: &'a tokio::sync::Mutex<T>,
) -> (guard: Result<tokio::sync::MutexGuard<'a, T>, tokio::sync::TryLockError>)
;

} // verus!
