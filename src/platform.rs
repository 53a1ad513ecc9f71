use vstd::prelude::*;

verus! {

/// Relies on `uuid::Uuid::new_v4` and `Uuid::as_u128`: a random
/// identifier, read as its 128-bit big-endian value, with the version
/// nibble set to 4 and the variant bits to `10`. (It panics only when the
/// operating system yields no random bytes.)
#[verifier::external_body]
pub(crate) fn fresh_id() -> (r: u128)
    ensures
        (r >> 76u128) & 0xFu128 == 4,
        (r >> 62u128) & 3u128 == 2,
{
    uuid::Uuid::new_v4().as_u128()
}

/// Relies on `std::time::SystemTime::now`: whole seconds since the Unix
/// epoch, or 0 when the clock reads earlier than the epoch.
#[verifier::external_body]
pub(crate) fn now_secs() -> (r: u64) {
    std::time::SystemTime::now()
        .duration_since(std::time::UNIX_EPOCH)
        .unwrap_or_default()
        .as_secs()
}

/// Relies on `std::time::SystemTime::now`: nanoseconds since the Unix epoch,
/// cut to 64 bits.
#[verifier::external_body]
pub(crate) fn now_nanos() -> (r: u64) {
    std::time::SystemTime::now()
        .duration_since(std::time::UNIX_EPOCH)
        .unwrap_or_default()
        .as_nanos() as u64
}

/// Relies on `num_cpus::get`, documented to return at least 1.
#[verifier::external_body]
pub(crate) fn cpu_count() -> (r: usize)
    ensures
        r >= 1,
{
    num_cpus::get()
}

/// Relies on `FromIterator<char> for String`: the string holds exactly the
/// given characters, in order.
#[verifier::external_body]
pub(crate) fn string_from_chars(chars: &Vec<char>) -> (r: String)
    ensures
        r@ == chars@,
{
    chars.iter().collect()
}

} // verus!

verus! {

/// The hyphenated lower-case text of a UUID, as `uuid` prints it.
pub uninterp spec fn uuid_hyphenated(id: u128) -> Seq<char>;

/// Relies on the `Display` impl of `uuid::Uuid`: the text depends on the
/// identifier alone.
#[verifier::external_body]
pub(crate) fn uuid_text(id: u128) -> (r: String)
    ensures
        r@ == uuid_hyphenated(id),
{
    uuid::Uuid::from_u128(id).to_string()
}

} // verus!
