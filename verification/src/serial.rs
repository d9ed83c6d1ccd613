//! The raw identifiers of the store, as `typed_ids` serials.

use typed_ids::SerialU64;
use vstd::prelude::*;

verus! {

/// `typed_ids::SerialU64`, carried as an opaque value.
#[verifier::external_type_specification]
#[verifier::external_body]
#[verifier::reject_recursive_types(T)]
pub struct ExSerialU64<T: ?Sized>(SerialU64<T>);

/// The number that an untyped serial carries.
pub uninterp spec fn serial_value(id: SerialU64<()>) -> u64;

/// `SerialU64::try_from`: a serial exists for every number but zero, and
/// carries the number it was made from.
#[verifier::external_body]
pub(crate) fn serial_from_u64(val: u64) -> (r: Option<SerialU64<()>>)
    ensures
        r is Some <==> val != 0,
        r matches Some(id) ==> serial_value(id) == val,
{
    SerialU64::<()>::try_from(val).ok()
}

/// `SerialU64::get`: the number that the serial carries, which is never zero.
#[verifier::external_body]
pub(crate) fn serial_get(id: SerialU64<()>) -> (v: u64)
    ensures
        v == serial_value(id),
        v != 0,
{
    id.get()
}

/// `SerialU64::try_from` at the tag `T`: a serial exists for every number but
/// zero. Nothing is claimed of the number in a tagged serial.
#[verifier::external_body]
pub(crate) fn tagged_serial_from_u64<T>(val: u64) -> (r: Option<SerialU64<T>>)
    ensures
        r is Some <==> val != 0,
{
    SerialU64::<T>::try_from(val).ok()
}

/// Whether `id` may be the serial that `SerialU64::try_from` makes at the tag
/// `T` from the number `val`.
pub closed spec fn is_tagged_serial_of<T>(val: u64, id: SerialU64<T>) -> bool {
    call_ensures(tagged_serial_from_u64::<T>, (val,), Some(id))
}

/// The serial with the number of `id` and the tag `T`.
pub(crate) fn tagged_serial<T>(id: SerialU64<()>) -> (tagged: SerialU64<T>)
    ensures
        is_tagged_serial_of(serial_value(id), tagged),
{
    let made = tagged_serial_from_u64(serial_get(id));
    made.unwrap()
}

} // verus!
