//! Recognising the temperature sensor by its 1-Wire address.

use vstd::prelude::*;

verus! {

/// The family code that every DS18B20 carries in its address.
pub const DS18B20_FAMILY: u8 = 0x28;

/// The family code of a 64-bit device address: its least significant byte.
pub open spec fn spec_family_code(address: u64) -> int {
    address as int % 256
}

/// Whether `address` belongs to a DS18B20.
pub open spec fn is_ds18b20(address: u64) -> bool {
    spec_family_code(address) == DS18B20_FAMILY as int
}

/// Calls `one_wire_bus::Address::family_code` on the address with this value.
/// The crate returns the first byte of the value's little-endian encoding,
/// which is the value modulo 256.
#[verifier::external_body]
pub(crate) fn family_code(address: u64) -> (code: u8)
    ensures
        code as int == spec_family_code(address),
{
    one_wire_bus::Address(address).family_code()
}

/// Reads `ds18b20::FAMILY_CODE`, which the crate defines as `0x28`.
#[verifier::external_body]
pub(crate) fn sensor_family_code() -> (code: u8)
    ensures
        code == DS18B20_FAMILY,
{
    ds18b20::FAMILY_CODE
}

/// Calls `ds18b20::Ds18b20::new` on the address with this value and reports
/// whether a device came back. The crate returns one exactly when the
/// address's family code equals `ds18b20::FAMILY_CODE`, and reads nothing else.
#[verifier::external_body]
pub(crate) fn sensor_accepts(address: u64) -> (accepted: bool)
    ensures
        accepted == is_ds18b20(address),
{
    ds18b20::Ds18b20::new::<()>(one_wire_bus::Address(address)).is_ok()
}

/// Whether `found` is the first DS18B20 address in `addresses`, or `None` when
/// the sequence holds no such address.
pub open spec fn is_first_ds18b20(addresses: Seq<u64>, found: Option<u64>) -> bool {
    match found {
        Some(address) => exists|i: int|
            0 <= i < addresses.len() && addresses[i] == address && is_ds18b20(address)
                && forall|j: int| 0 <= j < i ==> !is_ds18b20(#[trigger] addresses[j]),
        None => forall|i: int| 0 <= i < addresses.len() ==> !is_ds18b20(#[trigger] addresses[i]),
    }
}

} // verus!
