//! Game identifiers are `uuid::Uuid` values; the library reads them only as
//! their 128-bit value.
use vstd::prelude::*;

use uuid::Uuid;

verus! {

#[verifier::external_type_specification]
#[verifier::external_body]
pub struct ExUuid(Uuid);

/// The 128-bit value of a UUID, as `Uuid::as_u128` returns it.
pub uninterp spec fn uuid_value(u: Uuid) -> u128;

/// Relies on `Uuid::new_v4`: a random identifier, of which nothing is known.
pub assume_specification[ Uuid::new_v4 ]() -> Uuid;

/// Relies on `Uuid::as_u128`: the identifier's value.
pub assume_specification[ Uuid::as_u128 ](u: &Uuid) -> (r: u128)
    ensures
        r == uuid_value(*u),
;

/// Relies on `Uuid::from_u128`: the identifier with that value. A UUID is
/// its 16 bytes, which `as_u128` reads whole, so it is the only one.
pub assume_specification[ Uuid::from_u128 ](v: u128) -> (r: Uuid)
    ensures
        uuid_value(r) == v,
        forall|u: Uuid| uuid_value(u) == v ==> u == r,
;

/// Relies on `Clone` for `Uuid`, which is `Copy`: the clone is the same value.
pub assume_specification[ <Uuid as Clone>::clone ](u: &Uuid) -> (r: Uuid)
    ensures
        r == *u,
;

/// The value of the UUID that `Uuid::parse_str` reads from `s`, if it
/// accepts `s`.
pub uninterp spec fn parsed_uuid(s: Seq<char>) -> Option<u128>;

/// Relies on `Uuid::parse_str`: it accepts a string or not depending on the
/// string alone, and what it accepts names one UUID. Its error value is
/// dropped.
#[verifier::external_body]
pub(crate) fn parse_uuid(s: &str) -> (r: Option<Uuid>)
    ensures
        match r {
            Some(u) => parsed_uuid(s@) == Some(uuid_value(u)),
            None => parsed_uuid(s@) is None,
        },
{
    Uuid::parse_str(s).ok()
}

} // verus!
