//! Host values on their way to scripts.
//!
//! A script sees a host value as a `rhai::Dynamic`. The conversions copy: a
//! script never holds a reference into the host's data, and what it does to
//! its copy stays with the copy.

use crate::components::Health;
use rhai::Dynamic;
use vstd::prelude::*;
use vstd::std_specs::convert::FromSpecImpl;

verus! {

/// `rhai::Dynamic`, the engine's value of any type, carried as an opaque
/// value.
#[verifier::external_type_specification]
#[verifier::external_body]
pub struct ExDynamic(rhai::Dynamic);

/// What a script value holds, as far as this library makes such values.
pub enum Carried {
    /// The number of an entity's storage slot.
    EntityId(u64),
    /// A copy of a health record.
    Health(Health),
    /// Anything else, a value shared between script variables included.
    Other,
}

/// What `value` holds by itself.
pub uninterp spec fn carried(value: Dynamic) -> Carried;

/// Calls `Dynamic::from` on a `u64`. The engine has no variant of its own
/// for this type, so it boxes the number as a custom value.
#[verifier::external_body]
pub(crate) fn dynamic_from_id(id: u64) -> (value: Dynamic)
    ensures
        carried(value) == Carried::EntityId(id),
{
    Dynamic::from(id)
}

/// Calls `Dynamic::from` on a health record, which the engine boxes as a
/// custom value.
#[verifier::external_body]
pub(crate) fn dynamic_from_health(health: Health) -> (value: Dynamic)
    ensures
        carried(value) == Carried::Health(health),
{
    Dynamic::from(health)
}

impl From<Health> for Dynamic {
    /// The script value that holds `health`.
    fn from(health: Health) -> (value: Dynamic)
        ensures
            carried(value) == Carried::Health(health),
    {
        dynamic_from_health(health)
    }
}

impl FromSpecImpl<Health> for Dynamic {
    open spec fn obeys_from_spec() -> bool {
        false
    }

    open spec fn from_spec(health: Health) -> Dynamic {
        arbitrary()
    }
}

impl<'a> From<&'a Health> for Dynamic {
    /// The script value that holds a copy of `health`.
    fn from(health: &'a Health) -> (value: Dynamic)
        ensures
            carried(value) == Carried::Health(*health),
    {
        dynamic_from_health(health.clone())
    }
}

impl<'a> FromSpecImpl<&'a Health> for Dynamic {
    open spec fn obeys_from_spec() -> bool {
        false
    }

    open spec fn from_spec(health: &'a Health) -> Dynamic {
        arbitrary()
    }
}

/// What a script reads as `value` of the record that a script value holds:
/// the value of that record, and nothing where the script value holds no
/// record.
pub open spec fn read_back(value: Dynamic) -> Option<u32> {
    match carried(value) {
        Carried::Health(copy) => Some(copy.value),
        _ => None,
    }
}

/// A record reaches a script unchanged: a script value that holds `health`,
/// which is what both conversions make of it, whether they are given the
/// record or a borrow of it, reads back exactly the value of `health`.
pub proof fn converted_health_reads_back(health: Health, value: Dynamic)
    requires
        carried(value) == Carried::Health(health),
    ensures
        read_back(value) == Some(health.value),
{
}

} // verus!
