//! Built-in service identities: the fixed internal users the control plane
//! acts as when no external caller is involved.

use vstd::prelude::*;

use crate::ids::{parse_uuid, uuid_value, valid_uuid};
use vstd::string::StringExecFns;

verus! {

/// One built-in user: a fixed identifier, a name, and what the identity is
/// used for.
#[derive(Debug)]
pub struct UserBuiltinConfig {
    pub id: u128,
    pub name: String,
    pub description: String,
}

impl UserBuiltinConfig {
    /// Builds a built-in user from its identifier's canonical text form;
    /// nothing is returned for text that is not a well-formed identifier.
    pub fn new_static(id: &str, name: &str, description: &str) -> (r: Option<UserBuiltinConfig>)
        ensures
            r is Some <==> valid_uuid(id@),
            (r matches Some(c) ==> c.id as int == uuid_value(id@) && c.name@ == name@
                && c.description@ == description@),
    {
        match parse_uuid(id) {
            None => None,
            Some(v) => Some(
                UserBuiltinConfig {
                    id: v,
                    name: String::from_str(name),
                    description: String::from_str(description),
                },
            ),
        }
    }
}

/// Internal user used for seeding initial database data.
pub fn user_db_init() -> (r: UserBuiltinConfig)
    ensures
        r.id == 0x001de000_05e4_4000_8000_000000000001u128,
        r.name@ == "db-init"@,
{
    UserBuiltinConfig {
        id: 0x001de000_05e4_4000_8000_000000000001,
        name: String::from_str("db-init"),
        description: String::from_str("used for seeding initial database data"),
    }
}

/// Internal user used when handling internal API requests.
pub fn user_internal_api() -> (r: UserBuiltinConfig)
    ensures
        r.id == 0x001de000_05e4_4000_8000_000000000002u128,
        r.name@ == "internal-api"@,
{
    UserBuiltinConfig {
        id: 0x001de000_05e4_4000_8000_000000000002,
        name: String::from_str("internal-api"),
        description: String::from_str("used by the control plane when handling internal API requests"),
    }
}

/// Internal user used to read privileged control plane data.
pub fn user_internal_read() -> (r: UserBuiltinConfig)
    ensures
        r.id == 0x001de000_05e4_4000_8000_000000004eadu128,
        r.name@ == "internal-read"@,
{
    UserBuiltinConfig {
        id: 0x001de000_05e4_4000_8000_000000004ead,
        name: String::from_str("internal-read"),
        description: String::from_str("used by the control plane to read privileged control plane data"),
    }
}

/// Internal user used when recovering sagas.
pub fn user_saga_recovery() -> (r: UserBuiltinConfig)
    ensures
        r.id == 0x001de000_05e4_4000_8000_000000003a8au128,
        r.name@ == "saga-recovery"@,
{
    UserBuiltinConfig {
        id: 0x001de000_05e4_4000_8000_000000003a8a,
        name: String::from_str("saga-recovery"),
        description: String::from_str("used by the control plane when recovering sagas"),
    }
}

/// Internal user used when authenticating external requests.
pub fn user_external_authn() -> (r: UserBuiltinConfig)
    ensures
        r.id == 0x001de000_05e4_4000_8000_000000000003u128,
        r.name@ == "external-authn"@,
{
    UserBuiltinConfig {
        id: 0x001de000_05e4_4000_8000_000000000003,
        name: String::from_str("external-authn"),
        description: String::from_str("used by the control plane when authenticating external requests"),
    }
}

} // verus!
