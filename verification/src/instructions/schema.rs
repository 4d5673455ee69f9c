//! The schema registry, with per-address quotas and a size limit on
//! definitions that the admin configures.

use vstd::prelude::*;

use crate::bytes::{bytes_eq, copy_bytes};
use crate::errors::Error;
use crate::state::{
    default_schema_config, opt_address_view, Address, ProtocolStore, Schema,
    SchemaRegistrationConfig, SchemaView, StoreView,
};
use crate::utils::{generate_schema_uid, schema_uid_of};

verus! {

/// The limits in force: those the admin set, or the defaults.
pub open spec fn effective_schema_config(s: StoreView) -> SchemaRegistrationConfig {
    match s.schema_config {
        Some(c) => c,
        None => default_schema_config(),
    }
}

/// The number of schemas an address has registered.
pub open spec fn schema_count_of(s: StoreView, address: Seq<u8>) -> u32 {
    if s.schema_counts.contains_key(address) {
        s.schema_counts[address]
    } else {
        0
    }
}

/// Gets the schema registration limits, the defaults if none were set.
fn get_schema_config(store: &ProtocolStore) -> (c: SchemaRegistrationConfig)
    ensures
        c == effective_schema_config(store@),
{
    match store.schema_config() {
        Some(c) => c,
        None => SchemaRegistrationConfig::default(),
    }
}

/// Gets the number of schemas an address has registered.
fn get_schema_count(store: &ProtocolStore, address: &Address) -> (n: u32)
    requires
        store.wf(),
    ensures
        n == schema_count_of(store@, address@),
{
    match store.schema_count(address) {
        Some(n) => n,
        None => 0,
    }
}

/// Adds one to the number of schemas an address has registered.
fn increment_schema_count(store: &mut ProtocolStore, address: &Address)
    requires
        old(store).wf(),
        schema_count_of(old(store)@, address@) < u32::MAX,
    ensures
        final(store).wf(),
        final(store)@ == (StoreView {
            schema_counts: old(store)@.schema_counts.insert(
                address@,
                (schema_count_of(old(store)@, address@) + 1) as u32,
            ),
            ..old(store)@
        }),
{
    let current = get_schema_count(store, address);
    store.set_schema_count(address, current + 1);
}

/// Retrieves a schema by its uid, or fails with `SchemaNotFound`.
pub fn get_schema_or_fail(store: &ProtocolStore, schema_uid: &[u8; 32]) -> (r: Result<Schema, Error>)
    requires
        store.wf(),
    ensures
        match r {
            Ok(s) => store@.schemas.contains_key(schema_uid@) && store@.schemas[schema_uid@] == s@,
            Err(e) => e == Error::SchemaNotFound && !store@.schemas.contains_key(schema_uid@),
        },
{
    match store.schema(schema_uid) {
        Some(s) => Ok(s.copied()),
        None => Err(Error::SchemaNotFound),
    }
}

/// The outcome of registering a schema: its uid, or why it was refused.
pub open spec fn register_schema_result(
    s: StoreView,
    caller: Seq<u8>,
    definition: Seq<u8>,
    resolver: Option<Seq<u8>>,
) -> Result<Seq<u8>, Error> {
    let config = effective_schema_config(s);
    let uid = schema_uid_of(definition, caller, resolver);
    if definition.len() > config.max_definition_size {
        Err(Error::SchemaDefinitionTooLarge)
    } else if schema_count_of(s, caller) >= config.max_schemas_per_address {
        Err(Error::SchemaQuotaExceeded)
    } else if s.schemas.contains_key(uid) {
        Err(Error::SchemaAlreadyExists)
    } else {
        Ok(uid)
    }
}

/// The store after registering a schema: on success the schema is stored
/// under its uid and the caller's count grows by one; otherwise nothing changes.
pub open spec fn register_schema_state(
    s: StoreView,
    caller: Seq<u8>,
    definition: Seq<u8>,
    resolver: Option<Seq<u8>>,
    revocable: bool,
) -> StoreView {
    match register_schema_result(s, caller, definition, resolver) {
        Ok(uid) => StoreView {
            schemas: s.schemas.insert(
                uid,
                SchemaView { authority: caller, definition, resolver, revocable },
            ),
            schema_counts: s.schema_counts.insert(caller, (schema_count_of(s, caller) + 1) as u32),
            ..s
        },
        Err(_) => s,
    }
}

/// Registers a schema whose authority is the caller, and returns its uid.
/// The uid is derived from the definition, the caller and the resolver, so
/// registering the same schema twice is refused.
pub fn register_schema(
    env: &soroban_sdk::Env,
    store: &mut ProtocolStore,
    caller: &Address,
    schema_definition: Vec<u8>,
    resolver: Option<Address>,
    revocable: bool,
) -> (r: Result<[u8; 32], Error>)
    requires
        old(store).wf(),
        schema_definition@.len() <= u32::MAX,
    ensures
        final(store).wf(),
        match r {
            Ok(uid) => register_schema_result(
                old(store)@,
                caller@,
                schema_definition@,
                opt_address_view(resolver),
            ) == Ok::<Seq<u8>, Error>(uid@),
            Err(e) => register_schema_result(
                old(store)@,
                caller@,
                schema_definition@,
                opt_address_view(resolver),
            ) == Err::<Seq<u8>, Error>(e),
        },
        final(store)@ == register_schema_state(
            old(store)@,
            caller@,
            schema_definition@,
            opt_address_view(resolver),
            revocable,
        ),
{
    let config = get_schema_config(store);
    let definition_size = schema_definition.len() as u32;
    if definition_size > config.max_definition_size {
        return Err(Error::SchemaDefinitionTooLarge);
    }
    let current_count = get_schema_count(store, caller);
    if current_count >= config.max_schemas_per_address {
        return Err(Error::SchemaQuotaExceeded);
    }
    let schema_uid = generate_schema_uid(env, schema_definition.as_slice(), caller, &resolver);
    if store.schema(&schema_uid).is_some() {
        return Err(Error::SchemaAlreadyExists);
    }
    let schema = Schema {
        authority: caller.copied(),
        definition: schema_definition,
        resolver,
        revocable,
    };
    store.insert_schema(copy_bytes(&schema_uid), schema);
    increment_schema_count(store, caller);
    Ok(schema_uid)
}

/// The outcome of an attempt by `admin` to set the registration limits.
pub open spec fn set_schema_config_result(s: StoreView, admin: Seq<u8>) -> Result<(), Error> {
    match s.admin {
        None => Err(Error::NotInitialized),
        Some(stored) => if admin != stored {
            Err(Error::NotAuthorized)
        } else {
            Ok(())
        },
    }
}

/// The store after an attempt by `admin` to set the registration limits.
pub open spec fn set_schema_config_state(
    s: StoreView,
    admin: Seq<u8>,
    config: SchemaRegistrationConfig,
) -> StoreView {
    match set_schema_config_result(s, admin) {
        Ok(_) => StoreView { schema_config: Some(config), ..s },
        Err(_) => s,
    }
}

/// Sets the schema registration limits; only the admin may.
pub fn set_schema_registration_config(
    store: &mut ProtocolStore,
    admin: &Address,
    max_schemas_per_address: u32,
    max_definition_size: u32,
) -> (r: Result<(), Error>)
    requires
        old(store).wf(),
    ensures
        final(store).wf(),
        r == set_schema_config_result(old(store)@, admin@),
        final(store)@ == set_schema_config_state(
            old(store)@,
            admin@,
            SchemaRegistrationConfig { max_schemas_per_address, max_definition_size },
        ),
{
    let is_admin = match store.admin() {
        Some(stored) => bytes_eq(admin.as_bytes(), stored.as_bytes()),
        None => return Err(Error::NotInitialized),
    };
    if !is_admin {
        return Err(Error::NotAuthorized);
    }
    store.set_schema_config(SchemaRegistrationConfig { max_schemas_per_address, max_definition_size });
    Ok(())
}

/// Gets the schema registration limits in force.
pub fn get_schema_registration_config(store: &ProtocolStore) -> (c: SchemaRegistrationConfig)
    ensures
        c == effective_schema_config(store@),
{
    get_schema_config(store)
}

/// Gets the number of schemas registered by an address.
pub fn get_address_schema_count(store: &ProtocolStore, address: &Address) -> (n: u32)
    requires
        store.wf(),
    ensures
        n == schema_count_of(store@, address@),
{
    get_schema_count(store, address)
}

} // verus!
