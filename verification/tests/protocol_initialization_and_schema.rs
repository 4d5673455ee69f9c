use protocol::errors::Error;
use protocol::instructions::admin::initialize;
use protocol::instructions::schema::{
    get_address_schema_count, get_schema_registration_config, register_schema,
    set_schema_registration_config,
};
use protocol::state::{Address, ProtocolStore};
use protocol::utils::{create_xdr_string, get_schema};
use soroban_sdk::testutils::Address as _;
use soroban_sdk::xdr::ToXdr;
use soroban_sdk::Env;

struct SchemaRegistrationParams {
    name: &'static str,
    schema_definition: String,
    resolver: Option<Address>,
    revocable: bool,
}

fn new_address(env: &Env) -> Address {
    let a = soroban_sdk::Address::generate(env);
    let xdr = a.to_xdr(env);
    let mut bytes = vec![0u8; xdr.len() as usize];
    xdr.copy_into_slice(&mut bytes);
    Address::from_xdr(bytes)
}

fn initialized_store(env: &Env) -> (ProtocolStore, Address) {
    let mut store = ProtocolStore::new();
    let admin = new_address(env);
    initialize(&mut store, &admin).unwrap();
    (store, admin)
}

#[test]
fn initialize_and_register_schema() {
    let env = Env::default();
    let (mut store, _admin) = initialized_store(&env);

    let xdr_id = create_xdr_string(
        &env,
        br#"{"name":"Certificate","version":"1.5","description":"Revocable_Certificate_Schema","fields":[{"name":"certificate_type","type":"string"},{"name":"issued_date","type":"number"}]}"#,
    );
    let test_cases = [
        SchemaRegistrationParams {
            name: "schema_with_revocable",
            schema_definition: r#"{"name":"Degree","version":"1.0","description":"University degree","fields":[{"name":"degree","type":"string"}]}"#.to_string(),
            resolver: None,
            revocable: true,
        },
        SchemaRegistrationParams {
            name: "schema_xdr_with_revocable",
            schema_definition: format!("{}{}", "XDR:", String::from_utf8(xdr_id).unwrap()),
            resolver: None,
            revocable: true,
        },
    ];

    for case in test_cases {
        println!("Running test case: {}", case.name);
        let authority = new_address(&env);
        let definition = case.schema_definition.as_bytes().to_vec();
        let schema_uid = register_schema(
            &env,
            &mut store,
            &authority,
            definition.clone(),
            case.resolver.clone(),
            case.revocable,
        )
        .unwrap();

        let schema = get_schema(&store, &schema_uid).expect("registered schema is stored");
        assert_eq!(schema.authority.xdr, authority.xdr);
        assert_eq!(schema.definition, definition);
        assert_eq!(schema.resolver.map(|a| a.xdr), case.resolver.map(|a| a.xdr));
        assert_eq!(schema.revocable, case.revocable);
    }
}

#[test]
fn test_duplicate_schema_registration_fails() {
    let env = Env::default();
    let (mut store, _admin) = initialized_store(&env);
    let authority = new_address(&env);
    let definition = br#"{"name":"Degree","version":"1.0","description":"University degree","fields":[{"name":"degree","type":"string"}]}"#.to_vec();

    let _schema_uid = register_schema(&env, &mut store, &authority, definition.clone(), None, true).unwrap();

    let result = register_schema(&env, &mut store, &authority, definition, None, true);
    assert!(result.is_err());
    assert_eq!(result.err().unwrap(), Error::SchemaAlreadyExists);
}

#[test]
fn test_same_definition_different_authority_succeeds() {
    let env = Env::default();
    let (mut store, _admin) = initialized_store(&env);
    let authority1 = new_address(&env);
    let authority2 = new_address(&env);
    let definition = br#"{"name":"Certificate","version":"1.0","fields":[{"name":"type","type":"string"}]}"#.to_vec();

    let uid1 = register_schema(&env, &mut store, &authority1, definition.clone(), None, true).unwrap();
    let uid2 = register_schema(&env, &mut store, &authority2, definition, None, true).unwrap();

    assert_ne!(uid1, uid2);
}

#[test]
fn test_schema_quota_exceeded() {
    let env = Env::default();
    let (mut store, admin) = initialized_store(&env);
    let authority = new_address(&env);

    set_schema_registration_config(&mut store, &admin, 3, 4096).unwrap();

    for i in 0..3 {
        let def = format!(r#"{{"name":"Schema{}","version":"1.0"}}"#, i).into_bytes();
        let _uid = register_schema(&env, &mut store, &authority, def, None, true).unwrap();
    }

    let count = get_address_schema_count(&store, &authority);
    assert_eq!(count, 3);

    let def = br#"{"name":"Schema4","version":"1.0"}"#.to_vec();
    let result = register_schema(&env, &mut store, &authority, def, None, true);
    assert!(result.is_err());
    assert_eq!(result.err().unwrap(), Error::SchemaQuotaExceeded);
}

#[test]
fn test_schema_definition_too_large() {
    let env = Env::default();
    let (mut store, admin) = initialized_store(&env);
    let authority = new_address(&env);

    set_schema_registration_config(&mut store, &admin, 10, 100).unwrap();

    let large_definition = "x".repeat(150).into_bytes();
    let result = register_schema(&env, &mut store, &authority, large_definition, None, true);
    assert!(result.is_err());
    assert_eq!(result.err().unwrap(), Error::SchemaDefinitionTooLarge);
}

#[test]
fn test_admin_can_set_schema_config() {
    let env = Env::default();
    let (mut store, admin) = initialized_store(&env);

    let config = get_schema_registration_config(&store);
    assert_eq!(config.max_schemas_per_address, 10);
    assert_eq!(config.max_definition_size, 4096);

    set_schema_registration_config(&mut store, &admin, 5, 2048).unwrap();

    let config = get_schema_registration_config(&store);
    assert_eq!(config.max_schemas_per_address, 5);
    assert_eq!(config.max_definition_size, 2048);
}

#[test]
fn test_non_admin_cannot_set_schema_config() {
    let env = Env::default();
    let (mut store, _admin) = initialized_store(&env);
    let non_admin = new_address(&env);

    let result = set_schema_registration_config(&mut store, &non_admin, 5, 2048);
    assert!(result.is_err());
    assert_eq!(result.err().unwrap(), Error::NotAuthorized);
}

#[test]
fn test_independent_address_quotas() {
    let env = Env::default();
    let (mut store, admin) = initialized_store(&env);
    let authority1 = new_address(&env);
    let authority2 = new_address(&env);

    set_schema_registration_config(&mut store, &admin, 2, 4096).unwrap();

    for i in 0..2 {
        let def = format!(r#"{{"name":"Auth1Schema{}"}}"#, i).into_bytes();
        let _uid = register_schema(&env, &mut store, &authority1, def, None, true).unwrap();
    }

    assert_eq!(get_address_schema_count(&store, &authority1), 2);

    let def = br#"{"name":"Auth2Schema1"}"#.to_vec();
    let result = register_schema(&env, &mut store, &authority2, def, None, true);
    assert!(result.is_ok());
    assert_eq!(get_address_schema_count(&store, &authority2), 1);
}
