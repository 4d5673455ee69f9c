use vstd::prelude::*;

verus! {

/// Every way an operation of the protocol can fail.
#[derive(Copy, Clone, Debug, PartialEq, Eq, Structural)]
pub enum Error {
    TransferFailed,
    AuthorityNotRegistered,
    SchemaNotFound,
    AttestationExists,
    AttestationNotFound,
    NotAuthorized,
    StorageFailed,
    InvalidUid,
    /// A resolver rejected an attestation or revocation by answering `false`.
    ResolverError,
    SchemaHasNoResolver,
    AdminNotSet,
    AlreadyInitialized,
    NotInitialized,
    AttestationNotRevocable,
    InvalidSchemaDefinition,
    InvalidAttestationValue,
    InvalidReference,
    InvalidNonce,
    ExpiredSignature,
    InvalidSignature,
    AttestationExpired,
    InvalidDeadline,
    ResolverCallFailed,
    InvalidSignaturePoint,
    BlsPubKeyNotRegistered,
    IntegerOverflow,
    /// A schema with the same definition, authority, and resolver already exists.
    SchemaAlreadyExists,
    /// A resolver refused an attestation or revocation submitted by delegation.
    ResolverRejected,
    /// An attestation with the same uid is already stored.
    UIDAlreadyExists,
    /// The attestation has been revoked already.
    AlreadyRevoked,
    /// The schema definition is longer than the configured limit.
    SchemaDefinitionTooLarge,
    /// The address has registered as many schemas as the configured limit allows.
    SchemaQuotaExceeded,
}

impl Error {
    /// The number under which the contract reports this error.
    pub fn code(self) -> (c: u32)
        ensures
            c == error_code(self),
    {
        match self {
            Error::TransferFailed => 1,
            Error::AuthorityNotRegistered => 2,
            Error::SchemaNotFound => 3,
            Error::AttestationExists => 4,
            Error::AttestationNotFound => 5,
            Error::NotAuthorized => 6,
            Error::StorageFailed => 7,
            Error::InvalidUid => 9,
            Error::ResolverError => 10,
            Error::SchemaHasNoResolver => 11,
            Error::AdminNotSet => 12,
            Error::AlreadyInitialized => 13,
            Error::NotInitialized => 14,
            Error::AttestationNotRevocable => 15,
            Error::InvalidSchemaDefinition => 16,
            Error::InvalidAttestationValue => 17,
            Error::InvalidReference => 18,
            Error::InvalidNonce => 19,
            Error::ExpiredSignature => 20,
            Error::InvalidSignature => 21,
            Error::AttestationExpired => 22,
            Error::InvalidDeadline => 23,
            Error::ResolverCallFailed => 24,
            Error::InvalidSignaturePoint => 25,
            Error::BlsPubKeyNotRegistered => 26,
            Error::IntegerOverflow => 27,
            Error::SchemaAlreadyExists => 28,
            Error::ResolverRejected => 29,
            Error::UIDAlreadyExists => 30,
            Error::AlreadyRevoked => 31,
            Error::SchemaDefinitionTooLarge => 32,
            Error::SchemaQuotaExceeded => 33,
        }
    }
}

/// The number under which the contract reports each error.
pub open spec fn error_code(e: Error) -> u32 {
    match e {
        Error::TransferFailed => 1,
        Error::AuthorityNotRegistered => 2,
        Error::SchemaNotFound => 3,
        Error::AttestationExists => 4,
        Error::AttestationNotFound => 5,
        Error::NotAuthorized => 6,
        Error::StorageFailed => 7,
        Error::InvalidUid => 9,
        Error::ResolverError => 10,
        Error::SchemaHasNoResolver => 11,
        Error::AdminNotSet => 12,
        Error::AlreadyInitialized => 13,
        Error::NotInitialized => 14,
        Error::AttestationNotRevocable => 15,
        Error::InvalidSchemaDefinition => 16,
        Error::InvalidAttestationValue => 17,
        Error::InvalidReference => 18,
        Error::InvalidNonce => 19,
        Error::ExpiredSignature => 20,
        Error::InvalidSignature => 21,
        Error::AttestationExpired => 22,
        Error::InvalidDeadline => 23,
        Error::ResolverCallFailed => 24,
        Error::InvalidSignaturePoint => 25,
        Error::BlsPubKeyNotRegistered => 26,
        Error::IntegerOverflow => 27,
        Error::SchemaAlreadyExists => 28,
        Error::ResolverRejected => 29,
        Error::UIDAlreadyExists => 30,
        Error::AlreadyRevoked => 31,
        Error::SchemaDefinitionTooLarge => 32,
        Error::SchemaQuotaExceeded => 33,
    }
}

} // verus!
