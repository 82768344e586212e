//! Request and response bodies of the Core API.
use vstd::prelude::*;

verus! {

#[derive(Clone, Debug, PartialEq, Eq, Default)]
pub struct GetMempoolTransactionsRequest {
    pub network: String,
    pub payload_hashes: Vec<String>,
}

#[derive(Clone, Debug, PartialEq, Eq, Default)]
pub struct GetMempoolTransactions200Response {
    pub count: u32,
    pub payloads: Vec<MempoolTransactionPayloads>,
}

#[derive(Clone, Debug, PartialEq, Eq, Default)]
pub struct MempoolTransactionPayloads {
    pub hash: String,
    pub hash_bech32m: String,
    pub hex: Option<String>,
    pub error: Option<String>,
}

#[derive(Clone, Debug, PartialEq, Eq, Default)]
pub struct GetMempoolListRequest {
    pub network: String,
}

#[derive(Clone, Debug, PartialEq, Eq, Default)]
pub struct GetMempoolList200Response {
    pub contents: Vec<MempoolTransactionHashes>,
}

#[derive(Clone, Debug, PartialEq, Eq, Default)]
pub struct MempoolTransactionHashes {
    pub intent_hash: String,
    pub intent_hash_bech32m: String,
    pub payload_hash: String,
    pub payload_hash_bech32m: String,
}

#[derive(Clone, Copy, Debug, PartialEq, Eq, Structural, Default)]
pub enum PublicKeyType {
    #[default]
    EcdsaSecp256k1,
    EddsaEd25519,
}

#[derive(Clone, Debug, PartialEq, Eq)]
pub struct PublicKey {
    pub key_type: PublicKeyType,
    pub key_hex: String,
}

#[derive(Clone, Copy, Debug, PartialEq, Eq, Structural)]
pub struct PreviewTransactionFlags {
    pub use_free_credit: bool,
    pub assume_all_signature_proofs: bool,
    pub skip_epoch_check: bool,
}

#[derive(Clone, Debug, PartialEq, Eq)]
pub struct TransactionPreviewRequestBody {
    pub network: String,
    pub manifest: String,
    pub blobs_hex: Option<Vec<String>>,
    pub start_epoch_inclusive: i64,
    pub end_epoch_exclusive: i64,
    pub notary_public_key: Option<PublicKey>,
    pub notary_is_signatory: Option<bool>,
    pub tip_percentage: i32,
    pub nonce: i64,
    pub signer_public_keys: Vec<PublicKey>,
    pub flags: PreviewTransactionFlags,
}

#[derive(Clone, Debug, PartialEq, Eq)]
pub struct Core4XXResponseBody {
    pub message: String,
    pub code: Option<i16>,
    pub details: Option<GatewayError>,
    pub trace_id: Option<String>,
}

#[derive(Clone, Debug, PartialEq, Eq)]
pub struct GatewayError {
    pub error_type: GatewayErrorType,
    pub address: Option<String>,
}

#[derive(Clone, Copy, Debug, PartialEq, Eq, Structural)]
pub enum GatewayErrorType {
    EntityNotFoundError,
    InvalidEntityError,
    NotSyncedUpError,
    InvalidRequestError,
    InvalidTransactionError,
    TransactionNotFoundError,
    InternalServerError,
}

#[derive(Clone, Debug, PartialEq, Eq)]
pub struct Log {
    pub level: String,
    pub message: String,
}

#[derive(Clone, Debug, PartialEq, Eq)]
pub enum EmitterType {
    Function {
        package_address: String,
        blueprint_name: String,
    },
    Method {
        entity: EntityReference,
        object_module_id: ModuleID,
    },
}

#[derive(Clone, Copy, Debug, PartialEq, Eq, Structural)]
pub enum ModuleID {
    Main,
    Metadata,
    Royalty,
    RoleAssignment,
}

#[derive(Clone, Debug, PartialEq, Eq)]
pub enum EventEmitterIdentifier {
    Function {
        package_address: String,
        blueprint_name: String,
    },
    Method {
        entity: EntityReference,
        object_module_id: ModuleID,
    },
}

#[derive(Clone, Copy, Debug, PartialEq, Eq, Structural)]
pub enum LocalTypeIdKind {
    WellKnown,
    SchemaLocal,
}

#[derive(Clone, Copy, Debug, PartialEq, Eq, Structural)]
pub enum EventEmitterIdentifierType {
    Function,
    Method,
}

#[derive(Clone, Copy, Debug, PartialEq, Eq, Structural, Default)]
pub enum Status {
    #[default]
    Succeeded,
    Failed,
    Rejected,
}

#[derive(Clone, Debug, PartialEq, Eq)]
pub struct EntityReference {
    pub entity_type: EntityType,
    pub is_global: bool,
    pub entity_address: String,
}

#[derive(Clone, Copy, Debug, PartialEq, Eq, Structural)]
pub enum EntityType {
    GlobalPackage,
    GlobalConsensusManager,
    GlobalValidator,
    GlobalGenericComponent,
    GlobalAccount,
    GlobalIdentity,
    GlobalAccessController,
    GlobalVirtualSecp256k1Account,
    GlobalVirtualSecp256k1Identity,
    GlobalVirtualEd25519Account,
    GlobalVirtualEd25519Identity,
    GlobalFungibleResource,
    InternalFungibleVault,
    GlobalNonFungibleResource,
    InternalNonFungibleVault,
    InternalGenericComponent,
    InternalKeyValueStore,
    GlobalOneResourcePool,
    GlobalTwoResourcePool,
    GlobalMultiResourcePool,
    GlobalTransactionTracker,
}

#[derive(Clone, Debug, PartialEq, Eq)]
pub struct TransactionSubmitRequestBody {
    pub network: String,
    pub notarized_transaction_hex: String,
}

#[derive(Clone, Debug, PartialEq, Eq, Default)]
pub struct TransactionStreamRequestBody {
    pub network: String,
    pub from_state_version: u64,
    pub limit: u32,
    pub sbor_format_options: SborFormatOptions,
    pub transaction_format_options: TransactionFormatOptions,
    pub substate_format_options: SubstateFormatOptions,
    pub include_proofs: bool,
}

#[derive(Clone, Copy, Debug, PartialEq, Eq, Structural, Default)]
pub struct SborFormatOptions {
    pub raw: bool,
    pub programmatic_json: bool,
}

#[derive(Clone, Copy, Debug, PartialEq, Eq, Structural, Default)]
pub struct TransactionFormatOptions {
    pub manifest: bool,
    pub blobs: bool,
    pub message: bool,
    pub raw_system_transaction: bool,
    pub raw_notarized_transaction: bool,
    pub raw_ledger_transaction: bool,
}

#[derive(Clone, Copy, Debug, PartialEq, Eq, Structural, Default)]
pub struct SubstateFormatOptions {
    pub raw: bool,
    pub hash: bool,
    pub typed: bool,
    pub previous: bool,
}

#[derive(Clone, Copy, Debug, PartialEq, Eq, Structural)]
pub struct CommittedStateIdentifier {
    pub state_version: u64,
}

#[derive(Clone, Copy, Debug, PartialEq, Eq, Structural, Default)]
pub struct LedgerTransaction {}

#[derive(Clone, Debug, PartialEq, Eq)]
pub enum LedgerTransactionType {
    Genesis(GenesisLedgerTransaction),
    User(UserLedgerTransaction),
    RoundUpdate(RoundUpdateLedgerTransaction),
}

#[derive(Clone, Debug, PartialEq, Eq, Default)]
pub struct GenesisLedgerTransaction {
    pub payload_hex: Option<String>,
    pub is_flash: bool,
    pub system_transaction: Option<SystemTransaction>,
}

#[derive(Clone, Debug, PartialEq, Eq, Default)]
pub struct SystemTransaction {
    pub payload_hex: Option<String>,
}

#[derive(Clone, Debug, PartialEq, Eq, Default)]
pub struct UserLedgerTransaction {
    pub payload_hex: Option<String>,
    pub notarized_transaction: NotarizedTransaction,
}

#[derive(Clone, Debug, PartialEq, Eq, Default)]
pub struct NotarizedTransaction {
    pub hash: String,
    pub hash_bech32m: String,
    pub payload_hex: Option<String>,
    pub signed_intent: SignedTransactionIntent,
}

#[derive(Clone, Debug, PartialEq, Eq, Default)]
pub struct SignedTransactionIntent {
    pub hash: String,
    pub hash_bech32m: String,
    pub intent: TransactionIntent,
}

#[derive(Clone, Debug, PartialEq, Eq, Default)]
pub struct TransactionIntent {
    pub hash: String,
    pub hash_bech32m: String,
    pub header: TransactionHeader,
    pub instructions: Option<String>,
}

#[derive(Clone, Copy, Debug, PartialEq, Eq, Structural, Default)]
pub struct TransactionHeader {
    pub network_id: u32,
    pub start_epoch_inclusive: u64,
    pub end_epoch_exclusive: u64,
    pub nonce: u64,
    pub notary_is_signatory: bool,
    pub tip_percentage: u32,
}

#[derive(Clone, Copy, Debug, PartialEq, Eq, Structural, Default)]
pub struct RoundUpdateLedgerTransaction {
}

#[derive(Clone, Copy, Debug, PartialEq, Eq, Structural)]
pub struct Transactionsubmit200ResponseBody {
    pub duplicate: bool,
}

#[derive(Clone, Debug, PartialEq, Eq)]
pub struct ScryptoCallPreviewRequestBody {
    pub network: String,
    pub target: TargetIdentifier,
    pub arguments: Vec<String>,
}

#[derive(Clone, Debug, PartialEq, Eq)]
pub enum TargetIdentifier {
    Function {
        package_address: String,
        blueprint_name: String,
        function_name: String,
    },
    Method {
        component_address: String,
        method_name: String,
    },
}

#[derive(Clone, Copy, Debug, PartialEq, Eq, Structural)]
pub struct LedgerStateSummary {
}

} // verus!
