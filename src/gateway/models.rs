//! Request and response bodies of the Gateway API.
use vstd::prelude::*;

verus! {

/// A JSON value, carried through as the caller gave it.
#[verifier::external_type_specification]
#[verifier::external_body]
pub struct ExJsonValue(serde_json::Value);

#[derive(Clone, Debug, PartialEq, Eq)]
pub struct StateEntityDetailsRequest {
    pub at_ledger_state: Option<LedgerStateSelector>,
    pub opt_ins: Option<StateEntityDetailsRequestOptIns>,
    pub addresses: Vec<String>,
    pub aggregation_level: Option<AggregationLevel>,
}

#[derive(Clone, Copy, Debug, PartialEq, Eq, Structural)]
pub struct StateEntityDetailsRequestOptIns {}

#[derive(Clone, Debug, PartialEq, Eq)]
pub struct StateEntityFungiblesPageRequest {
    pub at_ledger_state: Option<LedgerStateSelector>,
    pub cursor: Option<String>,
    pub limit_per_page: Option<u32>,
    pub address: String,
    pub aggregation_level: Option<AggregationLevel>,
    pub opt_ins: Option<StateEntityFungiblesPageRequestOptIns>,
}

#[derive(Clone, Copy, Debug, PartialEq, Eq, Structural)]
pub enum AggregationLevel {
    Global,
    Vault,
}

#[derive(Clone, Copy, Debug, PartialEq, Eq, Structural, Default)]
pub struct LedgerStateSelector {
    pub state_version: Option<u64>,
    pub timestamp: Option<u64>,
    pub epoch: Option<u64>,
    pub round: Option<u64>,
}

#[derive(Clone, Debug, PartialEq, Eq)]
pub struct StateEntityFungiblesPageRequestOptIns {
    pub explicit_metadata: Vec<String>,
}

#[derive(Clone, Debug, PartialEq, Eq)]
pub struct LedgerState {
    pub network: String,
    pub state_version: u64,
    pub proposer_round_timestamp: String,
    pub epoch: u64,
    pub round: u64,
}

#[derive(Clone, Copy, Debug, PartialEq, Eq, Structural)]
pub enum PublicKeyType {
    EcdsaSecp256k1,
    EddsaEd25519,
}

#[derive(Clone, Debug, PartialEq, Eq)]
pub struct PublicKey {
    pub key_type: PublicKeyType,
    pub key_hex: String,
}

#[derive(Clone, Copy, Debug, PartialEq, Eq, Structural)]
pub struct PreviewTransactionFlags {
    pub use_free_credit: bool,
    pub assume_all_signature_proofs: bool,
    pub skip_epoch_check: bool,
}

#[derive(Clone, Debug, PartialEq, Eq, Default)]
pub struct TransactionPreviewRequestBody {
    pub manifest: String,
    pub blobs_hex: Option<Vec<String>>,
    pub start_epoch_inclusive: i64,
    pub end_epoch_exclusive: i64,
    pub notary_public_key: Option<PublicKey>,
    pub notary_is_signatory: Option<bool>,
    pub tip_percentage: i32,
    pub nonce: String,
    pub signer_public_keys: Vec<PublicKey>,
    pub flags: PreviewTransactionFlags,
}

#[derive(Clone, Debug, PartialEq, Eq)]
pub struct Log {
    pub level: String,
    pub message: String,
}

#[derive(Clone, Debug, PartialEq, Eq)]
pub enum EventEmitterIdentifier {
    Method {
        entity: EntityReference,
        object_module_id: ModuleId,
    },
    Function {
        package_address: String,
        blueprint_name: String,
    },
}

#[derive(Clone, Copy, Debug, PartialEq, Eq, Structural)]
pub enum ModuleId {
    Main,
    Metadata,
    Royalty,
    RoleAssignment,
}

#[derive(Clone, Copy, Debug, PartialEq, Eq, Structural)]
pub enum LocalTypeIdKind {
    WellKnown,
    SchemaLocal,
}

#[derive(Clone, Copy, Debug, PartialEq, Eq, Structural)]
pub enum EventEmitterIdentifierType {
    Function,
    Method,
}

#[derive(Clone, Debug, PartialEq, Eq)]
pub struct EntityReference {
    pub entity_type: EntityType,
    pub is_global: bool,
    pub entity_address: String,
}

#[derive(Clone, Copy, Debug, PartialEq, Eq, Structural)]
pub enum EntityType {
    GlobalPackage,
    GlobalConsensusManager,
    GlobalValidator,
    GlobalGenericComponent,
    GlobalAccount,
    GlobalIdentity,
    GlobalAccessController,
    GlobalVirtualSecp256k1Account,
    GlobalVirtualSecp256k1Identity,
    GlobalVirtualEd25519Account,
    GlobalVirtualEd25519Identity,
    GlobalFungibleResource,
    InternalFungibleVault,
    GlobalNonFungibleResource,
    InternalNonFungibleVault,
    InternalGenericComponent,
    InternalKeyValueStore,
    GlobalOneResourcePool,
    GlobalTwoResourcePool,
    GlobalMultiResourcePool,
    GlobalTransactionTracker,
}

#[derive(Clone, Debug, PartialEq, Eq)]
pub struct TransactionSubmitRequestBody {
    pub notarized_transaction_hex: String,
}

#[derive(Clone, Copy, Debug, PartialEq, Eq, Structural)]
pub struct Transactionsubmit200ResponseBody {
    pub duplicate: bool,
}

#[derive(Clone, Debug, PartialEq, Eq)]
pub struct GetKeyValueStoreKeysRequestBody {
    pub at_ledger_state: Option<LedgerStateSelector>,
    pub cursor: Option<String>,
    pub limit_per_page: Option<u32>,
    pub key_value_store_address: String,
}

#[derive(Clone, Debug, PartialEq, Eq)]
pub struct GetGatewayStatus200Response {
    pub ledger_state: LedgerState,
    pub release_info: ReleaseInfo,
}

#[derive(Clone, Debug, PartialEq, Eq)]
pub struct ReleaseInfo {
    pub release_version: String,
    pub open_api_schema_version: String,
    pub image_tag: String,
}

#[derive(Clone, Debug, PartialEq, Eq)]
pub struct TransactionStreamRequestBody {
    pub at_ledger_state: Option<LedgerStateSelector>,
    pub from_ledger_state: Option<LedgerStateSelector>,
    pub cursor: Option<String>,
    pub limit_per_page: Option<u32>,
    pub kind_filter: Option<TransactionKindFilter>,
    pub manifest_accounts_withdrawn_from_filter: Option<Vec<String>>,
    pub manifest_accounts_deposited_into_filter: Option<Vec<String>>,
    pub manifest_resources_filter: Option<Vec<String>>,
    pub affected_global_entities_filter: Option<Vec<String>>,
    pub order: Option<Order>,
    pub opt_ins: Option<TransactionStreamOptIns>,
}

#[derive(Clone, Copy, Debug, PartialEq, Eq, Structural)]
pub enum TransactionKindFilter {
    User,
    EpochChange,
    All,
}

#[derive(Clone, Copy, Debug, PartialEq, Eq, Structural)]
pub enum Order {
    Asc,
    Desc,
}

#[derive(Clone, Copy, Debug, PartialEq, Eq, Structural)]
pub struct TransactionStreamOptIns {
    pub raw_hex: bool,
    pub receipt_state_changes: bool,
    pub receipt_fee_summary: bool,
    pub receipt_fee_source: bool,
    pub receipt_fee_destination: bool,
    pub receipt_costing_parameters: bool,
    pub receipt_events: bool,
    pub receipt_output: bool,
    pub affected_global_entities: bool,
    pub manifest_instructions: bool,
    pub balance_changes: bool,
}

#[derive(Clone, Debug, PartialEq, Eq)]
pub enum TransactionMessage {
    Plaintext {
        mime_type: String,
        content: PlaintextMessageContent,
    },

}

#[derive(Clone, Debug, PartialEq, Eq)]
pub enum PlaintextMessageContent {
    String { value: String },
    Binary { value_hex: String },
}

#[derive(Clone, Copy, Debug, PartialEq, Eq, Structural)]
pub enum TransactionStatus {
    Unknown,
    CommittedSuccess,
    CommittedFailure,
    Pending,
    Rejected,
}

#[derive(Clone, Copy, Debug, PartialEq, Eq, Structural)]
pub enum ManifestClass {
    General,
    Transfer,
    PoolContribution,
    PoolRedemption,
    ValidatorStake,
    ValidatorUnstake,
    ValidatorClaim,
    AccountDepositSettingsUpdate,
}

#[derive(Clone, Debug, PartialEq, Eq)]
pub struct GetKeyValueStoreDataRequestBody {
    pub at_ledger_state: Option<LedgerStateSelector>,
    pub key_value_store_address: String,
    pub keys: Vec<StateKeyValueStoreDataRequestKeyItem>,
}

/// A key of a key-value store, given as hex-encoded SBOR or as JSON.
#[derive(Clone, Debug, PartialEq, Eq)]
pub struct StateKeyValueStoreDataRequestKeyItem {
    pub key_hex: Option<String>,
    pub key_json: Option<serde_json::Value>,
}

impl Default for PreviewTransactionFlags {
    /// No flag set.
    fn default() -> (r: PreviewTransactionFlags)
        ensures
            !r.use_free_credit,
            !r.assume_all_signature_proofs,
            !r.skip_epoch_check,
    {
        PreviewTransactionFlags {
            use_free_credit: false,
            assume_all_signature_proofs: false,
            skip_epoch_check: false,
        }
    }
}

impl Default for TransactionStreamRequestBody {
    /// A query with every filter and option unset.
    fn default() -> (r: TransactionStreamRequestBody)
        ensures
            r == empty_stream_query(),
    {
        TransactionStreamRequestBody {
            at_ledger_state: None,
            from_ledger_state: None,
            cursor: None,
            limit_per_page: None,
            kind_filter: None,
            manifest_accounts_withdrawn_from_filter: None,
            manifest_accounts_deposited_into_filter: None,
            manifest_resources_filter: None,
            affected_global_entities_filter: None,
            order: None,
            opt_ins: None,
        }
    }
}

impl Default for TransactionStreamOptIns {
    /// Every opt-in off.
    fn default() -> (r: TransactionStreamOptIns)
        ensures
            r == no_opt_ins(),
    {
        TransactionStreamOptIns {
            raw_hex: false,
            receipt_state_changes: false,
            receipt_fee_summary: false,
            receipt_fee_source: false,
            receipt_fee_destination: false,
            receipt_costing_parameters: false,
            receipt_events: false,
            receipt_output: false,
            affected_global_entities: false,
            manifest_instructions: false,
            balance_changes: false,
        }
    }
}

/// The opt-ins of a transaction stream with every one off.
pub open spec fn no_opt_ins() -> TransactionStreamOptIns {
    TransactionStreamOptIns {
        raw_hex: false,
        receipt_state_changes: false,
        receipt_fee_summary: false,
        receipt_fee_source: false,
        receipt_fee_destination: false,
        receipt_costing_parameters: false,
        receipt_events: false,
        receipt_output: false,
        affected_global_entities: false,
        manifest_instructions: false,
        balance_changes: false,
    }
}

/// A transaction stream query with every filter and option unset.
pub open spec fn empty_stream_query() -> TransactionStreamRequestBody {
    TransactionStreamRequestBody {
        at_ledger_state: None,
        from_ledger_state: None,
        cursor: None,
        limit_per_page: None,
        kind_filter: None,
        manifest_accounts_withdrawn_from_filter: None,
        manifest_accounts_deposited_into_filter: None,
        manifest_resources_filter: None,
        affected_global_entities_filter: None,
        order: None,
        opt_ins: None,
    }
}

} // verus!
