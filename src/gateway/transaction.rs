//! The builder of a transaction preview request.
use crate::client::{GatewayClientAsync, GatewayClientBlocking};
use crate::gateway::builder::{RequestBuilderAsync, RequestBuilderBlocking};
use crate::gateway::models::{PreviewTransactionFlags, PublicKey, TransactionPreviewRequestBody};
use crate::accumulate::{field_after, flag_after, value_after};
use vstd::prelude::*;

verus! {

/// A preview request with only its required fields given, the optional ones
/// unset, no tip and no flag set.
pub open spec fn preview_request(
    manifest: String,
    start_epoch_inclusive: i64,
    end_epoch_exclusive: i64,
    nonce: String,
    signer_public_keys: Vec<PublicKey>,
) -> TransactionPreviewRequestBody {
    TransactionPreviewRequestBody {
        manifest,
        blobs_hex: None,
        start_epoch_inclusive,
        end_epoch_exclusive,
        notary_public_key: None,
        notary_is_signatory: None,
        tip_percentage: 0,
        nonce,
        signer_public_keys,
        flags: PreviewTransactionFlags {
            use_free_credit: false,
            assume_all_signature_proofs: false,
            skip_epoch_check: false,
        },
    }
}

/// One call of a setter of a preview request builder, with the value it sets.
pub enum PreviewSetting {
    BlobsHex(Vec<String>),
    NotaryPublicKey(PublicKey),
    NotaryIsSignatory(bool),
    TipPercentage(i32),
    UseFreeCredit,
    AssumeAllSignatureProofs,
    SkipEpochCheck,
}

/// The request after one setter call.
pub open spec fn apply_preview_setting(
    b: TransactionPreviewRequestBody,
    s: PreviewSetting,
) -> TransactionPreviewRequestBody {
    match s {
        PreviewSetting::BlobsHex(x) => TransactionPreviewRequestBody { blobs_hex: Some(x), ..b },
        PreviewSetting::NotaryPublicKey(x) => TransactionPreviewRequestBody {
            notary_public_key: Some(x),
            ..b
        },
        PreviewSetting::NotaryIsSignatory(x) => TransactionPreviewRequestBody {
            notary_is_signatory: Some(x),
            ..b
        },
        PreviewSetting::TipPercentage(x) => TransactionPreviewRequestBody {
            tip_percentage: x,
            ..b
        },
        PreviewSetting::UseFreeCredit => TransactionPreviewRequestBody {
            flags: PreviewTransactionFlags { use_free_credit: true, ..b.flags },
            ..b
        },
        PreviewSetting::AssumeAllSignatureProofs => TransactionPreviewRequestBody {
            flags: PreviewTransactionFlags { assume_all_signature_proofs: true, ..b.flags },
            ..b
        },
        PreviewSetting::SkipEpochCheck => TransactionPreviewRequestBody {
            flags: PreviewTransactionFlags { skip_epoch_check: true, ..b.flags },
            ..b
        },
    }
}

/// The request after a sequence of setter calls, in order.
pub open spec fn apply_preview_settings(
    b: TransactionPreviewRequestBody,
    settings: Seq<PreviewSetting>,
) -> TransactionPreviewRequestBody
    decreases settings.len(),
{
    if settings.len() == 0 {
        b
    } else {
        apply_preview_setting(apply_preview_settings(b, settings.drop_last()), settings.last())
    }
}

pub open spec fn pick_blobs_hex(s: PreviewSetting) -> Option<Vec<String>> {
    match s {
        PreviewSetting::BlobsHex(x) => Some(x),
        _ => None,
    }
}

pub open spec fn pick_notary_public_key(s: PreviewSetting) -> Option<PublicKey> {
    match s {
        PreviewSetting::NotaryPublicKey(x) => Some(x),
        _ => None,
    }
}

pub open spec fn pick_notary_is_signatory(s: PreviewSetting) -> Option<bool> {
    match s {
        PreviewSetting::NotaryIsSignatory(x) => Some(x),
        _ => None,
    }
}

pub open spec fn pick_tip_percentage(s: PreviewSetting) -> Option<i32> {
    match s {
        PreviewSetting::TipPercentage(x) => Some(x),
        _ => None,
    }
}

/// The request written out directly: each field holds the value of the last
/// call that sets it, each flag is raised when it was or when a call raises it,
/// and everything else is as it was.
pub open spec fn direct_preview_request(
    b: TransactionPreviewRequestBody,
    settings: Seq<PreviewSetting>,
) -> TransactionPreviewRequestBody {
    TransactionPreviewRequestBody {
        blobs_hex: field_after(settings, |s| pick_blobs_hex(s), b.blobs_hex),
        notary_public_key: field_after(
            settings,
            |s| pick_notary_public_key(s),
            b.notary_public_key,
        ),
        notary_is_signatory: field_after(
            settings,
            |s| pick_notary_is_signatory(s),
            b.notary_is_signatory,
        ),
        tip_percentage: value_after(settings, |s| pick_tip_percentage(s), b.tip_percentage),
        flags: PreviewTransactionFlags {
            use_free_credit: flag_after(
                settings,
                PreviewSetting::UseFreeCredit,
                b.flags.use_free_credit,
            ),
            assume_all_signature_proofs: flag_after(
                settings,
                PreviewSetting::AssumeAllSignatureProofs,
                b.flags.assume_all_signature_proofs,
            ),
            skip_epoch_check: flag_after(
                settings,
                PreviewSetting::SkipEpochCheck,
                b.flags.skip_epoch_check,
            ),
        },
        ..b
    }
}

/// A preview builder is a pure accumulator: whatever request it starts from,
/// any sequence of setter calls, in any order, yields the request written out
/// directly.
pub proof fn lemma_preview_settings_give_direct_request(
    b: TransactionPreviewRequestBody,
    settings: Seq<PreviewSetting>,
)
    ensures
        apply_preview_settings(b, settings) == direct_preview_request(b, settings),
    decreases settings.len(),
{
    if settings.len() > 0 {
        let init = settings.drop_last();
        lemma_preview_settings_give_direct_request(b, init);
        assert(init.push(settings.last()) =~= settings);
        assert forall|x: PreviewSetting|
            settings.contains(x) <==> (init.contains(x) || x == settings.last()) by {
            if settings.contains(x) {
                let i = choose|i: int| 0 <= i < settings.len() && settings[i] == x;
                if i < init.len() {
                    assert(init[i] == x);
                }
            }
            if init.contains(x) {
                let i = choose|i: int| 0 <= i < init.len() && init[i] == x;
                assert(settings[i] == x);
            }
            if x == settings.last() {
                assert(settings[settings.len() - 1] == x);
            }
        }
    }
}

impl GatewayClientAsync {
    /// A builder of a preview of the transaction with this manifest, epoch
    /// window, nonce and signers.
    pub fn preview_transaction_builder(
        &self,
        manifest: String,
        start_epoch_inclusive: i64,
        end_epoch_exclusive: i64,
        nonce: String,
        signer_public_keys: Vec<PublicKey>,
    ) -> (r: RequestBuilderAsync<TransactionPreviewRequestBody>)
        ensures
            r.request == preview_request(
                manifest,
                start_epoch_inclusive,
                end_epoch_exclusive,
                nonce,
                signer_public_keys,
            ),
    {
        let request = TransactionPreviewRequestBody {
            manifest,
            blobs_hex: None,
            start_epoch_inclusive,
            end_epoch_exclusive,
            notary_public_key: None,
            notary_is_signatory: None,
            tip_percentage: 0,
            nonce,
            signer_public_keys,
            flags: PreviewTransactionFlags::default(),
        };
        RequestBuilderAsync { client: self.clone(), request }
    }
}

impl GatewayClientBlocking {
    /// A builder of a preview of the transaction with this manifest, epoch
    /// window, nonce and signers.
    pub fn preview_transaction_builder(
        &self,
        manifest: String,
        start_epoch_inclusive: i64,
        end_epoch_exclusive: i64,
        nonce: String,
        signer_public_keys: Vec<PublicKey>,
    ) -> (r: RequestBuilderBlocking<TransactionPreviewRequestBody>)
        ensures
            r.request == preview_request(
                manifest,
                start_epoch_inclusive,
                end_epoch_exclusive,
                nonce,
                signer_public_keys,
            ),
    {
        let request = TransactionPreviewRequestBody {
            manifest,
            blobs_hex: None,
            start_epoch_inclusive,
            end_epoch_exclusive,
            notary_public_key: None,
            notary_is_signatory: None,
            tip_percentage: 0,
            nonce,
            signer_public_keys,
            flags: PreviewTransactionFlags::default(),
        };
        RequestBuilderBlocking { client: self.clone(), request }
    }
}

impl RequestBuilderAsync<TransactionPreviewRequestBody> {
    /// The blobs that the manifest refers to, hex-encoded.
    pub fn blobs_hex(self, value: Vec<String>) -> (r: Self)
        ensures
            r.request == apply_preview_setting(self.request, PreviewSetting::BlobsHex(value)),
            r.client == self.client,
    {
        let mut b = self;
        b.request.blobs_hex = Some(value);
        b
    }

    /// The notary's public key.
    pub fn notary_public_key(self, value: PublicKey) -> (r: Self)
        ensures
            r.request == apply_preview_setting(
                self.request,
                PreviewSetting::NotaryPublicKey(value),
            ),
            r.client == self.client,
    {
        let mut b = self;
        b.request.notary_public_key = Some(value);
        b
    }

    /// Whether the notary also signs the intent.
    pub fn notary_is_signatory(self, value: bool) -> (r: Self)
        ensures
            r.request == apply_preview_setting(
                self.request,
                PreviewSetting::NotaryIsSignatory(value),
            ),
            r.client == self.client,
    {
        let mut b = self;
        b.request.notary_is_signatory = Some(value);
        b
    }

    /// The tip offered to the validator, in percent of the fee.
    pub fn tip_percentage(self, value: i32) -> (r: Self)
        ensures
            r.request == apply_preview_setting(self.request, PreviewSetting::TipPercentage(value)),
            r.client == self.client,
    {
        let mut b = self;
        b.request.tip_percentage = value;
        b
    }

    /// Pay the fee from free credit.
    pub fn use_free_credit(self) -> (r: Self)
        ensures
            r.request == apply_preview_setting(self.request, PreviewSetting::UseFreeCredit),
            r.client == self.client,
    {
        let mut b = self;
        b.request.flags.use_free_credit = true;
        b
    }

    /// Assume every signature proof is present.
    pub fn assume_all_signature_proofs(self) -> (r: Self)
        ensures
            r.request == apply_preview_setting(
                self.request,
                PreviewSetting::AssumeAllSignatureProofs,
            ),
            r.client == self.client,
    {
        let mut b = self;
        b.request.flags.assume_all_signature_proofs = true;
        b
    }

    /// Do not check the epoch window.
    pub fn skip_epoch_check(self) -> (r: Self)
        ensures
            r.request == apply_preview_setting(self.request, PreviewSetting::SkipEpochCheck),
            r.client == self.client,
    {
        let mut b = self;
        b.request.flags.skip_epoch_check = true;
        b
    }
}

impl RequestBuilderBlocking<TransactionPreviewRequestBody> {
    /// The blobs that the manifest refers to, hex-encoded.
    pub fn blobs_hex(self, value: Vec<String>) -> (r: Self)
        ensures
            r.request == apply_preview_setting(self.request, PreviewSetting::BlobsHex(value)),
            r.client == self.client,
    {
        let mut b = self;
        b.request.blobs_hex = Some(value);
        b
    }

    /// The notary's public key.
    pub fn notary_public_key(self, value: PublicKey) -> (r: Self)
        ensures
            r.request == apply_preview_setting(
                self.request,
                PreviewSetting::NotaryPublicKey(value),
            ),
            r.client == self.client,
    {
        let mut b = self;
        b.request.notary_public_key = Some(value);
        b
    }

    /// Whether the notary also signs the intent.
    pub fn notary_is_signatory(self, value: bool) -> (r: Self)
        ensures
            r.request == apply_preview_setting(
                self.request,
                PreviewSetting::NotaryIsSignatory(value),
            ),
            r.client == self.client,
    {
        let mut b = self;
        b.request.notary_is_signatory = Some(value);
        b
    }

    /// The tip offered to the validator, in percent of the fee.
    pub fn tip_percentage(self, value: i32) -> (r: Self)
        ensures
            r.request == apply_preview_setting(self.request, PreviewSetting::TipPercentage(value)),
            r.client == self.client,
    {
        let mut b = self;
        b.request.tip_percentage = value;
        b
    }

    /// Pay the fee from free credit.
    pub fn use_free_credit(self) -> (r: Self)
        ensures
            r.request == apply_preview_setting(self.request, PreviewSetting::UseFreeCredit),
            r.client == self.client,
    {
        let mut b = self;
        b.request.flags.use_free_credit = true;
        b
    }

    /// Assume every signature proof is present.
    pub fn assume_all_signature_proofs(self) -> (r: Self)
        ensures
            r.request == apply_preview_setting(
                self.request,
                PreviewSetting::AssumeAllSignatureProofs,
            ),
            r.client == self.client,
    {
        let mut b = self;
        b.request.flags.assume_all_signature_proofs = true;
        b
    }

    /// Do not check the epoch window.
    pub fn skip_epoch_check(self) -> (r: Self)
        ensures
            r.request == apply_preview_setting(self.request, PreviewSetting::SkipEpochCheck),
            r.client == self.client,
    {
        let mut b = self;
        b.request.flags.skip_epoch_check = true;
        b
    }
}

} // verus!
