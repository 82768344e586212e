//! The builder of a Core API transaction preview request.
use crate::client::{CoreClientAsync, CoreClientBlocking};
use crate::core_api::builder::{RequestBuilderAsync, RequestBuilderBlocking};
use crate::core_api::models::{PreviewTransactionFlags, PublicKey, TransactionPreviewRequestBody};
use crate::accumulate::{field_after, flag_after};
use vstd::prelude::*;

verus! {

/// A preview request with the given fields, no blob, no notary and no flag set.
pub open spec fn preview_request(
    manifest: String,
    start_epoch_inclusive: i64,
    end_epoch_exclusive: i64,
    nonce: i64,
    signer_public_keys: Vec<PublicKey>,
    network: String,
    tip_percentage: i32,
) -> TransactionPreviewRequestBody {
    TransactionPreviewRequestBody {
        network,
        manifest,
        blobs_hex: None,
        start_epoch_inclusive,
        end_epoch_exclusive,
        notary_public_key: None,
        notary_is_signatory: None,
        tip_percentage,
        nonce,
        signer_public_keys,
        flags: PreviewTransactionFlags {
            use_free_credit: false,
            assume_all_signature_proofs: false,
            skip_epoch_check: false,
        },
    }
}

/// One call of a setter of a preview request builder, with the value it sets.
pub enum PreviewSetting {
    BlobsHex(Vec<String>),
    NotaryPublicKey(PublicKey),
    NotaryIsSignatory(bool),
    UseFreeCredit,
    AssumeAllSignatureProofs,
    SkipEpochCheck,
}

/// The request after one setter call.
pub open spec fn apply_preview_setting(
    b: TransactionPreviewRequestBody,
    s: PreviewSetting,
) -> TransactionPreviewRequestBody {
    match s {
        PreviewSetting::BlobsHex(x) => TransactionPreviewRequestBody { blobs_hex: Some(x), ..b },
        PreviewSetting::NotaryPublicKey(x) => TransactionPreviewRequestBody {
            notary_public_key: Some(x),
            ..b
        },
        PreviewSetting::NotaryIsSignatory(x) => TransactionPreviewRequestBody {
            notary_is_signatory: Some(x),
            ..b
        },
        PreviewSetting::UseFreeCredit => TransactionPreviewRequestBody {
            flags: PreviewTransactionFlags { use_free_credit: true, ..b.flags },
            ..b
        },
        PreviewSetting::AssumeAllSignatureProofs => TransactionPreviewRequestBody {
            flags: PreviewTransactionFlags { assume_all_signature_proofs: true, ..b.flags },
            ..b
        },
        PreviewSetting::SkipEpochCheck => TransactionPreviewRequestBody {
            flags: PreviewTransactionFlags { skip_epoch_check: true, ..b.flags },
            ..b
        },
    }
}

/// The request after a sequence of setter calls, in order.
pub open spec fn apply_preview_settings(
    b: TransactionPreviewRequestBody,
    settings: Seq<PreviewSetting>,
) -> TransactionPreviewRequestBody
    decreases settings.len(),
{
    if settings.len() == 0 {
        b
    } else {
        apply_preview_setting(apply_preview_settings(b, settings.drop_last()), settings.last())
    }
}

pub open spec fn pick_blobs_hex(s: PreviewSetting) -> Option<Vec<String>> {
    match s {
        PreviewSetting::BlobsHex(x) => Some(x),
        _ => None,
    }
}

pub open spec fn pick_notary_public_key(s: PreviewSetting) -> Option<PublicKey> {
    match s {
        PreviewSetting::NotaryPublicKey(x) => Some(x),
        _ => None,
    }
}

pub open spec fn pick_notary_is_signatory(s: PreviewSetting) -> Option<bool> {
    match s {
        PreviewSetting::NotaryIsSignatory(x) => Some(x),
        _ => None,
    }
}

/// The request written out directly: each field holds the value of the last
/// call that sets it, each flag is raised when it was or when a call raises it,
/// and everything else is as it was.
pub open spec fn direct_preview_request(
    b: TransactionPreviewRequestBody,
    settings: Seq<PreviewSetting>,
) -> TransactionPreviewRequestBody {
    TransactionPreviewRequestBody {
        blobs_hex: field_after(settings, |s| pick_blobs_hex(s), b.blobs_hex),
        notary_public_key: field_after(
            settings,
            |s| pick_notary_public_key(s),
            b.notary_public_key,
        ),
        notary_is_signatory: field_after(
            settings,
            |s| pick_notary_is_signatory(s),
            b.notary_is_signatory,
        ),
        flags: PreviewTransactionFlags {
            use_free_credit: flag_after(
                settings,
                PreviewSetting::UseFreeCredit,
                b.flags.use_free_credit,
            ),
            assume_all_signature_proofs: flag_after(
                settings,
                PreviewSetting::AssumeAllSignatureProofs,
                b.flags.assume_all_signature_proofs,
            ),
            skip_epoch_check: flag_after(
                settings,
                PreviewSetting::SkipEpochCheck,
                b.flags.skip_epoch_check,
            ),
        },
        ..b
    }
}

/// A preview builder is a pure accumulator: whatever request it starts from,
/// any sequence of setter calls, in any order, yields the request written out
/// directly.
pub proof fn lemma_preview_settings_give_direct_request(
    b: TransactionPreviewRequestBody,
    settings: Seq<PreviewSetting>,
)
    ensures
        apply_preview_settings(b, settings) == direct_preview_request(b, settings),
    decreases settings.len(),
{
    if settings.len() > 0 {
        let init = settings.drop_last();
        lemma_preview_settings_give_direct_request(b, init);
        assert(init.push(settings.last()) =~= settings);
        assert forall|x: PreviewSetting|
            settings.contains(x) <==> (init.contains(x) || x == settings.last()) by {
            if settings.contains(x) {
                let i = choose|i: int| 0 <= i < settings.len() && settings[i] == x;
                if i < init.len() {
                    assert(init[i] == x);
                }
            }
            if init.contains(x) {
                let i = choose|i: int| 0 <= i < init.len() && init[i] == x;
                assert(settings[i] == x);
            }
            if x == settings.last() {
                assert(settings[settings.len() - 1] == x);
            }
        }
    }
}

impl CoreClientAsync {
    /// A builder of a preview of the transaction with this manifest, epoch
    /// window, nonce, signers, network and tip.
    pub fn transaction_preview_builder(
        &self,
        manifest: String,
        start_epoch_inclusive: i64,
        end_epoch_exclusive: i64,
        nonce: i64,
        signer_public_keys: Vec<PublicKey>,
        network: String,
        tip_percentage: i32,
    ) -> (r: RequestBuilderAsync<TransactionPreviewRequestBody>)
        ensures
            r.request == preview_request(
                manifest,
                start_epoch_inclusive,
                end_epoch_exclusive,
                nonce,
                signer_public_keys,
                network,
                tip_percentage,
            ),
    {
        let request = TransactionPreviewRequestBody {
            network,
            manifest,
            blobs_hex: None,
            start_epoch_inclusive,
            end_epoch_exclusive,
            notary_public_key: None,
            notary_is_signatory: None,
            tip_percentage,
            nonce,
            signer_public_keys,
            flags: PreviewTransactionFlags {
                use_free_credit: false,
                assume_all_signature_proofs: false,
                skip_epoch_check: false,
            },
        };
        RequestBuilderAsync { client: self.clone(), request }
    }
}

impl CoreClientBlocking {
    /// A builder of a preview of the transaction with this manifest, epoch
    /// window, nonce, signers, network and tip.
    pub fn transaction_preview_builder(
        &self,
        manifest: String,
        start_epoch_inclusive: i64,
        end_epoch_exclusive: i64,
        nonce: i64,
        signer_public_keys: Vec<PublicKey>,
        network: String,
        tip_percentage: i32,
    ) -> (r: RequestBuilderBlocking<TransactionPreviewRequestBody>)
        ensures
            r.request == preview_request(
                manifest,
                start_epoch_inclusive,
                end_epoch_exclusive,
                nonce,
                signer_public_keys,
                network,
                tip_percentage,
            ),
    {
        let request = TransactionPreviewRequestBody {
            network,
            manifest,
            blobs_hex: None,
            start_epoch_inclusive,
            end_epoch_exclusive,
            notary_public_key: None,
            notary_is_signatory: None,
            tip_percentage,
            nonce,
            signer_public_keys,
            flags: PreviewTransactionFlags {
                use_free_credit: false,
                assume_all_signature_proofs: false,
                skip_epoch_check: false,
            },
        };
        RequestBuilderBlocking { client: self.clone(), request }
    }
}

impl RequestBuilderAsync<TransactionPreviewRequestBody> {
    /// The blobs that the manifest refers to, hex-encoded.
    pub fn blobs_hex(&mut self, value: Vec<String>) -> (r: &mut Self)
        ensures
            r.request == apply_preview_setting(old(self).request, PreviewSetting::BlobsHex(value)),
            r.client == old(self).client,
            *final(self) == *final(r),
    {
        self.request.blobs_hex = Some(value);
        self
    }

    /// The notary's public key.
    pub fn notary_public_key(&mut self, value: PublicKey) -> (r: &mut Self)
        ensures
            r.request == apply_preview_setting(
                old(self).request,
                PreviewSetting::NotaryPublicKey(value),
            ),
            r.client == old(self).client,
            *final(self) == *final(r),
    {
        self.request.notary_public_key = Some(value);
        self
    }

    /// Whether the notary also signs the intent.
    pub fn notary_is_signatory(&mut self, value: bool) -> (r: &mut Self)
        ensures
            r.request == apply_preview_setting(
                old(self).request,
                PreviewSetting::NotaryIsSignatory(value),
            ),
            r.client == old(self).client,
            *final(self) == *final(r),
    {
        self.request.notary_is_signatory = Some(value);
        self
    }

    /// Pay the fee from free credit.
    pub fn use_free_credit(&mut self) -> (r: &mut Self)
        ensures
            r.request == apply_preview_setting(old(self).request, PreviewSetting::UseFreeCredit),
            r.client == old(self).client,
            *final(self) == *final(r),
    {
        self.request.flags.use_free_credit = true;
        self
    }

    /// Assume every signature proof is present.
    pub fn assume_all_signature_proofs(&mut self) -> (r: &mut Self)
        ensures
            r.request == apply_preview_setting(
                old(self).request,
                PreviewSetting::AssumeAllSignatureProofs,
            ),
            r.client == old(self).client,
            *final(self) == *final(r),
    {
        self.request.flags.assume_all_signature_proofs = true;
        self
    }

    /// Do not check the epoch window.
    pub fn skip_epoch_check(&mut self) -> (r: &mut Self)
        ensures
            r.request == apply_preview_setting(old(self).request, PreviewSetting::SkipEpochCheck),
            r.client == old(self).client,
            *final(self) == *final(r),
    {
        self.request.flags.skip_epoch_check = true;
        self
    }
}

impl RequestBuilderBlocking<TransactionPreviewRequestBody> {
    /// The blobs that the manifest refers to, hex-encoded.
    pub fn blobs_hex(&mut self, value: Vec<String>) -> (r: &mut Self)
        ensures
            r.request == apply_preview_setting(old(self).request, PreviewSetting::BlobsHex(value)),
            r.client == old(self).client,
            *final(self) == *final(r),
    {
        self.request.blobs_hex = Some(value);
        self
    }

    /// The notary's public key.
    pub fn notary_public_key(&mut self, value: PublicKey) -> (r: &mut Self)
        ensures
            r.request == apply_preview_setting(
                old(self).request,
                PreviewSetting::NotaryPublicKey(value),
            ),
            r.client == old(self).client,
            *final(self) == *final(r),
    {
        self.request.notary_public_key = Some(value);
        self
    }

    /// Whether the notary also signs the intent.
    pub fn notary_is_signatory(&mut self, value: bool) -> (r: &mut Self)
        ensures
            r.request == apply_preview_setting(
                old(self).request,
                PreviewSetting::NotaryIsSignatory(value),
            ),
            r.client == old(self).client,
            *final(self) == *final(r),
    {
        self.request.notary_is_signatory = Some(value);
        self
    }

    /// Pay the fee from free credit.
    pub fn use_free_credit(&mut self) -> (r: &mut Self)
        ensures
            r.request == apply_preview_setting(old(self).request, PreviewSetting::UseFreeCredit),
            r.client == old(self).client,
            *final(self) == *final(r),
    {
        self.request.flags.use_free_credit = true;
        self
    }

    /// Assume every signature proof is present.
    pub fn assume_all_signature_proofs(&mut self) -> (r: &mut Self)
        ensures
            r.request == apply_preview_setting(
                old(self).request,
                PreviewSetting::AssumeAllSignatureProofs,
            ),
            r.client == old(self).client,
            *final(self) == *final(r),
    {
        self.request.flags.assume_all_signature_proofs = true;
        self
    }

    /// Do not check the epoch window.
    pub fn skip_epoch_check(&mut self) -> (r: &mut Self)
        ensures
            r.request == apply_preview_setting(old(self).request, PreviewSetting::SkipEpochCheck),
            r.client == old(self).client,
            *final(self) == *final(r),
    {
        self.request.flags.skip_epoch_check = true;
        self
    }
}

} // verus!
