//! Request and response shapes exchanged with the agent service.
use vstd::prelude::*;

verus! {

/// Status of a job on the server.
#[derive(Clone, Copy, Debug, PartialEq, Eq, Structural)]
pub enum JobStatus {
    /// Queued for processing.
    Pending,
    /// Being processed.
    Processing,
    /// Finished successfully.
    Completed,
    /// Ended with an error.
    Failed,
    /// Cancelled by the user.
    Cancelled,
}

/// The wire name of a status.
pub open spec fn status_name(s: JobStatus) -> Seq<char> {
    match s {
        JobStatus::Pending => "pending"@,
        JobStatus::Processing => "processing"@,
        JobStatus::Completed => "completed"@,
        JobStatus::Failed => "failed"@,
        JobStatus::Cancelled => "cancelled"@,
    }
}

impl JobStatus {
    /// Completed, Failed and Cancelled end a job; Pending and Processing do not.
    pub open spec fn spec_is_terminal(&self) -> bool {
        !(self is Pending || self is Processing)
    }

    /// Whether the status ends the job.
    #[verifier::when_used_as_spec(spec_is_terminal)]
    pub fn is_terminal(&self) -> (r: bool)
        ensures
            r == self.spec_is_terminal(),
    {
        match self {
            JobStatus::Pending | JobStatus::Processing => false,
            _ => true,
        }
    }

    /// The lower-case wire name of the status (`"pending"`, ...).
    pub fn as_str(&self) -> (r: &'static str)
        ensures
            r@ == status_name(*self),
    {
        match self {
            JobStatus::Pending => "pending",
            JobStatus::Processing => "processing",
            JobStatus::Completed => "completed",
            JobStatus::Failed => "failed",
            JobStatus::Cancelled => "cancelled",
        }
    }
}


/// Wallet entry of a user profile.
#[derive(Clone, Debug)]
pub struct Wallet {
    /// Chain identifier (`"evm"` or `"solana"`).
    pub chain: String,
    /// Wallet address.
    pub address: String,
}

/// Social account linked to the user.
#[derive(Clone, Debug)]
pub struct SocialAccount {
    /// Platform name (`farcaster`, `twitter`, ...).
    pub platform: String,
    /// Username on that platform.
    pub username: Option<String>,
}

/// Bankr Club subscription.
#[derive(Clone, Debug)]
pub struct BankrClub {
    /// Whether the subscription is active.
    pub active: bool,
    /// `"monthly"` or `"yearly"`.
    pub subscription_type: Option<String>,
    /// Unix time in milliseconds of the next renewal or cancellation.
    pub renew_or_cancel_on: Option<u64>,
}

/// Leaderboard entry.
#[derive(Clone, Debug)]
pub struct Leaderboard {
    /// User score.
    pub score: u64,
    /// Leaderboard rank.
    pub rank: Option<u64>,
}

/// Profile of the authenticated user (`GET /agent/me`).
#[derive(Clone, Debug)]
pub struct UserInfoResponse {
    /// Always `true` on success.
    pub success: bool,
    /// Wallet addresses.
    pub wallets: Vec<Wallet>,
    /// Connected social accounts.
    pub social_accounts: Vec<SocialAccount>,
    /// Referral code.
    pub ref_code: Option<String>,
    /// Bankr Club subscription.
    pub bankr_club: Option<BankrClub>,
    /// Leaderboard standing.
    pub leaderboard: Option<Leaderboard>,
}

/// Body of `POST /agent/prompt`.
#[derive(Clone, Debug)]
pub struct PromptRequest {
    /// Natural-language command.
    pub prompt: String,
    /// Thread to continue, if any.
    pub thread_id: Option<String>,
}

/// Answer to `POST /agent/prompt`: the job that was created.
#[derive(Clone, Debug)]
pub struct PromptResponse {
    /// Always `true` on success.
    pub success: bool,
    /// Identifier of the new job.
    pub job_id: String,
    /// Conversation thread.
    pub thread_id: String,
    /// Status on creation (`"pending"`).
    pub status: String,
    /// Human-readable message.
    pub message: String,
}

/// One progress message of a job.
#[derive(Clone, Debug)]
pub struct StatusUpdate {
    /// Progress text.
    pub message: Option<String>,
    /// When it was posted.
    pub timestamp: Option<String>,
}

/// Structured data attached to a completed job.
#[derive(Clone, Debug)]
pub struct RichDataItem {
    /// Type discriminator (`"token_info"`, `"chart"`, ...).
    pub kind: String,
    /// The remaining fields, which vary with the kind.
    pub extra: serde_json::Value,
}

/// A job as `GET /agent/job/{jobId}` reports it.
#[derive(Clone, Debug)]
pub struct JobResponse {
    /// Whether the request succeeded.
    pub success: bool,
    /// Job identifier.
    pub job_id: String,
    /// Conversation thread.
    pub thread_id: Option<String>,
    /// Current status.
    pub status: JobStatus,
    /// The prompt that was submitted.
    pub prompt: String,
    /// ISO 8601 creation time.
    pub created_at: String,
    /// Whether the job can still be cancelled.
    pub cancellable: Option<bool>,
    /// Progress messages.
    pub status_updates: Option<Vec<StatusUpdate>>,
    /// When processing started.
    pub started_at: Option<String>,
    /// Agent answer, once completed.
    pub response: Option<String>,
    /// Structured data, once completed.
    pub rich_data: Option<Vec<RichDataItem>>,
    /// When the job finished.
    pub completed_at: Option<String>,
    /// Processing time in milliseconds, once completed.
    pub processing_time: Option<u64>,
    /// Error text, once failed.
    pub error: Option<String>,
    /// When the job was cancelled.
    pub cancelled_at: Option<String>,
}

/// Answer to `POST /agent/job/{jobId}/cancel`.
#[derive(Clone, Debug)]
pub struct CancelJobResponse {
    /// Whether the request succeeded.
    pub success: bool,
    /// Job identifier.
    pub job_id: String,
    /// Status after cancellation.
    pub status: String,
    /// The prompt of the job.
    pub prompt: Option<String>,
    /// Creation time.
    pub created_at: Option<String>,
    /// Cancellation time.
    pub cancelled_at: Option<String>,
}

/// Kind of signature asked of `POST /agent/sign`.
#[derive(Clone, Copy, Debug, PartialEq, Eq, Structural)]
pub enum SignatureType {
    /// Ethereum `personal_sign`.
    PersonalSign,
    /// EIP-712 typed data.
    EthSignTypedDataV4,
    /// A transaction, signed and not broadcast.
    EthSignTransaction,
}

/// The wire name of a signature kind.
pub open spec fn signature_type_name(t: SignatureType) -> Seq<char> {
    match t {
        SignatureType::PersonalSign => "personal_sign"@,
        SignatureType::EthSignTypedDataV4 => "eth_signTypedData_v4"@,
        SignatureType::EthSignTransaction => "eth_signTransaction"@,
    }
}

impl SignatureType {
    /// The wire name (`"personal_sign"`, `"eth_signTypedData_v4"`, `"eth_signTransaction"`).
    pub fn as_str(&self) -> (r: &'static str)
        ensures
            r@ == signature_type_name(*self),
    {
        match self {
            SignatureType::PersonalSign => "personal_sign",
            SignatureType::EthSignTypedDataV4 => "eth_signTypedData_v4",
            SignatureType::EthSignTransaction => "eth_signTransaction",
        }
    }
}

/// EVM transaction fields, shared by signing and submission.
#[derive(Clone, Debug)]
pub struct EvmTransaction {
    /// Destination address.
    pub to: String,
    /// Chain ID.
    pub chain_id: u64,
    /// Value in wei, as a decimal string.
    pub value: Option<String>,
    /// Calldata, hex with a `0x` prefix.
    pub data: Option<String>,
    /// Gas limit.
    pub gas: Option<String>,
    /// Legacy gas price in wei.
    pub gas_price: Option<String>,
    /// EIP-1559 max fee per gas.
    pub max_fee_per_gas: Option<String>,
    /// EIP-1559 priority fee.
    pub max_priority_fee_per_gas: Option<String>,
    /// Transaction nonce.
    pub nonce: Option<u64>,
}

/// Body of `POST /agent/sign`; which payload is set depends on the kind.
#[derive(Clone, Debug)]
pub struct SignRequest {
    /// Kind of signature.
    pub signature_type: SignatureType,
    /// Message, for `personal_sign`.
    pub message: Option<String>,
    /// Typed data, for `eth_signTypedData_v4`.
    pub typed_data: Option<serde_json::Value>,
    /// Transaction, for `eth_signTransaction`.
    pub transaction: Option<EvmTransaction>,
}

impl SignRequest {
    /// Exactly the payload that the kind calls for is present.
    pub open spec fn well_formed(&self) -> bool {
        match self.signature_type {
            SignatureType::PersonalSign => {
                &&& self.message is Some
                &&& self.typed_data is None
                &&& self.transaction is None
            },
            SignatureType::EthSignTypedDataV4 => {
                &&& self.message is None
                &&& self.typed_data is Some
                &&& self.transaction is None
            },
            SignatureType::EthSignTransaction => {
                &&& self.message is None
                &&& self.typed_data is None
                &&& self.transaction is Some
            },
        }
    }

    /// A `personal_sign` request for `message`.
    pub fn personal_sign(message: String) -> (r: Self)
        ensures
            r.well_formed(),
            r.signature_type == SignatureType::PersonalSign,
            r.message == Some(message),
    {
        SignRequest {
            signature_type: SignatureType::PersonalSign,
            message: Some(message),
            typed_data: None,
            transaction: None,
        }
    }

    /// An `eth_signTypedData_v4` request for `typed_data`.
    pub fn typed_data_v4(typed_data: serde_json::Value) -> (r: Self)
        ensures
            r.well_formed(),
            r.signature_type == SignatureType::EthSignTypedDataV4,
            r.typed_data == Some(typed_data),
    {
        SignRequest {
            signature_type: SignatureType::EthSignTypedDataV4,
            message: None,
            typed_data: Some(typed_data),
            transaction: None,
        }
    }

    /// An `eth_signTransaction` request for `transaction`.
    pub fn sign_transaction(transaction: EvmTransaction) -> (r: Self)
        ensures
            r.well_formed(),
            r.signature_type == SignatureType::EthSignTransaction,
            r.transaction == Some(transaction),
    {
        SignRequest {
            signature_type: SignatureType::EthSignTransaction,
            message: None,
            typed_data: None,
            transaction: Some(transaction),
        }
    }
}

/// Whether a text is one JSON value, as `serde_json::from_str` reads it.
pub uninterp spec fn parses_as_json(text: Seq<char>) -> bool;

/// Relies on `serde_json::from_str` into a `serde_json::Value`: whether it
/// succeeds depends on the text alone.
#[verifier::external_body]
fn parse_json(text: &str) -> (r: Option<serde_json::Value>)
    ensures
        r is Some == parses_as_json(text@),
{
    serde_json::from_str::<serde_json::Value>(text).ok()
}

impl SignRequest {
    /// An `eth_signTypedData_v4` request for the typed data written as JSON
    /// text; `None` when the text is not JSON.
    pub fn typed_data_from_json(json: &str) -> (r: Option<Self>)
        ensures
            r is Some == parses_as_json(json@),
            r matches Some(req) ==> req.well_formed() && req.signature_type
                == SignatureType::EthSignTypedDataV4,
    {
        match parse_json(json) {
            Some(v) => Some(SignRequest::typed_data_v4(v)),
            None => None,
        }
    }
}

/// Answer to `POST /agent/sign`.
#[derive(Clone, Debug)]
pub struct SignResponse {
    /// `true` if signing succeeded.
    pub success: bool,
    /// Hex-encoded signature.
    pub signature: Option<String>,
    /// Address that signed.
    pub signer: Option<String>,
    /// Kind of signature produced.
    pub signature_type: Option<SignatureType>,
    /// Error text if signing failed.
    pub error: Option<String>,
}

/// Body of `POST /agent/submit`.
#[derive(Clone, Debug)]
pub struct SubmitRequest {
    /// The transaction to submit.
    pub transaction: EvmTransaction,
    /// Description for the service's log.
    pub description: Option<String>,
    /// Whether to wait for on-chain confirmation.
    pub wait_for_confirmation: Option<bool>,
}

/// Answer to `POST /agent/submit`.
#[derive(Clone, Debug)]
pub struct SubmitResponse {
    /// `true` if submission succeeded.
    pub success: bool,
    /// Transaction hash.
    pub transaction_hash: Option<String>,
    /// `"success"`, `"reverted"`, `"pending"` or `"failed"`.
    pub status: Option<String>,
    /// Block number, once confirmed.
    pub block_number: Option<String>,
    /// Gas used, once confirmed.
    pub gas_used: Option<String>,
    /// Address that signed.
    pub signer: Option<String>,
    /// Chain ID.
    pub chain_id: Option<u64>,
    /// Error text if submission failed.
    pub error: Option<String>,
}

/// Error envelope of a non-success answer.
#[derive(Clone, Debug)]
pub struct ApiErrorBody {
    /// Error type or title.
    pub error: Option<String>,
    /// Human-readable message.
    pub message: Option<String>,
    /// When the rate-limit window resets (Unix ms), on 429 answers.
    pub reset_at: Option<u64>,
    /// Rate-limit quota.
    pub limit: Option<u64>,
    /// Messages used in the current window.
    pub used: Option<u64>,
}

/// The text that describes an error envelope: its message, else its error
/// title, else a fixed placeholder.
pub open spec fn api_error_text(body: ApiErrorBody) -> Seq<char> {
    match body.message {
        Some(m) => m@,
        None => match body.error {
            Some(e) => e@,
            None => "(no details)"@,
        },
    }
}

impl ApiErrorBody {
    /// Human-readable summary of the envelope.
    pub fn describe(&self) -> (r: String)
        ensures
            r@ == api_error_text(*self),
    {
        match &self.message {
            Some(m) => m.clone(),
            None => match &self.error {
                Some(e) => e.clone(),
                None => String::from_str("(no details)"),
            },
        }
    }
}

/// `serde_json`'s dynamic JSON value, carried through unchanged.
#[verifier::external_type_specification]
#[verifier::external_body]
pub struct ExJsonValue(serde_json::Value);

/// Relies on `serde_json::Value`'s `Clone`, which the derived copies of the
/// request and response types call; nothing is claimed of the copy.
pub assume_specification[ <serde_json::Value as Clone>::clone ](v: &serde_json::Value) -> serde_json::Value;

} // verus!
