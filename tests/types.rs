use bankr_agent::client::{cancel_path, job_path, DEFAULT_BASE_URL};
use bankr_agent::types::{ApiErrorBody, EvmTransaction, JobStatus, SignRequest, SignatureType};

fn body(error: Option<&str>, message: Option<&str>) -> ApiErrorBody {
    ApiErrorBody {
        error: error.map(str::to_owned),
        message: message.map(str::to_owned),
        reset_at: None,
        limit: None,
        used: None,
    }
}

#[test]
fn api_error_body_prefers_message() {
    assert_eq!(body(Some("RateLimited"), Some("Too many requests")).describe(), "Too many requests");
    assert_eq!(body(Some("RateLimited"), None).describe(), "RateLimited");
    assert_eq!(body(None, None).describe(), "(no details)");
}

#[test]
fn job_status_names() {
    assert_eq!(JobStatus::Pending.as_str(), "pending");
    assert_eq!(JobStatus::Processing.as_str(), "processing");
    assert_eq!(JobStatus::Completed.as_str(), "completed");
    assert_eq!(JobStatus::Failed.as_str(), "failed");
    assert_eq!(JobStatus::Cancelled.as_str(), "cancelled");
    assert!(!JobStatus::Pending.is_terminal());
    assert!(!JobStatus::Processing.is_terminal());
    assert!(JobStatus::Completed.is_terminal());
    assert!(JobStatus::Failed.is_terminal());
    assert!(JobStatus::Cancelled.is_terminal());
}

#[test]
fn signature_type_names() {
    assert_eq!(SignatureType::PersonalSign.as_str(), "personal_sign");
    assert_eq!(SignatureType::EthSignTypedDataV4.as_str(), "eth_signTypedData_v4");
    assert_eq!(SignatureType::EthSignTransaction.as_str(), "eth_signTransaction");
}

#[test]
fn paths_of_job_endpoints() {
    assert_eq!(job_path("abc123"), "/agent/job/abc123");
    assert_eq!(cancel_path("abc123"), "/agent/job/abc123/cancel");
    assert_eq!(DEFAULT_BASE_URL, "https://api.bankr.bot");
}

#[test]
fn sign_requests_carry_one_payload() {
    let p = SignRequest::personal_sign("Hello, Bankr!".to_owned());
    assert_eq!(p.signature_type, SignatureType::PersonalSign);
    assert_eq!(p.message.as_deref(), Some("Hello, Bankr!"));
    assert!(p.typed_data.is_none() && p.transaction.is_none());

    let tx = EvmTransaction {
        to: "0xabc".to_owned(),
        chain_id: 8453,
        value: Some("1".to_owned()),
        data: None,
        gas: None,
        gas_price: None,
        max_fee_per_gas: None,
        max_priority_fee_per_gas: None,
        nonce: None,
    };
    let t = SignRequest::sign_transaction(tx);
    assert_eq!(t.signature_type, SignatureType::EthSignTransaction);
    assert_eq!(t.transaction.as_ref().map(|x| x.chain_id), Some(8453));
    assert!(t.message.is_none() && t.typed_data.is_none());
}

#[test]
fn typed_data_from_json_text() {
    let r = SignRequest::typed_data_from_json(r#"{"domain":{"name":"x"},"primaryType":"Mail"}"#)
        .expect("valid JSON");
    assert_eq!(r.signature_type, SignatureType::EthSignTypedDataV4);
    let v = r.typed_data.expect("typed data set");
    assert_eq!(v["primaryType"], serde_json::Value::String("Mail".to_owned()));
    assert!(r.message.is_none() && r.transaction.is_none());
    assert!(SignRequest::typed_data_from_json("not json at all").is_none());
}
