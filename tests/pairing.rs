use phone_transfer::client::{
    claim_outcome, heartbeat_reported, paired_record, plan_heartbeat, plan_pair, rest_base,
    ClaimRequest, Claimed, HeartbeatRequest, PairError,
};
use phone_transfer::identity::{compute_device_id, device_id_for};
use phone_transfer::record::{get_status, PairingRecord, PairingStatus};

fn claimed(id: &str, token: &str) -> Claimed {
    Claimed { device_id: id.to_string(), device_token: token.to_string() }
}

#[test]
fn rest_base_strips_trailing_slashes() {
    assert_eq!(
        rest_base("https://example.com//"),
        "https://example.com/wp-json/gsdt/v1/phone-transfer"
    );
    assert_eq!(
        rest_base("http://a.b"),
        "http://a.b/wp-json/gsdt/v1/phone-transfer"
    );
}

#[test]
fn site_without_http_is_refused() {
    for site in ["ftp://example.com", "example.com", "", "   ", " htp://x"] {
        let r = plan_pair(site, "1234", "dev", "host");
        assert_eq!(
            r,
            Err(PairError::Validation("site must start with http(s)://".to_string()))
        );
    }
}

#[test]
fn blank_pairing_code_is_refused() {
    for code in ["", "   ", "\t\n "] {
        let r = plan_pair("https://example.com", code, "dev", "host");
        assert_eq!(r, Err(PairError::Validation("pairing code empty".to_string())));
    }
}

#[test]
fn plan_pair_trims_and_builds_the_claim() {
    let r = plan_pair("  https://example.com/ \n", " 12\"34 ", "dev", "my host");
    assert_eq!(
        r,
        Ok(ClaimRequest {
            site: "https://example.com/".to_string(),
            url: "https://example.com/wp-json/gsdt/v1/phone-transfer/pairing/claim".to_string(),
            body: "{\"pairing_code\":\"12\\\"34\",\"device_id\":\"dev\",\"device_name\":\"my host\"}"
                .to_string(),
        })
    );
}

#[test]
fn refused_claim_carries_service_error() {
    let r = claim_outcome(400, "{\"error\": \"expired\"}");
    assert_eq!(r, Err(PairError::Remote("expired".to_string())));
    assert_eq!(r.unwrap_err().message(), "expired");
}

#[test]
fn refused_claim_without_error_field_shows_status_and_body() {
    let r = claim_outcome(503, "down for maintenance");
    assert_eq!(
        r,
        Err(PairError::Remote("pair failed (503): down for maintenance".to_string()))
    );
    let r = claim_outcome(404, "{\"error\": 7}");
    assert_eq!(r, Err(PairError::Remote("pair failed (404): {\"error\": 7}".to_string())));
}

#[test]
fn accepted_claim_pairs_the_record() {
    let site = "https://example.com";
    let req = plan_pair(site, "1234", "dev", "host").unwrap();
    let c = claim_outcome(200, "{\"device_token\": \"tok123\", \"device_id\": \"dev456\"}").unwrap();
    assert_eq!(c, claimed("dev456", "tok123"));
    let record = paired_record(&req.site, &c);
    assert_eq!(
        record,
        PairingRecord {
            site: Some(site.to_string()),
            device_id: Some("dev456".to_string()),
            device_token: Some("tok123".to_string()),
            paired: true,
        }
    );
    assert_eq!(
        get_status(&record),
        PairingStatus { site: Some(site.to_string()), paired: true }
    );
}

#[test]
fn claim_missing_token_is_a_protocol_error() {
    let before = PairingRecord::default();
    let r = claim_outcome(200, "{\"device_id\": \"dev456\"}");
    assert_eq!(r, Err(PairError::Protocol("unexpected pairing response".to_string())));
    assert_eq!(get_status(&before), PairingStatus { site: None, paired: false });
}

#[test]
fn claim_with_empty_fields_or_bad_json_is_a_protocol_error() {
    let e = Err(PairError::Protocol("unexpected pairing response".to_string()));
    assert_eq!(claim_outcome(201, "{\"device_token\": \"\", \"device_id\": \"d\"}"), e);
    assert_eq!(claim_outcome(200, "{\"device_token\": \"t\", \"device_id\": \"\"}"), e);
    assert_eq!(claim_outcome(200, "not json"), e);
}

#[test]
fn unpaired_record_sends_no_heartbeat() {
    assert_eq!(plan_heartbeat(&PairingRecord::default()), None);
    let half = PairingRecord {
        site: Some("https://example.com".to_string()),
        device_id: Some("d".to_string()),
        device_token: None,
        paired: true,
    };
    assert_eq!(plan_heartbeat(&half), None);
}

#[test]
fn heartbeat_after_pairing_carries_token_and_id() {
    let c = claimed("dev456", "tok123");
    let record = paired_record("https://example.com/", &c);
    assert_eq!(
        plan_heartbeat(&record),
        Some(HeartbeatRequest {
            url: "https://example.com/wp-json/gsdt/v1/phone-transfer/device/heartbeat".to_string(),
            token: "tok123".to_string(),
            body: "{\"device_id\":\"dev456\",\"utility_version\":\"0.1.0\",\"status\":\"ready\"}"
                .to_string(),
        })
    );
}

#[test]
fn heartbeat_reports_success_statuses() {
    assert!(heartbeat_reported(200));
    assert!(heartbeat_reported(204));
    assert!(heartbeat_reported(299));
    assert!(!heartbeat_reported(199));
    assert!(!heartbeat_reported(300));
    assert!(!heartbeat_reported(401));
}

#[test]
fn device_id_is_md5_of_host_and_user() {
    assert_eq!(device_id_for("myhost", "alice"), "dfa938c1999647cc27251759934f7c30");
    assert_eq!(device_id_for("myhost", "alice"), device_id_for("myhost", "alice"));
}

#[test]
fn compute_device_id_is_stable() {
    let a = compute_device_id();
    let b = compute_device_id();
    assert_eq!(a, b);
    assert_eq!(a.len(), 32);
}

#[test]
fn default_record_is_unpaired() {
    let r = PairingRecord::default();
    assert_eq!(r.site, None);
    assert_eq!(r.device_id, None);
    assert_eq!(r.device_token, None);
    assert!(!r.paired);
}

#[test]
fn error_message_of_each_kind() {
    assert_eq!(PairError::Network("n".to_string()).message(), "n");
    assert_eq!(PairError::Persistence("p".to_string()).message(), "p");
    assert_eq!(PairError::Validation("v".to_string()).message(), "v");
}
