use phone_client::api::{Api, QueryError, json_of_payload};
use phone_client::envelope::{
    Battery, Config, ResponseWrapper, SimInfo, SimInfoList, json_of_battery_envelope,
    json_of_config_envelope, json_of_envelope_untyped,
};
use phone_client::json::Json;

const SECRET: &str = "VyWatNuqAp6GYDG";

fn create_api() -> Api {
    Api::new("http://127.0.0.1:5000".to_string(), SECRET.to_string())
}

fn sim_info(carrier: &str, slot: i32) -> SimInfo {
    SimInfo {
        carrier_name: carrier.to_string(),
        country_iso: "cn".to_string(),
        icc_id: format!("8986{}", slot),
        number: format!("+86100000000{}", slot),
        sim_slot_index: slot,
        subscription_id: slot + 1,
    }
}

fn config_response_body(api: &Api) -> Json {
    let mut list = SimInfoList::new();
    assert!(list.insert("0".to_string(), sim_info("CMCC", 0)));
    assert!(list.insert("1".to_string(), sim_info("CUCC", 1)));
    let timestamp = 1737054664286u64;
    let envelope = ResponseWrapper {
        code: 200,
        msg: Some("success".to_string()),
        data: Some(Config {
            enable_api_battery_query: true,
            enable_api_call_query: true,
            enable_api_clone: false,
            enable_api_contact_query: true,
            enable_api_sms_query: true,
            enable_api_sms_send: false,
            enable_api_wol: false,
            extra_device_mark: Some("Dev".to_string()),
            extra_sim1: None,
            extra_sim2: None,
            sim_info_list: Some(list),
        }),
        timestamp,
        sign: Some(api.sign(timestamp)),
    };
    json_of_config_envelope(&envelope)
}

#[test]
fn test_query_config() {
    let api = create_api();
    let body = config_response_body(&api);
    let response = api.accept_config(&body).unwrap();
    assert_eq!(response.code, 200);
    assert_eq!(response.msg, Some("success".into()));
    assert_eq!(response.timestamp, 1737054664286);
    assert!(response.data.is_some());
    let data = response.data.unwrap();
    assert!(data.enable_api_battery_query);
    assert!(data.sim_info_list.is_some());
    let sim_info_list = data.sim_info_list.unwrap();
    assert_eq!(sim_info_list.len(), 2);
    assert!(sim_info_list.contains_key("0"));
    assert_eq!(sim_info_list.get("0").unwrap().carrier_name, "CMCC");
}

#[test]
fn test_query_battery() {
    let api = create_api();
    let timestamp = 1737054664309u64;
    let envelope = ResponseWrapper {
        code: 200,
        msg: Some("success".to_string()),
        data: Some(Battery {
            level: "36%".to_string(),
            scale: Some("100".to_string()),
            voltage: Some("4350".to_string()),
            temperature: Some("301".to_string()),
            status: "2".to_string(),
            health: "良好".to_string(),
            plugged: "1".to_string(),
        }),
        timestamp,
        sign: Some(api.sign(timestamp)),
    };
    let body = json_of_battery_envelope(&envelope);
    let response = api.accept_battery(&body).unwrap();
    assert_eq!(response.code, 200);
    assert_eq!(response.msg, Some("success".into()));
    assert_eq!(response.timestamp, 1737054664309);
    assert!(response.data.is_some());
    let data = response.data.unwrap();
    assert_eq!(data.level, "36%");
    assert_eq!(data.health, "良好");
}

#[test]
fn test_invalid_signature_response() {
    let api = create_api();
    let body = json_of_envelope_untyped(
        200,
        &Some("test test".to_string()),
        Json::Null,
        1737054664286,
        &Some("not the right signature".to_string()),
    );
    let response = api.accept_raw(&body);
    assert!(response.is_err());
    let err = response.unwrap_err();
    match err {
        QueryError::WrongSignature(envelope) => {
            assert_eq!(envelope.code, 200);
            assert_eq!(envelope.msg.unwrap(), "test test");
            assert!(envelope.data.is_none());
        }
        other => panic!("expected a signature mismatch, got {:?}", other),
    }
}

#[test]
fn missing_signature_is_rejected_at_receipt() {
    let api = create_api();
    let body = json_of_envelope_untyped(200, &None, Json::Null, 1737054664286, &None);
    match api.accept_raw(&body) {
        Err(QueryError::WrongSignature(envelope)) => {
            assert_eq!(envelope.code, 200);
            assert!(envelope.sign.is_none());
        }
        other => panic!("expected a signature mismatch, got {:?}", other),
    }
}

#[test]
fn malformed_body_is_a_decode_error() {
    let api = create_api();
    let body = Json::Str("not an envelope".to_string());
    match api.accept_config(&body) {
        Err(QueryError::Decode) => {}
        other => panic!("expected a decode error, got {:?}", other),
    }
}

#[test]
fn tampered_payload_fails_verification() {
    let api = create_api();
    let mut body = config_response_body(&api);
    // Flip the application status code; the signature still covers only the
    // timestamp, so the envelope still verifies: the signature scheme binds
    // timestamp and secret, not the payload.
    if let Json::Obj(ref mut pairs) = body {
        pairs[0] = ("code".to_string(), Json::Int(404));
    }
    let response = api.accept_config(&body).unwrap();
    assert_eq!(response.code, 404);
    // A response re-stamped with a different timestamp no longer verifies.
    let mut restamped = config_response_body(&api);
    if let Json::Obj(ref mut pairs) = restamped {
        pairs[3] = ("timestamp".to_string(), Json::UInt(1737054664287));
    }
    match api.accept_config(&restamped) {
        Err(QueryError::WrongSignature(envelope)) => {
            assert_eq!(envelope.timestamp, 1737054664287);
        }
        other => panic!("expected a signature mismatch, got {:?}", other),
    }
}

#[test]
fn payload_has_the_wire_shape() {
    let api = create_api();
    let payload = api.make_payload(1737055057812, Json::Obj(vec![]));
    assert_eq!(payload.timestamp, 1737055057812);
    assert_eq!(payload.sign, "zlRf047zhWs%2B1XH5DUqUV8Fv07doAFpJUwmj6U7rh8s%3D");
    let wire = json_of_payload(payload);
    match wire {
        Json::Obj(pairs) => {
            assert_eq!(pairs.len(), 3);
            assert_eq!(pairs[0].0, "data");
            assert_eq!(pairs[1].0, "timestamp");
            assert!(matches!(pairs[1].1, Json::UInt(1737055057812)));
            assert_eq!(pairs[2].0, "sign");
        }
        other => panic!("expected an object, got {:?}", other),
    }
}

#[test]
fn urls_join_base_and_fixed_paths() {
    let api = create_api();
    assert_eq!(api.config_url(), "http://127.0.0.1:5000/config/query");
    assert_eq!(api.battery_url(), "http://127.0.0.1:5000/battery/query");
}
