use phone_client::envelope::{
    Battery, Config, ResponseWrapper, SimInfo, SimInfoList, decode_battery, decode_battery_envelope,
    decode_config, decode_config_envelope, decode_sim_info, decode_sim_list, json_of_battery,
    json_of_battery_envelope, json_of_config, json_of_config_envelope, json_of_sim_info,
};
use phone_client::json::Json;

fn sim_info(carrier: &str, slot: i32) -> SimInfo {
    SimInfo {
        carrier_name: carrier.to_string(),
        country_iso: "cn".to_string(),
        icc_id: format!("8986{}", slot),
        number: format!("+86100000000{}", slot),
        sim_slot_index: slot,
        subscription_id: slot + 1,
    }
}

fn sample_config() -> Config {
    let mut list = SimInfoList::new();
    assert!(list.insert("0".to_string(), sim_info("CMCC", 0)));
    assert!(list.insert("1".to_string(), sim_info("CUCC", 1)));
    Config {
        enable_api_battery_query: true,
        enable_api_call_query: false,
        enable_api_clone: false,
        enable_api_contact_query: true,
        enable_api_sms_query: true,
        enable_api_sms_send: false,
        enable_api_wol: true,
        extra_device_mark: Some("Dev".to_string()),
        extra_sim1: None,
        extra_sim2: Some("sim2 note".to_string()),
        sim_info_list: Some(list),
    }
}

fn sample_battery() -> Battery {
    Battery {
        level: "36%".to_string(),
        scale: Some("100".to_string()),
        voltage: None,
        temperature: Some("25.0".to_string()),
        status: "2".to_string(),
        health: "良好".to_string(),
        plugged: "1".to_string(),
    }
}

#[test]
fn sim_info_round_trip() {
    let original = sim_info("CMCC", 0);
    let encoded = json_of_sim_info(&original);
    let decoded = decode_sim_info(&encoded).unwrap();
    assert_eq!(decoded, original);
}

#[test]
fn config_round_trip() {
    let original = sample_config();
    let encoded = json_of_config(&original);
    let decoded = decode_config(&encoded).unwrap();
    assert_eq!(decoded, original);
}

#[test]
fn battery_round_trip() {
    let original = sample_battery();
    let encoded = json_of_battery(&original);
    let decoded = decode_battery(&encoded).unwrap();
    assert_eq!(decoded, original);
}

#[test]
fn config_envelope_round_trip() {
    let original = ResponseWrapper {
        code: 200,
        msg: Some("success".to_string()),
        data: Some(sample_config()),
        timestamp: 1737054664286,
        sign: Some("zlRf047zhWs%2B1XH5DUqUV8Fv07doAFpJUwmj6U7rh8s%3D".to_string()),
    };
    let encoded = json_of_config_envelope(&original);
    let decoded = decode_config_envelope(&encoded).unwrap();
    assert_eq!(decoded, original);
}

#[test]
fn battery_envelope_round_trip() {
    let original = ResponseWrapper {
        code: 200,
        msg: None,
        data: Some(sample_battery()),
        timestamp: 1737054664309,
        sign: None,
    };
    let encoded = json_of_battery_envelope(&original);
    let decoded = decode_battery_envelope(&encoded).unwrap();
    assert_eq!(decoded, original);
}

#[test]
fn envelope_without_payload_round_trips() {
    let original: ResponseWrapper<Config> = ResponseWrapper {
        code: 500,
        msg: Some("failure".to_string()),
        data: None,
        timestamp: 7,
        sign: None,
    };
    let encoded = json_of_config_envelope(&original);
    let decoded = decode_config_envelope(&encoded).unwrap();
    assert_eq!(decoded, original);
}

#[test]
fn missing_required_field_fails_decode() {
    // A battery snapshot without its required `level` field.
    let body = Json::Obj(vec![
        ("status".to_string(), Json::Str("2".to_string())),
        ("health".to_string(), Json::Str("良好".to_string())),
        ("plugged".to_string(), Json::Str("1".to_string())),
    ]);
    assert!(decode_battery(&body).is_none());
}

#[test]
fn mistyped_field_fails_decode() {
    let mut original = json_of_battery(&sample_battery());
    if let Json::Obj(ref mut pairs) = original {
        pairs[0] = ("level".to_string(), Json::Int(36));
    }
    assert!(decode_battery(&original).is_none());
}

#[test]
fn non_object_fails_decode() {
    assert!(decode_config(&Json::Str("{}".to_string())).is_none());
    assert!(decode_config_envelope(&Json::Null).is_none());
    assert!(decode_battery_envelope(&Json::Arr(vec![])).is_none());
}

#[test]
fn out_of_range_slot_index_fails_decode() {
    let mut encoded = json_of_sim_info(&sim_info("CMCC", 0));
    if let Json::Obj(ref mut pairs) = encoded {
        pairs[4] = ("sim_slot_index".to_string(), Json::Int(i64::from(i32::MAX) + 1));
    }
    assert!(decode_sim_info(&encoded).is_none());
}

#[test]
fn duplicate_slot_keys_fail_decode() {
    let entry = json_of_sim_info(&sim_info("CMCC", 0));
    let other = json_of_sim_info(&sim_info("CUCC", 1));
    let body = Json::Obj(vec![
        ("0".to_string(), entry),
        ("0".to_string(), other),
    ]);
    assert!(decode_sim_list(&body).is_none());
}

#[test]
fn sim_info_list_lookup() {
    let mut list = SimInfoList::new();
    assert!(list.insert("0".to_string(), sim_info("CMCC", 0)));
    assert!(list.insert("1".to_string(), sim_info("CUCC", 1)));
    assert!(!list.insert("0".to_string(), sim_info("CTCC", 2)));
    assert_eq!(list.len(), 2);
    assert!(list.contains_key("0"));
    assert!(list.contains_key("1"));
    assert!(!list.contains_key("2"));
    assert_eq!(list.get("0").unwrap().carrier_name, "CMCC");
    assert_eq!(list.get("1").unwrap().carrier_name, "CUCC");
    assert!(list.get("2").is_none());
}

#[test]
fn object_lookup_finds_first_binding() {
    let body = Json::Obj(vec![
        ("code".to_string(), Json::UInt(200)),
        ("msg".to_string(), Json::Str("success".to_string())),
        ("msg".to_string(), Json::Str("shadowed".to_string())),
    ]);
    assert!(matches!(body.get("code"), Some(Json::UInt(200))));
    match body.get("msg") {
        Some(Json::Str(s)) => assert_eq!(s, "success"),
        other => panic!("expected the first binding, got {:?}", other),
    }
    assert!(body.get("data").is_none());
    assert!(Json::Null.get("code").is_none());
}

#[test]
fn optional_fields_absent_and_null_decode_alike() {
    // `msg` null and `sign` absent both decode to None.
    let body = Json::Obj(vec![
        ("code".to_string(), Json::UInt(200)),
        ("msg".to_string(), Json::Null),
        ("data".to_string(), Json::Null),
        ("timestamp".to_string(), Json::UInt(5)),
    ]);
    let decoded = decode_config_envelope(&body).unwrap();
    assert_eq!(decoded.code, 200);
    assert_eq!(decoded.msg, None);
    assert_eq!(decoded.data, None);
    assert_eq!(decoded.timestamp, 5);
    assert_eq!(decoded.sign, None);
}
