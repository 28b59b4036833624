use phone_client::api::Api;

fn api_with_secret(secret: &str) -> Api {
    Api::new(String::new(), secret.to_string())
}

#[test]
fn test_sign() {
    let api = Api::new("".to_string(), "VyWatNuqAp6GYDG".to_string());
    assert_eq!(
        api.sign(1737055057812),
        "zlRf047zhWs%2B1XH5DUqUV8Fv07doAFpJUwmj6U7rh8s%3D"
    );
}

#[test]
fn sign_is_deterministic() {
    let api = api_with_secret("VyWatNuqAp6GYDG");
    let first = api.sign(1737055057812);
    let second = api.sign(1737055057812);
    assert_eq!(first, second);
    assert_eq!(first, "zlRf047zhWs%2B1XH5DUqUV8Fv07doAFpJUwmj6U7rh8s%3D");
}

#[test]
fn verify_accepts_own_signature() {
    let api = api_with_secret("some secret");
    let timestamp = 1700000000123u64;
    let sign = api.sign(timestamp);
    assert!(api.verify(timestamp, &Some(sign)));
}

#[test]
fn verify_rejects_mutated_signature() {
    let api = api_with_secret("VyWatNuqAp6GYDG");
    let timestamp = 1737055057812u64;
    let good = api.sign(timestamp);
    for i in 0..good.len() {
        let mut chars: Vec<char> = good.chars().collect();
        chars[i] = if chars[i] == 'z' { 'y' } else { 'z' };
        let mutated: String = chars.into_iter().collect();
        assert!(!api.verify(timestamp, &Some(mutated)));
    }
}

#[test]
fn verify_rejects_missing_signature() {
    let api = api_with_secret("VyWatNuqAp6GYDG");
    for timestamp in [0u64, 1u64, 1737055057812u64, u64::MAX] {
        assert!(!api.verify(timestamp, &None));
    }
}

#[test]
fn verify_rejects_signature_for_other_timestamp() {
    let api = api_with_secret("VyWatNuqAp6GYDG");
    let sign = api.sign(1737055057812);
    assert!(!api.verify(1737055057813, &Some(sign)));
}
