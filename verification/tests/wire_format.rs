use bincode::Options;
use gecko_bridge::messages::{
    CardInfoType, GeckoBridgeFromClient, GeckoBridgeToClient, JsonValue, NetworkInfo,
    NetworkOperator, NetworkState, NetworkType, ObjectRef, SimContactInfo,
};

// The layout of a payload is that of bincode with big-endian, fixed-width
// integers, applied to the variant index followed by the fields.
fn bincode_bytes<T: serde::Serialize>(value: &T) -> Vec<u8> {
    bincode::options()
        .with_big_endian()
        .with_fixint_encoding()
        .serialize(value)
        .unwrap()
}

#[test]
fn unit_matches_bincode() {
    assert_eq!(
        GeckoBridgeFromClient::WakelockUnlockError.encode(),
        bincode_bytes(&51u32)
    );
}

#[test]
fn text_and_flag_match_bincode() {
    assert_eq!(
        GeckoBridgeFromClient::GeckoFeaturesBoolPrefChanged("dom.enabled".to_string(), true)
            .encode(),
        bincode_bytes(&(0u32, "dom.enabled".to_string(), true))
    );
    assert_eq!(
        GeckoBridgeToClient::PreferenceDelegateSetBool("k".to_string(), false).encode(),
        bincode_bytes(&(36u32, "k".to_string(), false))
    );
}

#[test]
fn integers_match_bincode() {
    for v in [0i64, 1, -1, 255, 256, -256, i64::MIN, i64::MAX, 0x0102_0304_0506_0708] {
        assert_eq!(
            GeckoBridgeFromClient::PreferenceDelegateGetIntSuccess(v).encode(),
            bincode_bytes(&(40u32, v))
        );
        assert_eq!(
            GeckoBridgeToClient::PreferenceDelegateSetInt("k".to_string(), v).encode(),
            bincode_bytes(&(38u32, "k".to_string(), v))
        );
    }
}

#[test]
fn object_reference_matches_bincode() {
    for id in [0u32, 7, 0x0102_0304, u32::MAX] {
        assert_eq!(
            GeckoBridgeFromClient::GeckoFeaturesSetAppsServiceDelegate(ObjectRef { id }).encode(),
            bincode_bytes(&(5u32, id))
        );
    }
}

#[test]
fn texts_match_bincode() {
    assert_eq!(
        GeckoBridgeToClient::AppsServiceDelegateOnClear(
            "app://x".to_string(),
            "data".to_string(),
            JsonValue::new("{\"k\":\"é\"}".to_string()),
        )
        .encode(),
        bincode_bytes(&(
            23u32,
            "app://x".to_string(),
            "data".to_string(),
            "{\"k\":\"é\"}".to_string()
        ))
    );
    assert_eq!(
        GeckoBridgeFromClient::MobileManagerDelegateGetMncMccSuccess(NetworkOperator {
            mnc: "01".to_string(),
            mcc: "208".to_string(),
        })
        .encode(),
        bincode_bytes(&(28u32, "01".to_string(), "208".to_string()))
    );
}

#[test]
fn optional_lists_match_bincode() {
    let none: Option<Vec<String>> = None;
    assert_eq!(
        GeckoBridgeFromClient::GeckoFeaturesRegisterToken(
            "t".to_string(),
            "u".to_string(),
            None
        )
        .encode(),
        bincode_bytes(&(4u32, "t".to_string(), "u".to_string(), none))
    );
    let some = Some(vec!["a".to_string(), "".to_string(), "bc".to_string()]);
    assert_eq!(
        GeckoBridgeFromClient::GeckoFeaturesRegisterToken(
            "t".to_string(),
            "u".to_string(),
            some.clone()
        )
        .encode(),
        bincode_bytes(&(4u32, "t".to_string(), "u".to_string(), some))
    );
}

#[test]
fn contacts_match_bincode() {
    let contact = SimContactInfo {
        id: "1".to_string(),
        tel: "+33".to_string(),
        email: "a@b".to_string(),
        name: "n".to_string(),
        category: "c".to_string(),
    };
    let as_tuple = (
        "1".to_string(),
        "+33".to_string(),
        "a@b".to_string(),
        "n".to_string(),
        "c".to_string(),
    );
    assert_eq!(
        GeckoBridgeFromClient::GeckoFeaturesImportSimContacts(Some(vec![
            contact.clone(),
            contact
        ]))
        .encode(),
        bincode_bytes(&(2u32, Some(vec![as_tuple.clone(), as_tuple])))
    );
}

#[test]
fn enumerations_match_bincode() {
    assert_eq!(
        GeckoBridgeFromClient::NetworkManagerDelegateGetNetworkInfoSuccess(NetworkInfo {
            network_state: NetworkState::NetworkStateDisconnected,
            network_type: NetworkType::NetworkTypeMobileHipri,
        })
        .encode(),
        bincode_bytes(&(30u32, 4u32, 10u32))
    );
    assert_eq!(
        GeckoBridgeToClient::MobileManagerDelegateGetCardInfo(3, CardInfoType::Imsi).encode(),
        bincode_bytes(&(28u32, 3i64, 1u32))
    );
    assert_eq!(
        GeckoBridgeToClient::PowerManagerDelegateSetScreenEnabled(false, true).encode(),
        bincode_bytes(&(32u32, false, true))
    );
    assert_eq!(
        GeckoBridgeToClient::MobileManagerDelegateGetMncMcc(-5, true).encode(),
        bincode_bytes(&(29u32, -5i64, true))
    );
}

fn bincode_reads<'a, T: serde::Deserialize<'a>>(bytes: &'a [u8]) -> Option<T> {
    bincode::options()
        .with_big_endian()
        .with_fixint_encoding()
        .deserialize(bytes)
        .ok()
}

#[test]
fn bincode_reads_what_is_encoded() {
    let payload = GeckoBridgeToClient::AppsServiceDelegateOnInstall(
        "app://x".to_string(),
        JsonValue::new("{}".to_string()),
    )
    .encode();
    assert_eq!(
        bincode_reads::<(u32, String, String)>(&payload),
        Some((24, "app://x".to_string(), "{}".to_string()))
    );
    let payload = GeckoBridgeFromClient::GeckoFeaturesRegisterToken(
        "t".to_string(),
        "u".to_string(),
        Some(vec!["p".to_string()]),
    )
    .encode();
    assert_eq!(
        bincode_reads::<(u32, String, String, Option<Vec<String>>)>(&payload),
        Some((4, "t".to_string(), "u".to_string(), Some(vec!["p".to_string()])))
    );
}

#[test]
fn what_is_refused_is_refused_by_bincode() {
    let bad_flag = [0u8, 0, 0, 36, 2];
    assert_eq!(bincode_reads::<(u32, bool)>(&bad_flag), None);
    assert!(GeckoBridgeFromClient::decode(&bad_flag).is_err());

    let trailing = [0u8, 0, 0, 36, 1, 0];
    assert_eq!(bincode_reads::<(u32, bool)>(&trailing), None);
    assert!(GeckoBridgeFromClient::decode(&trailing).is_err());

    let bad_text = [0u8, 0, 0, 10, 0, 0, 0, 0, 0, 0, 0, 1, 0xff];
    assert_eq!(bincode_reads::<(u32, String)>(&bad_text), None);
    assert!(GeckoBridgeFromClient::decode(&bad_text).is_err());

    let short_text = [0u8, 0, 0, 10, 0, 0, 0, 0, 0, 0, 0, 2, b'a'];
    assert_eq!(bincode_reads::<(u32, String)>(&short_text), None);
    assert!(GeckoBridgeFromClient::decode(&short_text).is_err());

    let bad_option = [0u8, 0, 0, 2, 2];
    assert_eq!(bincode_reads::<(u32, Option<Vec<String>>)>(&bad_option), None);
    assert!(GeckoBridgeFromClient::decode(&bad_option).is_err());
}
