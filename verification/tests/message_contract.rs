use gecko_bridge::errors::{BridgeError, DecodeError, ProtocolError};
use gecko_bridge::messages::{
    check_fingerprint, CardInfoType, GeckoBridgeFromClient, GeckoBridgeToClient, JsonValue,
    NetworkInfo, NetworkOperator, NetworkState, NetworkType, ObjectRef, SimContactInfo,
    SERVICE_FINGERPRINT,
};
use gecko_bridge::schema::{answers_to, Direction};

fn contact(n: u32) -> SimContactInfo {
    SimContactInfo {
        id: format!("id{}", n),
        tel: format!("+33{}", n),
        email: format!("c{}@example.org", n),
        name: format!("Zoë {}", n),
        category: String::new(),
    }
}

fn from_client_samples() -> Vec<GeckoBridgeFromClient> {
    vec![
        GeckoBridgeFromClient::GeckoFeaturesBoolPrefChanged("a.b".to_string(), true),
        GeckoBridgeFromClient::GeckoFeaturesCharPrefChanged("a.c".to_string(), "v".to_string()),
        GeckoBridgeFromClient::GeckoFeaturesImportSimContacts(None),
        GeckoBridgeFromClient::GeckoFeaturesImportSimContacts(Some(vec![])),
        GeckoBridgeFromClient::GeckoFeaturesImportSimContacts(Some(vec![contact(1), contact(2)])),
        GeckoBridgeFromClient::GeckoFeaturesIntPrefChanged("a.i".to_string(), -7),
        GeckoBridgeFromClient::GeckoFeaturesRegisterToken("t".to_string(), "u".to_string(), None),
        GeckoBridgeFromClient::GeckoFeaturesRegisterToken(
            "t".to_string(),
            "u".to_string(),
            Some(vec!["p".to_string(), "".to_string(), "q r".to_string()]),
        ),
        GeckoBridgeFromClient::GeckoFeaturesSetAppsServiceDelegate(ObjectRef { id: 1 }),
        GeckoBridgeFromClient::GeckoFeaturesSetMobileManagerDelegate(ObjectRef { id: 2 }),
        GeckoBridgeFromClient::GeckoFeaturesSetNetworkManagerDelegate(ObjectRef { id: 3 }),
        GeckoBridgeFromClient::GeckoFeaturesSetPowerManagerDelegate(ObjectRef { id: 4 }),
        GeckoBridgeFromClient::GeckoFeaturesSetPreferenceDelegate(ObjectRef { id: u32::MAX }),
        GeckoBridgeFromClient::AppsServiceDelegateGetUaSuccess("Mozilla/5.0".to_string()),
        GeckoBridgeFromClient::AppsServiceDelegateGetUaError,
        GeckoBridgeFromClient::AppsServiceDelegateOnBootSuccess,
        GeckoBridgeFromClient::AppsServiceDelegateOnBootError,
        GeckoBridgeFromClient::AppsServiceDelegateOnBootDoneSuccess,
        GeckoBridgeFromClient::AppsServiceDelegateOnBootDoneError,
        GeckoBridgeFromClient::AppsServiceDelegateOnClearSuccess,
        GeckoBridgeFromClient::AppsServiceDelegateOnClearError,
        GeckoBridgeFromClient::AppsServiceDelegateOnInstallSuccess,
        GeckoBridgeFromClient::AppsServiceDelegateOnInstallError,
        GeckoBridgeFromClient::AppsServiceDelegateOnLaunchSuccess,
        GeckoBridgeFromClient::AppsServiceDelegateOnLaunchError,
        GeckoBridgeFromClient::AppsServiceDelegateOnUninstallSuccess,
        GeckoBridgeFromClient::AppsServiceDelegateOnUninstallError,
        GeckoBridgeFromClient::AppsServiceDelegateOnUpdateSuccess,
        GeckoBridgeFromClient::AppsServiceDelegateOnUpdateError,
        GeckoBridgeFromClient::MobileManagerDelegateGetCardInfoSuccess("490154203237518".to_string()),
        GeckoBridgeFromClient::MobileManagerDelegateGetCardInfoError,
        GeckoBridgeFromClient::MobileManagerDelegateGetMncMccSuccess(NetworkOperator {
            mnc: "01".to_string(),
            mcc: "208".to_string(),
        }),
        GeckoBridgeFromClient::MobileManagerDelegateGetMncMccError,
        GeckoBridgeFromClient::NetworkManagerDelegateGetNetworkInfoSuccess(NetworkInfo {
            network_state: NetworkState::NetworkStateConnected,
            network_type: NetworkType::NetworkTypeMobileXcap,
        }),
        GeckoBridgeFromClient::NetworkManagerDelegateGetNetworkInfoError,
        GeckoBridgeFromClient::PowerManagerDelegateRequestWakelockSuccess(ObjectRef { id: 9 }),
        GeckoBridgeFromClient::PowerManagerDelegateRequestWakelockError,
        GeckoBridgeFromClient::PowerManagerDelegateSetScreenEnabledSuccess,
        GeckoBridgeFromClient::PowerManagerDelegateSetScreenEnabledError,
        GeckoBridgeFromClient::PreferenceDelegateGetBoolSuccess(false),
        GeckoBridgeFromClient::PreferenceDelegateGetBoolError,
        GeckoBridgeFromClient::PreferenceDelegateGetCharSuccess("é".to_string()),
        GeckoBridgeFromClient::PreferenceDelegateGetCharError,
        GeckoBridgeFromClient::PreferenceDelegateGetIntSuccess(i64::MIN),
        GeckoBridgeFromClient::PreferenceDelegateGetIntSuccess(i64::MAX),
        GeckoBridgeFromClient::PreferenceDelegateGetIntError,
        GeckoBridgeFromClient::PreferenceDelegateSetBoolSuccess,
        GeckoBridgeFromClient::PreferenceDelegateSetBoolError,
        GeckoBridgeFromClient::PreferenceDelegateSetCharSuccess,
        GeckoBridgeFromClient::PreferenceDelegateSetCharError,
        GeckoBridgeFromClient::PreferenceDelegateSetIntSuccess,
        GeckoBridgeFromClient::PreferenceDelegateSetIntError,
        GeckoBridgeFromClient::WakelockGetTopicSuccess("cpu".to_string()),
        GeckoBridgeFromClient::WakelockGetTopicError,
        GeckoBridgeFromClient::WakelockUnlockSuccess,
        GeckoBridgeFromClient::WakelockUnlockError,
    ]
}

fn to_client_samples() -> Vec<GeckoBridgeToClient> {
    let json = |s: &str| JsonValue::new(s.to_string());
    vec![
        GeckoBridgeToClient::GeckoFeaturesBoolPrefChangedSuccess,
        GeckoBridgeToClient::GeckoFeaturesBoolPrefChangedError,
        GeckoBridgeToClient::GeckoFeaturesCharPrefChangedSuccess,
        GeckoBridgeToClient::GeckoFeaturesCharPrefChangedError,
        GeckoBridgeToClient::GeckoFeaturesImportSimContactsSuccess,
        GeckoBridgeToClient::GeckoFeaturesImportSimContactsError,
        GeckoBridgeToClient::GeckoFeaturesIntPrefChangedSuccess,
        GeckoBridgeToClient::GeckoFeaturesIntPrefChangedError,
        GeckoBridgeToClient::GeckoFeaturesRegisterTokenSuccess,
        GeckoBridgeToClient::GeckoFeaturesRegisterTokenError,
        GeckoBridgeToClient::GeckoFeaturesSetAppsServiceDelegateSuccess,
        GeckoBridgeToClient::GeckoFeaturesSetAppsServiceDelegateError,
        GeckoBridgeToClient::GeckoFeaturesSetMobileManagerDelegateSuccess,
        GeckoBridgeToClient::GeckoFeaturesSetMobileManagerDelegateError,
        GeckoBridgeToClient::GeckoFeaturesSetNetworkManagerDelegateSuccess,
        GeckoBridgeToClient::GeckoFeaturesSetNetworkManagerDelegateError,
        GeckoBridgeToClient::GeckoFeaturesSetPowerManagerDelegateSuccess,
        GeckoBridgeToClient::GeckoFeaturesSetPowerManagerDelegateError,
        GeckoBridgeToClient::GeckoFeaturesSetPreferenceDelegateSuccess,
        GeckoBridgeToClient::GeckoFeaturesSetPreferenceDelegateError,
        GeckoBridgeToClient::AppsServiceDelegateGetUa,
        GeckoBridgeToClient::AppsServiceDelegateOnBoot("app://x".to_string(), json("{\"a\":1}")),
        GeckoBridgeToClient::AppsServiceDelegateOnBootDone,
        GeckoBridgeToClient::AppsServiceDelegateOnClear("app://x".to_string(), "data".to_string(), json("{}")),
        GeckoBridgeToClient::AppsServiceDelegateOnInstall("app://x".to_string(), json("{}")),
        GeckoBridgeToClient::AppsServiceDelegateOnLaunch("app://x".to_string()),
        GeckoBridgeToClient::AppsServiceDelegateOnUninstall("app://x".to_string()),
        GeckoBridgeToClient::AppsServiceDelegateOnUpdate("app://x".to_string(), json("[]")),
        GeckoBridgeToClient::MobileManagerDelegateGetCardInfo(1, CardInfoType::Msisdn),
        GeckoBridgeToClient::MobileManagerDelegateGetMncMcc(-1, true),
        GeckoBridgeToClient::NetworkManagerDelegateGetNetworkInfo,
        GeckoBridgeToClient::PowerManagerDelegateRequestWakelock("screen".to_string()),
        GeckoBridgeToClient::PowerManagerDelegateSetScreenEnabled(true, false),
        GeckoBridgeToClient::PreferenceDelegateGetBool("k".to_string()),
        GeckoBridgeToClient::PreferenceDelegateGetChar("k".to_string()),
        GeckoBridgeToClient::PreferenceDelegateGetInt("k".to_string()),
        GeckoBridgeToClient::PreferenceDelegateSetBool("k".to_string(), true),
        GeckoBridgeToClient::PreferenceDelegateSetChar("k".to_string(), "v".to_string()),
        GeckoBridgeToClient::PreferenceDelegateSetInt("k".to_string(), 42),
        GeckoBridgeToClient::WakelockGetTopic,
        GeckoBridgeToClient::WakelockUnlock,
    ]
}

#[test]
fn every_from_client_variant_round_trips() {
    let samples = from_client_samples();
    let mut seen = [false; 52];
    for message in samples {
        seen[message.variant_index() as usize] = true;
        let payload = message.encode();
        let decoded = GeckoBridgeFromClient::decode(&payload);
        assert_eq!(decoded, Ok(message));
        assert_eq!(decoded.unwrap().encode(), payload);
    }
    assert!(seen.iter().all(|s| *s));
}

#[test]
fn every_to_client_variant_round_trips() {
    let samples = to_client_samples();
    assert_eq!(samples.len(), 41);
    for (index, message) in samples.into_iter().enumerate() {
        assert_eq!(message.variant_index() as usize, index);
        let payload = message.encode();
        let decoded = GeckoBridgeToClient::decode(&payload);
        assert_eq!(decoded, Ok(message));
        assert_eq!(decoded.unwrap().encode(), payload);
    }
}

#[test]
fn unit_variant_is_its_index() {
    let payload = GeckoBridgeFromClient::AppsServiceDelegateOnInstallSuccess.encode();
    assert_eq!(payload, vec![0, 0, 0, 18]);
    assert_eq!(GeckoBridgeToClient::WakelockUnlock.encode(), vec![0, 0, 0, 40]);
}

#[test]
fn text_and_flag_layout() {
    let payload = GeckoBridgeFromClient::GeckoFeaturesBoolPrefChanged("ab".to_string(), true)
        .encode();
    assert_eq!(
        payload,
        vec![0, 0, 0, 0, 0, 0, 0, 0, 0, 0, 0, 2, b'a', b'b', 1]
    );
}

#[test]
fn negative_integer_layout() {
    let payload = GeckoBridgeFromClient::PreferenceDelegateGetIntSuccess(-2).encode();
    assert_eq!(
        payload,
        vec![0, 0, 0, 40, 0xff, 0xff, 0xff, 0xff, 0xff, 0xff, 0xff, 0xfe]
    );
}

#[test]
fn optional_list_layout() {
    let none = GeckoBridgeFromClient::GeckoFeaturesImportSimContacts(None).encode();
    assert_eq!(none, vec![0, 0, 0, 2, 0]);
    let empty = GeckoBridgeFromClient::GeckoFeaturesImportSimContacts(Some(vec![])).encode();
    assert_eq!(empty, vec![0, 0, 0, 2, 1, 0, 0, 0, 0, 0, 0, 0, 0]);
}

#[test]
fn text_length_counts_bytes_not_characters() {
    let payload = GeckoBridgeFromClient::PreferenceDelegateGetCharSuccess("é".to_string())
        .encode();
    assert_eq!(
        payload,
        vec![0, 0, 0, 38, 0, 0, 0, 0, 0, 0, 0, 2, 0xc3, 0xa9]
    );
}

#[test]
fn unknown_variant_is_unsupported() {
    assert_eq!(
        GeckoBridgeToClient::decode(&[0, 0, 0, 41]),
        Err(DecodeError::Unsupported(41))
    );
    assert_eq!(
        GeckoBridgeFromClient::decode(&[0, 0, 0, 52]),
        Err(DecodeError::Unsupported(52))
    );
    assert_eq!(
        GeckoBridgeFromClient::decode(&[0xff, 0xff, 0xff, 0xff, 1, 2, 3]),
        Err(DecodeError::Unsupported(u32::MAX))
    );
}

#[test]
fn truncated_payload_is_malformed() {
    assert_eq!(GeckoBridgeToClient::decode(&[]), Err(DecodeError::Malformed));
    assert_eq!(GeckoBridgeToClient::decode(&[0, 0, 0]), Err(DecodeError::Malformed));
    let payload = GeckoBridgeToClient::AppsServiceDelegateOnLaunch("app://x".to_string()).encode();
    for cut in 4..payload.len() {
        assert_eq!(
            GeckoBridgeToClient::decode(&payload[..cut]),
            Err(DecodeError::Malformed)
        );
    }
}

#[test]
fn trailing_bytes_are_malformed() {
    let mut payload = GeckoBridgeToClient::AppsServiceDelegateGetUa.encode();
    payload.push(0);
    assert_eq!(GeckoBridgeToClient::decode(&payload), Err(DecodeError::Malformed));
}

#[test]
fn flag_other_than_zero_or_one_is_malformed() {
    assert_eq!(
        GeckoBridgeFromClient::decode(&[0, 0, 0, 36, 2]),
        Err(DecodeError::Malformed)
    );
    assert_eq!(
        GeckoBridgeFromClient::decode(&[0, 0, 0, 36, 1]),
        Ok(GeckoBridgeFromClient::PreferenceDelegateGetBoolSuccess(true))
    );
}

#[test]
fn invalid_utf8_is_malformed() {
    assert_eq!(
        GeckoBridgeFromClient::decode(&[0, 0, 0, 10, 0, 0, 0, 0, 0, 0, 0, 1, 0xff]),
        Err(DecodeError::Malformed)
    );
}

#[test]
fn enumeration_index_out_of_range_is_malformed() {
    // state 8 does not exist
    assert_eq!(
        GeckoBridgeFromClient::decode(&[0, 0, 0, 30, 0, 0, 0, 8, 0, 0, 0, 0]),
        Err(DecodeError::Malformed)
    );
    assert_eq!(
        GeckoBridgeFromClient::decode(&[0, 0, 0, 30, 0, 0, 0, 7, 0, 0, 0, 14]),
        Ok(GeckoBridgeFromClient::NetworkManagerDelegateGetNetworkInfoSuccess(NetworkInfo {
            network_state: NetworkState::NetworkStateSuspended,
            network_type: NetworkType::NetworkTypeMobileXcap,
        }))
    );
}

#[test]
fn list_count_beyond_the_payload_is_malformed() {
    let mut payload = vec![0, 0, 0, 2, 1];
    payload.extend_from_slice(&u64::MAX.to_be_bytes());
    assert_eq!(GeckoBridgeFromClient::decode(&payload), Err(DecodeError::Malformed));
}

#[test]
fn enumeration_indices() {
    assert_eq!(CardInfoType::Imei.to_index(), 0);
    assert_eq!(CardInfoType::from_index(2), Some(CardInfoType::Msisdn));
    assert_eq!(CardInfoType::from_index(3), None);
    assert_eq!(NetworkState::NetworkStateSuspended.to_index(), 7);
    assert_eq!(NetworkState::from_index(8), None);
    assert_eq!(NetworkType::NetworkTypeMobileXcap.to_index(), 14);
    assert_eq!(NetworkType::from_index(9), Some(NetworkType::NetworkTypeEthernet));
    assert_eq!(NetworkType::from_index(15), None);
}

#[test]
fn answers_of_requests() {
    assert_eq!(answers_to(Direction::FromClient, 0), Some((0, 1)));
    assert_eq!(answers_to(Direction::FromClient, 9), Some((18, 19)));
    assert_eq!(answers_to(Direction::FromClient, 10), None);
    assert_eq!(answers_to(Direction::ToClient, 19), None);
    assert_eq!(answers_to(Direction::ToClient, 20), Some((10, 11)));
    assert_eq!(answers_to(Direction::ToClient, 24), Some((18, 19)));
    assert_eq!(answers_to(Direction::ToClient, 40), Some((50, 51)));
    assert_eq!(answers_to(Direction::ToClient, 41), None);
}

#[test]
fn answers_follow_the_variant_names() {
    for (index, request) in to_client_samples().iter().enumerate() {
        let name = format!("{:?}", request);
        let name = name.split('(').next().unwrap().to_string();
        match answers_to(Direction::ToClient, index as u32) {
            Some((success, error)) => {
                let found: Vec<String> = from_client_samples()
                    .iter()
                    .filter(|m| m.variant_index() == success || m.variant_index() == error)
                    .map(|m| format!("{:?}", m).split('(').next().unwrap().to_string())
                    .collect();
                assert!(found.contains(&format!("{}Success", name)));
                assert!(found.contains(&format!("{}Error", name)));
            }
            None => assert!(name.ends_with("Success") || name.ends_with("Error")),
        }
    }
}

#[test]
fn fingerprint_must_match() {
    assert_eq!(check_fingerprint(SERVICE_FINGERPRINT), Ok(()));
    assert_eq!(
        check_fingerprint("cae7f5c6f9ca9610b8ddf39345746641a92ad0e08a051ec4b90ac4a9a9cf67"),
        Err(BridgeError::SchemaMismatch)
    );
    assert_eq!(check_fingerprint(""), Err(BridgeError::SchemaMismatch));
}

#[test]
fn fatal_errors() {
    assert!(BridgeError::ConnectionError.is_fatal());
    assert!(BridgeError::ProtocolError(ProtocolError::Truncated).is_fatal());
    assert!(BridgeError::SchemaMismatch.is_fatal());
    assert!(!BridgeError::UnknownAddress.is_fatal());
    assert!(!BridgeError::DecodeError(DecodeError::Malformed).is_fatal());
    assert!(!BridgeError::CapabilityError.is_fatal());
}
