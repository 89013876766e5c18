//! The message contract: the closed set of messages of each direction, and the
//! plain records that they carry.

use crate::errors::{BridgeError, DecodeError};
use crate::payload::{
    contacts_body, contacts_payload, flag_body, flag_flag_body, flag_flag_payload, flag_payload,
    int_body, int_card_body, int_card_payload, int_flag_body, int_flag_payload, int_payload,
    network_body, network_payload, object_body, object_payload, opt_contacts_view, opt_texts_view,
    payload_bytes, text_body, text_flag_body, text_flag_payload, text_int_body, text_int_payload,
    text_payload, text_text_body, text_text_payload, text_text_text_body, text_text_text_payload,
    token_body, token_payload, unit_body, unit_payload, Body, Contact, MessageView,
};
use crate::schema::{parse_payload, variant_count, well_formed, Direction};
use crate::wire::Reader;
use crate::TrackerId;
use vstd::prelude::*;

verus! {

/// Identifies the schema: the variants of both directions and their order.
/// Both ends of a connection must hold the same one.
pub const SERVICE_FINGERPRINT: &'static str =
    "cae7f5c6f9ca9610b8ddf39345746641a92ad0e08a051ec4b90ac4a9a9cf66";

/// Whether the peer holds the same schema. A peer with another fingerprint
/// is refused: its payloads would be read as messages that it did not send.
pub fn check_fingerprint(peer: &str) -> (result: Result<(), BridgeError>)
    ensures
        peer@ == SERVICE_FINGERPRINT@ ==> result is Ok,
        peer@ != SERVICE_FINGERPRINT@ ==> result == Err::<(), BridgeError>(
            BridgeError::SchemaMismatch,
        ),
{
    if peer.to_owned() == SERVICE_FINGERPRINT.to_owned() {
        Ok(())
    } else {
        Err(BridgeError::SchemaMismatch)
    }
}

/// Which of a card's numbers is asked for.
#[derive(Clone, Copy, Debug, PartialEq, Eq, Structural)]
pub enum CardInfoType {
    Imei,
    Imsi,
    Msisdn,
}

/// The state of a network connection.
#[derive(Clone, Copy, Debug, PartialEq, Eq, Structural)]
pub enum NetworkState {
    NetworkStateUnknown,
    NetworkStateConnecting,
    NetworkStateConnected,
    NetworkStateDisconnecting,
    NetworkStateDisconnected,
    NetworkStateEnabled,
    NetworkStateDisabled,
    NetworkStateSuspended,
}

/// The kind of a network connection.
#[derive(Clone, Copy, Debug, PartialEq, Eq, Structural)]
pub enum NetworkType {
    NetworkTypeUnknown,
    NetworkTypeWifi,
    NetworkTypeMobile,
    NetworkTypeMobileMms,
    NetworkTypeMobileSupl,
    NetworkTypeWifiP2p,
    NetworkTypeMobileIms,
    NetworkTypeMobileDun,
    NetworkTypeMobileFota,
    NetworkTypeEthernet,
    NetworkTypeMobileHipri,
    NetworkTypeMobileCbs,
    NetworkTypeMobileIa,
    NetworkTypeMobileEcc,
    NetworkTypeMobileXcap,
}

/// The state and the kind of the active network.
#[derive(Clone, Copy, Debug, PartialEq, Eq, Structural)]
pub struct NetworkInfo {
    pub network_state: NetworkState,
    pub network_type: NetworkType,
}

/// The codes of a mobile network operator.
#[derive(Clone, Debug, PartialEq, Eq)]
pub struct NetworkOperator {
    pub mnc: String,
    pub mcc: String,
}

/// A contact stored on a SIM card.
#[derive(Clone, Debug, PartialEq, Eq)]
pub struct SimContactInfo {
    pub id: String,
    pub tel: String,
    pub email: String,
    pub name: String,
    pub category: String,
}

/// A reference to an object that lives on the other side.
#[derive(Clone, Copy, Debug, PartialEq, Eq, Structural)]
pub struct ObjectRef {
    pub id: TrackerId,
}

/// A JSON document, carried as its text. The bridge does not look inside.
#[derive(Clone, Debug, PartialEq, Eq)]
pub struct JsonValue {
    pub text: String,
}

impl View for JsonValue {
    type V = Seq<char>;

    open spec fn view(&self) -> Seq<char> {
        self.text@
    }
}

impl JsonValue {
    /// Wraps the text of a document.
    pub fn new(text: String) -> (value: Self)
        ensures
            value@ == text@,
    {
        JsonValue { text }
    }

    /// The text of the document.
    pub fn into_string(self) -> (text: String)
        ensures
            text@ == self@,
    {
        self.text
    }
}

impl View for SimContactInfo {
    type V = Contact;

    open spec fn view(&self) -> Contact {
        Contact {
            id: self.id@,
            tel: self.tel@,
            email: self.email@,
            name: self.name@,
            category: self.category@,
        }
    }
}

impl CardInfoType {
    /// The index of the variant.
    pub open spec fn index(self) -> u32 {
        match self {
            CardInfoType::Imei => 0,
            CardInfoType::Imsi => 1,
            CardInfoType::Msisdn => 2,
        }
    }

    /// The variant with the given index, if there is one.
    pub open spec fn of_index(index: u32) -> Option<Self> {
        match index {
            0 => Some(CardInfoType::Imei),
            1 => Some(CardInfoType::Imsi),
            2 => Some(CardInfoType::Msisdn),
            _ => None,
        }
    }

    /// The index of the variant.
    pub fn to_index(self) -> (index: u32)
        ensures
            index == self.index(),
            Self::of_index(index) == Some(self),
    {
        match self {
            CardInfoType::Imei => 0,
            CardInfoType::Imsi => 1,
            CardInfoType::Msisdn => 2,
        }
    }

    /// The variant with the given index, if there is one.
    pub fn from_index(index: u32) -> (value: Option<Self>)
        ensures
            value == Self::of_index(index),
            value matches Some(v) ==> v.index() == index,
    {
        match index {
            0 => Some(CardInfoType::Imei),
            1 => Some(CardInfoType::Imsi),
            2 => Some(CardInfoType::Msisdn),
            _ => None,
        }
    }
}

impl NetworkState {
    /// The index of the variant.
    pub open spec fn index(self) -> u32 {
        match self {
            NetworkState::NetworkStateUnknown => 0,
            NetworkState::NetworkStateConnecting => 1,
            NetworkState::NetworkStateConnected => 2,
            NetworkState::NetworkStateDisconnecting => 3,
            NetworkState::NetworkStateDisconnected => 4,
            NetworkState::NetworkStateEnabled => 5,
            NetworkState::NetworkStateDisabled => 6,
            NetworkState::NetworkStateSuspended => 7,
        }
    }

    /// The variant with the given index, if there is one.
    pub open spec fn of_index(index: u32) -> Option<Self> {
        match index {
            0 => Some(NetworkState::NetworkStateUnknown),
            1 => Some(NetworkState::NetworkStateConnecting),
            2 => Some(NetworkState::NetworkStateConnected),
            3 => Some(NetworkState::NetworkStateDisconnecting),
            4 => Some(NetworkState::NetworkStateDisconnected),
            5 => Some(NetworkState::NetworkStateEnabled),
            6 => Some(NetworkState::NetworkStateDisabled),
            7 => Some(NetworkState::NetworkStateSuspended),
            _ => None,
        }
    }

    /// The index of the variant.
    pub fn to_index(self) -> (index: u32)
        ensures
            index == self.index(),
            Self::of_index(index) == Some(self),
    {
        match self {
            NetworkState::NetworkStateUnknown => 0,
            NetworkState::NetworkStateConnecting => 1,
            NetworkState::NetworkStateConnected => 2,
            NetworkState::NetworkStateDisconnecting => 3,
            NetworkState::NetworkStateDisconnected => 4,
            NetworkState::NetworkStateEnabled => 5,
            NetworkState::NetworkStateDisabled => 6,
            NetworkState::NetworkStateSuspended => 7,
        }
    }

    /// The variant with the given index, if there is one.
    pub fn from_index(index: u32) -> (value: Option<Self>)
        ensures
            value == Self::of_index(index),
            value matches Some(v) ==> v.index() == index,
    {
        match index {
            0 => Some(NetworkState::NetworkStateUnknown),
            1 => Some(NetworkState::NetworkStateConnecting),
            2 => Some(NetworkState::NetworkStateConnected),
            3 => Some(NetworkState::NetworkStateDisconnecting),
            4 => Some(NetworkState::NetworkStateDisconnected),
            5 => Some(NetworkState::NetworkStateEnabled),
            6 => Some(NetworkState::NetworkStateDisabled),
            7 => Some(NetworkState::NetworkStateSuspended),
            _ => None,
        }
    }
}

impl NetworkType {
    /// The index of the variant.
    pub open spec fn index(self) -> u32 {
        match self {
            NetworkType::NetworkTypeUnknown => 0,
            NetworkType::NetworkTypeWifi => 1,
            NetworkType::NetworkTypeMobile => 2,
            NetworkType::NetworkTypeMobileMms => 3,
            NetworkType::NetworkTypeMobileSupl => 4,
            NetworkType::NetworkTypeWifiP2p => 5,
            NetworkType::NetworkTypeMobileIms => 6,
            NetworkType::NetworkTypeMobileDun => 7,
            NetworkType::NetworkTypeMobileFota => 8,
            NetworkType::NetworkTypeEthernet => 9,
            NetworkType::NetworkTypeMobileHipri => 10,
            NetworkType::NetworkTypeMobileCbs => 11,
            NetworkType::NetworkTypeMobileIa => 12,
            NetworkType::NetworkTypeMobileEcc => 13,
            NetworkType::NetworkTypeMobileXcap => 14,
        }
    }

    /// The variant with the given index, if there is one.
    pub open spec fn of_index(index: u32) -> Option<Self> {
        match index {
            0 => Some(NetworkType::NetworkTypeUnknown),
            1 => Some(NetworkType::NetworkTypeWifi),
            2 => Some(NetworkType::NetworkTypeMobile),
            3 => Some(NetworkType::NetworkTypeMobileMms),
            4 => Some(NetworkType::NetworkTypeMobileSupl),
            5 => Some(NetworkType::NetworkTypeWifiP2p),
            6 => Some(NetworkType::NetworkTypeMobileIms),
            7 => Some(NetworkType::NetworkTypeMobileDun),
            8 => Some(NetworkType::NetworkTypeMobileFota),
            9 => Some(NetworkType::NetworkTypeEthernet),
            10 => Some(NetworkType::NetworkTypeMobileHipri),
            11 => Some(NetworkType::NetworkTypeMobileCbs),
            12 => Some(NetworkType::NetworkTypeMobileIa),
            13 => Some(NetworkType::NetworkTypeMobileEcc),
            14 => Some(NetworkType::NetworkTypeMobileXcap),
            _ => None,
        }
    }

    /// The index of the variant.
    pub fn to_index(self) -> (index: u32)
        ensures
            index == self.index(),
            Self::of_index(index) == Some(self),
    {
        match self {
            NetworkType::NetworkTypeUnknown => 0,
            NetworkType::NetworkTypeWifi => 1,
            NetworkType::NetworkTypeMobile => 2,
            NetworkType::NetworkTypeMobileMms => 3,
            NetworkType::NetworkTypeMobileSupl => 4,
            NetworkType::NetworkTypeWifiP2p => 5,
            NetworkType::NetworkTypeMobileIms => 6,
            NetworkType::NetworkTypeMobileDun => 7,
            NetworkType::NetworkTypeMobileFota => 8,
            NetworkType::NetworkTypeEthernet => 9,
            NetworkType::NetworkTypeMobileHipri => 10,
            NetworkType::NetworkTypeMobileCbs => 11,
            NetworkType::NetworkTypeMobileIa => 12,
            NetworkType::NetworkTypeMobileEcc => 13,
            NetworkType::NetworkTypeMobileXcap => 14,
        }
    }

    /// The variant with the given index, if there is one.
    pub fn from_index(index: u32) -> (value: Option<Self>)
        ensures
            value == Self::of_index(index),
            value matches Some(v) ==> v.index() == index,
    {
        match index {
            0 => Some(NetworkType::NetworkTypeUnknown),
            1 => Some(NetworkType::NetworkTypeWifi),
            2 => Some(NetworkType::NetworkTypeMobile),
            3 => Some(NetworkType::NetworkTypeMobileMms),
            4 => Some(NetworkType::NetworkTypeMobileSupl),
            5 => Some(NetworkType::NetworkTypeWifiP2p),
            6 => Some(NetworkType::NetworkTypeMobileIms),
            7 => Some(NetworkType::NetworkTypeMobileDun),
            8 => Some(NetworkType::NetworkTypeMobileFota),
            9 => Some(NetworkType::NetworkTypeEthernet),
            10 => Some(NetworkType::NetworkTypeMobileHipri),
            11 => Some(NetworkType::NetworkTypeMobileCbs),
            12 => Some(NetworkType::NetworkTypeMobileIa),
            13 => Some(NetworkType::NetworkTypeMobileEcc),
            14 => Some(NetworkType::NetworkTypeMobileXcap),
            _ => None,
        }
    }
}

/// What the client sends: its requests to the host, and the answers of its
/// delegates to the host's commands.
#[derive(Clone, Debug, PartialEq, Eq)]
pub enum GeckoBridgeFromClient {
    GeckoFeaturesBoolPrefChanged(String, bool),
    GeckoFeaturesCharPrefChanged(String, String),
    GeckoFeaturesImportSimContacts(Option<Vec<SimContactInfo>>),
    GeckoFeaturesIntPrefChanged(String, i64),
    GeckoFeaturesRegisterToken(String, String, Option<Vec<String>>),
    GeckoFeaturesSetAppsServiceDelegate(ObjectRef),
    GeckoFeaturesSetMobileManagerDelegate(ObjectRef),
    GeckoFeaturesSetNetworkManagerDelegate(ObjectRef),
    GeckoFeaturesSetPowerManagerDelegate(ObjectRef),
    GeckoFeaturesSetPreferenceDelegate(ObjectRef),
    AppsServiceDelegateGetUaSuccess(String),
    AppsServiceDelegateGetUaError,
    AppsServiceDelegateOnBootSuccess,
    AppsServiceDelegateOnBootError,
    AppsServiceDelegateOnBootDoneSuccess,
    AppsServiceDelegateOnBootDoneError,
    AppsServiceDelegateOnClearSuccess,
    AppsServiceDelegateOnClearError,
    AppsServiceDelegateOnInstallSuccess,
    AppsServiceDelegateOnInstallError,
    AppsServiceDelegateOnLaunchSuccess,
    AppsServiceDelegateOnLaunchError,
    AppsServiceDelegateOnUninstallSuccess,
    AppsServiceDelegateOnUninstallError,
    AppsServiceDelegateOnUpdateSuccess,
    AppsServiceDelegateOnUpdateError,
    MobileManagerDelegateGetCardInfoSuccess(String),
    MobileManagerDelegateGetCardInfoError,
    MobileManagerDelegateGetMncMccSuccess(NetworkOperator),
    MobileManagerDelegateGetMncMccError,
    NetworkManagerDelegateGetNetworkInfoSuccess(NetworkInfo),
    NetworkManagerDelegateGetNetworkInfoError,
    PowerManagerDelegateRequestWakelockSuccess(ObjectRef),
    PowerManagerDelegateRequestWakelockError,
    PowerManagerDelegateSetScreenEnabledSuccess,
    PowerManagerDelegateSetScreenEnabledError,
    PreferenceDelegateGetBoolSuccess(bool),
    PreferenceDelegateGetBoolError,
    PreferenceDelegateGetCharSuccess(String),
    PreferenceDelegateGetCharError,
    PreferenceDelegateGetIntSuccess(i64),
    PreferenceDelegateGetIntError,
    PreferenceDelegateSetBoolSuccess,
    PreferenceDelegateSetBoolError,
    PreferenceDelegateSetCharSuccess,
    PreferenceDelegateSetCharError,
    PreferenceDelegateSetIntSuccess,
    PreferenceDelegateSetIntError,
    WakelockGetTopicSuccess(String),
    WakelockGetTopicError,
    WakelockUnlockSuccess,
    WakelockUnlockError,
}

/// What the client receives: the host's answers to its requests, and the
/// host's commands for its delegates.
#[derive(Clone, Debug, PartialEq, Eq)]
pub enum GeckoBridgeToClient {
    GeckoFeaturesBoolPrefChangedSuccess,
    GeckoFeaturesBoolPrefChangedError,
    GeckoFeaturesCharPrefChangedSuccess,
    GeckoFeaturesCharPrefChangedError,
    GeckoFeaturesImportSimContactsSuccess,
    GeckoFeaturesImportSimContactsError,
    GeckoFeaturesIntPrefChangedSuccess,
    GeckoFeaturesIntPrefChangedError,
    GeckoFeaturesRegisterTokenSuccess,
    GeckoFeaturesRegisterTokenError,
    GeckoFeaturesSetAppsServiceDelegateSuccess,
    GeckoFeaturesSetAppsServiceDelegateError,
    GeckoFeaturesSetMobileManagerDelegateSuccess,
    GeckoFeaturesSetMobileManagerDelegateError,
    GeckoFeaturesSetNetworkManagerDelegateSuccess,
    GeckoFeaturesSetNetworkManagerDelegateError,
    GeckoFeaturesSetPowerManagerDelegateSuccess,
    GeckoFeaturesSetPowerManagerDelegateError,
    GeckoFeaturesSetPreferenceDelegateSuccess,
    GeckoFeaturesSetPreferenceDelegateError,
    AppsServiceDelegateGetUa,
    AppsServiceDelegateOnBoot(String, JsonValue),
    AppsServiceDelegateOnBootDone,
    AppsServiceDelegateOnClear(String, String, JsonValue),
    AppsServiceDelegateOnInstall(String, JsonValue),
    AppsServiceDelegateOnLaunch(String),
    AppsServiceDelegateOnUninstall(String),
    AppsServiceDelegateOnUpdate(String, JsonValue),
    MobileManagerDelegateGetCardInfo(i64, CardInfoType),
    MobileManagerDelegateGetMncMcc(i64, bool),
    NetworkManagerDelegateGetNetworkInfo,
    PowerManagerDelegateRequestWakelock(String),
    PowerManagerDelegateSetScreenEnabled(bool, bool),
    PreferenceDelegateGetBool(String),
    PreferenceDelegateGetChar(String),
    PreferenceDelegateGetInt(String),
    PreferenceDelegateSetBool(String, bool),
    PreferenceDelegateSetChar(String, String),
    PreferenceDelegateSetInt(String, i64),
    WakelockGetTopic,
    WakelockUnlock,
}

impl View for GeckoBridgeFromClient {
    type V = MessageView;

    /// The variant index and the fields of the message. The indices follow the
    /// order of the variants and are part of the schema.
    open spec fn view(&self) -> MessageView {
        match self {
            Self::GeckoFeaturesBoolPrefChanged(a, b) => MessageView {
                index: 0,
                body: Body::TextFlag(a@, *b),
            },
            Self::GeckoFeaturesCharPrefChanged(a, b) => MessageView {
                index: 1,
                body: Body::TextText(a@, b@),
            },
            Self::GeckoFeaturesImportSimContacts(a) => MessageView {
                index: 2,
                body: Body::Contacts(opt_contacts_view(*a)),
            },
            Self::GeckoFeaturesIntPrefChanged(a, b) => MessageView {
                index: 3,
                body: Body::TextInt(a@, *b),
            },
            Self::GeckoFeaturesRegisterToken(a, b, c) => MessageView {
                index: 4,
                body: Body::Token(a@, b@, opt_texts_view(*c)),
            },
            Self::GeckoFeaturesSetAppsServiceDelegate(a) => MessageView {
                index: 5,
                body: Body::Object(a.id),
            },
            Self::GeckoFeaturesSetMobileManagerDelegate(a) => MessageView {
                index: 6,
                body: Body::Object(a.id),
            },
            Self::GeckoFeaturesSetNetworkManagerDelegate(a) => MessageView {
                index: 7,
                body: Body::Object(a.id),
            },
            Self::GeckoFeaturesSetPowerManagerDelegate(a) => MessageView {
                index: 8,
                body: Body::Object(a.id),
            },
            Self::GeckoFeaturesSetPreferenceDelegate(a) => MessageView {
                index: 9,
                body: Body::Object(a.id),
            },
            Self::AppsServiceDelegateGetUaSuccess(a) => MessageView {
                index: 10,
                body: Body::Text(a@),
            },
            Self::AppsServiceDelegateGetUaError => MessageView { index: 11, body: Body::Unit },
            Self::AppsServiceDelegateOnBootSuccess => MessageView { index: 12, body: Body::Unit },
            Self::AppsServiceDelegateOnBootError => MessageView { index: 13, body: Body::Unit },
            Self::AppsServiceDelegateOnBootDoneSuccess => MessageView {
                index: 14,
                body: Body::Unit,
            },
            Self::AppsServiceDelegateOnBootDoneError => MessageView { index: 15, body: Body::Unit },
            Self::AppsServiceDelegateOnClearSuccess => MessageView { index: 16, body: Body::Unit },
            Self::AppsServiceDelegateOnClearError => MessageView { index: 17, body: Body::Unit },
            Self::AppsServiceDelegateOnInstallSuccess => MessageView {
                index: 18,
                body: Body::Unit,
            },
            Self::AppsServiceDelegateOnInstallError => MessageView { index: 19, body: Body::Unit },
            Self::AppsServiceDelegateOnLaunchSuccess => MessageView { index: 20, body: Body::Unit },
            Self::AppsServiceDelegateOnLaunchError => MessageView { index: 21, body: Body::Unit },
            Self::AppsServiceDelegateOnUninstallSuccess => MessageView {
                index: 22,
                body: Body::Unit,
            },
            Self::AppsServiceDelegateOnUninstallError => MessageView {
                index: 23,
                body: Body::Unit,
            },
            Self::AppsServiceDelegateOnUpdateSuccess => MessageView { index: 24, body: Body::Unit },
            Self::AppsServiceDelegateOnUpdateError => MessageView { index: 25, body: Body::Unit },
            Self::MobileManagerDelegateGetCardInfoSuccess(a) => MessageView {
                index: 26,
                body: Body::Text(a@),
            },
            Self::MobileManagerDelegateGetCardInfoError => MessageView {
                index: 27,
                body: Body::Unit,
            },
            Self::MobileManagerDelegateGetMncMccSuccess(a) => MessageView {
                index: 28,
                body: Body::TextText(a.mnc@, a.mcc@),
            },
            Self::MobileManagerDelegateGetMncMccError => MessageView {
                index: 29,
                body: Body::Unit,
            },
            Self::NetworkManagerDelegateGetNetworkInfoSuccess(a) => MessageView {
                index: 30,
                body: Body::Network(a.network_state, a.network_type),
            },
            Self::NetworkManagerDelegateGetNetworkInfoError => MessageView {
                index: 31,
                body: Body::Unit,
            },
            Self::PowerManagerDelegateRequestWakelockSuccess(a) => MessageView {
                index: 32,
                body: Body::Object(a.id),
            },
            Self::PowerManagerDelegateRequestWakelockError => MessageView {
                index: 33,
                body: Body::Unit,
            },
            Self::PowerManagerDelegateSetScreenEnabledSuccess => MessageView {
                index: 34,
                body: Body::Unit,
            },
            Self::PowerManagerDelegateSetScreenEnabledError => MessageView {
                index: 35,
                body: Body::Unit,
            },
            Self::PreferenceDelegateGetBoolSuccess(a) => MessageView {
                index: 36,
                body: Body::Flag(*a),
            },
            Self::PreferenceDelegateGetBoolError => MessageView { index: 37, body: Body::Unit },
            Self::PreferenceDelegateGetCharSuccess(a) => MessageView {
                index: 38,
                body: Body::Text(a@),
            },
            Self::PreferenceDelegateGetCharError => MessageView { index: 39, body: Body::Unit },
            Self::PreferenceDelegateGetIntSuccess(a) => MessageView {
                index: 40,
                body: Body::Int(*a),
            },
            Self::PreferenceDelegateGetIntError => MessageView { index: 41, body: Body::Unit },
            Self::PreferenceDelegateSetBoolSuccess => MessageView { index: 42, body: Body::Unit },
            Self::PreferenceDelegateSetBoolError => MessageView { index: 43, body: Body::Unit },
            Self::PreferenceDelegateSetCharSuccess => MessageView { index: 44, body: Body::Unit },
            Self::PreferenceDelegateSetCharError => MessageView { index: 45, body: Body::Unit },
            Self::PreferenceDelegateSetIntSuccess => MessageView { index: 46, body: Body::Unit },
            Self::PreferenceDelegateSetIntError => MessageView { index: 47, body: Body::Unit },
            Self::WakelockGetTopicSuccess(a) => MessageView { index: 48, body: Body::Text(a@) },
            Self::WakelockGetTopicError => MessageView { index: 49, body: Body::Unit },
            Self::WakelockUnlockSuccess => MessageView { index: 50, body: Body::Unit },
            Self::WakelockUnlockError => MessageView { index: 51, body: Body::Unit },
        }
    }
}

impl GeckoBridgeFromClient {
    /// The index of this variant in the schema.
    pub fn variant_index(&self) -> (index: u32)
        ensures
            index == self@.index,
            index < variant_count(Direction::FromClient),
    {
        match self {
            Self::GeckoFeaturesBoolPrefChanged(..) => 0,
            Self::GeckoFeaturesCharPrefChanged(..) => 1,
            Self::GeckoFeaturesImportSimContacts(..) => 2,
            Self::GeckoFeaturesIntPrefChanged(..) => 3,
            Self::GeckoFeaturesRegisterToken(..) => 4,
            Self::GeckoFeaturesSetAppsServiceDelegate(..) => 5,
            Self::GeckoFeaturesSetMobileManagerDelegate(..) => 6,
            Self::GeckoFeaturesSetNetworkManagerDelegate(..) => 7,
            Self::GeckoFeaturesSetPowerManagerDelegate(..) => 8,
            Self::GeckoFeaturesSetPreferenceDelegate(..) => 9,
            Self::AppsServiceDelegateGetUaSuccess(..) => 10,
            Self::AppsServiceDelegateGetUaError => 11,
            Self::AppsServiceDelegateOnBootSuccess => 12,
            Self::AppsServiceDelegateOnBootError => 13,
            Self::AppsServiceDelegateOnBootDoneSuccess => 14,
            Self::AppsServiceDelegateOnBootDoneError => 15,
            Self::AppsServiceDelegateOnClearSuccess => 16,
            Self::AppsServiceDelegateOnClearError => 17,
            Self::AppsServiceDelegateOnInstallSuccess => 18,
            Self::AppsServiceDelegateOnInstallError => 19,
            Self::AppsServiceDelegateOnLaunchSuccess => 20,
            Self::AppsServiceDelegateOnLaunchError => 21,
            Self::AppsServiceDelegateOnUninstallSuccess => 22,
            Self::AppsServiceDelegateOnUninstallError => 23,
            Self::AppsServiceDelegateOnUpdateSuccess => 24,
            Self::AppsServiceDelegateOnUpdateError => 25,
            Self::MobileManagerDelegateGetCardInfoSuccess(..) => 26,
            Self::MobileManagerDelegateGetCardInfoError => 27,
            Self::MobileManagerDelegateGetMncMccSuccess(..) => 28,
            Self::MobileManagerDelegateGetMncMccError => 29,
            Self::NetworkManagerDelegateGetNetworkInfoSuccess(..) => 30,
            Self::NetworkManagerDelegateGetNetworkInfoError => 31,
            Self::PowerManagerDelegateRequestWakelockSuccess(..) => 32,
            Self::PowerManagerDelegateRequestWakelockError => 33,
            Self::PowerManagerDelegateSetScreenEnabledSuccess => 34,
            Self::PowerManagerDelegateSetScreenEnabledError => 35,
            Self::PreferenceDelegateGetBoolSuccess(..) => 36,
            Self::PreferenceDelegateGetBoolError => 37,
            Self::PreferenceDelegateGetCharSuccess(..) => 38,
            Self::PreferenceDelegateGetCharError => 39,
            Self::PreferenceDelegateGetIntSuccess(..) => 40,
            Self::PreferenceDelegateGetIntError => 41,
            Self::PreferenceDelegateSetBoolSuccess => 42,
            Self::PreferenceDelegateSetBoolError => 43,
            Self::PreferenceDelegateSetCharSuccess => 44,
            Self::PreferenceDelegateSetCharError => 45,
            Self::PreferenceDelegateSetIntSuccess => 46,
            Self::PreferenceDelegateSetIntError => 47,
            Self::WakelockGetTopicSuccess(..) => 48,
            Self::WakelockGetTopicError => 49,
            Self::WakelockUnlockSuccess => 50,
            Self::WakelockUnlockError => 51,
        }
    }

    /// Encodes the message as a payload.
    pub fn encode(&self) -> (payload: Vec<u8>)
        ensures
            payload@ == payload_bytes(self@),
            well_formed(Direction::FromClient, self@),
    {
        match self {
            Self::GeckoFeaturesBoolPrefChanged(a, b) => text_flag_payload(0, a.as_str(), *b),
            Self::GeckoFeaturesCharPrefChanged(a, b) => text_text_payload(
                1,
                a.as_str(),
                b.as_str(),
            ),
            Self::GeckoFeaturesImportSimContacts(a) => contacts_payload(2, a),
            Self::GeckoFeaturesIntPrefChanged(a, b) => text_int_payload(3, a.as_str(), *b),
            Self::GeckoFeaturesRegisterToken(a, b, c) => token_payload(
                4,
                a.as_str(),
                b.as_str(),
                c,
            ),
            Self::GeckoFeaturesSetAppsServiceDelegate(a) => object_payload(5, a.id),
            Self::GeckoFeaturesSetMobileManagerDelegate(a) => object_payload(6, a.id),
            Self::GeckoFeaturesSetNetworkManagerDelegate(a) => object_payload(7, a.id),
            Self::GeckoFeaturesSetPowerManagerDelegate(a) => object_payload(8, a.id),
            Self::GeckoFeaturesSetPreferenceDelegate(a) => object_payload(9, a.id),
            Self::AppsServiceDelegateGetUaSuccess(a) => text_payload(10, a.as_str()),
            Self::AppsServiceDelegateGetUaError => unit_payload(11),
            Self::AppsServiceDelegateOnBootSuccess => unit_payload(12),
            Self::AppsServiceDelegateOnBootError => unit_payload(13),
            Self::AppsServiceDelegateOnBootDoneSuccess => unit_payload(14),
            Self::AppsServiceDelegateOnBootDoneError => unit_payload(15),
            Self::AppsServiceDelegateOnClearSuccess => unit_payload(16),
            Self::AppsServiceDelegateOnClearError => unit_payload(17),
            Self::AppsServiceDelegateOnInstallSuccess => unit_payload(18),
            Self::AppsServiceDelegateOnInstallError => unit_payload(19),
            Self::AppsServiceDelegateOnLaunchSuccess => unit_payload(20),
            Self::AppsServiceDelegateOnLaunchError => unit_payload(21),
            Self::AppsServiceDelegateOnUninstallSuccess => unit_payload(22),
            Self::AppsServiceDelegateOnUninstallError => unit_payload(23),
            Self::AppsServiceDelegateOnUpdateSuccess => unit_payload(24),
            Self::AppsServiceDelegateOnUpdateError => unit_payload(25),
            Self::MobileManagerDelegateGetCardInfoSuccess(a) => text_payload(26, a.as_str()),
            Self::MobileManagerDelegateGetCardInfoError => unit_payload(27),
            Self::MobileManagerDelegateGetMncMccSuccess(a) => text_text_payload(
                28,
                a.mnc.as_str(),
                a.mcc.as_str(),
            ),
            Self::MobileManagerDelegateGetMncMccError => unit_payload(29),
            Self::NetworkManagerDelegateGetNetworkInfoSuccess(a) => network_payload(
                30,
                a.network_state,
                a.network_type,
            ),
            Self::NetworkManagerDelegateGetNetworkInfoError => unit_payload(31),
            Self::PowerManagerDelegateRequestWakelockSuccess(a) => object_payload(32, a.id),
            Self::PowerManagerDelegateRequestWakelockError => unit_payload(33),
            Self::PowerManagerDelegateSetScreenEnabledSuccess => unit_payload(34),
            Self::PowerManagerDelegateSetScreenEnabledError => unit_payload(35),
            Self::PreferenceDelegateGetBoolSuccess(a) => flag_payload(36, *a),
            Self::PreferenceDelegateGetBoolError => unit_payload(37),
            Self::PreferenceDelegateGetCharSuccess(a) => text_payload(38, a.as_str()),
            Self::PreferenceDelegateGetCharError => unit_payload(39),
            Self::PreferenceDelegateGetIntSuccess(a) => int_payload(40, *a),
            Self::PreferenceDelegateGetIntError => unit_payload(41),
            Self::PreferenceDelegateSetBoolSuccess => unit_payload(42),
            Self::PreferenceDelegateSetBoolError => unit_payload(43),
            Self::PreferenceDelegateSetCharSuccess => unit_payload(44),
            Self::PreferenceDelegateSetCharError => unit_payload(45),
            Self::PreferenceDelegateSetIntSuccess => unit_payload(46),
            Self::PreferenceDelegateSetIntError => unit_payload(47),
            Self::WakelockGetTopicSuccess(a) => text_payload(48, a.as_str()),
            Self::WakelockGetTopicError => unit_payload(49),
            Self::WakelockUnlockSuccess => unit_payload(50),
            Self::WakelockUnlockError => unit_payload(51),
        }
    }

    /// Decodes a payload. It succeeds on exactly the payloads that `encode`
    /// produces, and gives back the message that was encoded. An index beyond
    /// the schema is reported as unsupported; anything else that is no encoding
    /// of a message is malformed.
    pub fn decode(payload: &[u8]) -> (result: Result<Self, DecodeError>)
        ensures
            result matches Ok(message) ==> parse_payload(Direction::FromClient, payload@) == Ok::<
                MessageView,
                DecodeError,
            >(message@),
            result matches Err(e) ==> parse_payload(Direction::FromClient, payload@) == Err::<
                MessageView,
                DecodeError,
            >(e),
    {
        let mut reader = Reader::new(payload);
        let index = match reader.u32() {
            Some(index) => index,
            None => {
                return Err(DecodeError::Malformed);
            },
        };
        match index {
            0 => match text_flag_body(reader) {
                Some((a, b)) => Ok(Self::GeckoFeaturesBoolPrefChanged(a, b)),
                None => Err(DecodeError::Malformed),
            },
            1 => match text_text_body(reader) {
                Some((a, b)) => Ok(Self::GeckoFeaturesCharPrefChanged(a, b)),
                None => Err(DecodeError::Malformed),
            },
            2 => match contacts_body(reader) {
                Some(a) => Ok(Self::GeckoFeaturesImportSimContacts(a)),
                None => Err(DecodeError::Malformed),
            },
            3 => match text_int_body(reader) {
                Some((a, b)) => Ok(Self::GeckoFeaturesIntPrefChanged(a, b)),
                None => Err(DecodeError::Malformed),
            },
            4 => match token_body(reader) {
                Some((a, b, c)) => Ok(Self::GeckoFeaturesRegisterToken(a, b, c)),
                None => Err(DecodeError::Malformed),
            },
            5 => match object_body(reader) {
                Some(a) => Ok(Self::GeckoFeaturesSetAppsServiceDelegate(ObjectRef { id: a })),
                None => Err(DecodeError::Malformed),
            },
            6 => match object_body(reader) {
                Some(a) => Ok(Self::GeckoFeaturesSetMobileManagerDelegate(ObjectRef { id: a })),
                None => Err(DecodeError::Malformed),
            },
            7 => match object_body(reader) {
                Some(a) => Ok(Self::GeckoFeaturesSetNetworkManagerDelegate(ObjectRef { id: a })),
                None => Err(DecodeError::Malformed),
            },
            8 => match object_body(reader) {
                Some(a) => Ok(Self::GeckoFeaturesSetPowerManagerDelegate(ObjectRef { id: a })),
                None => Err(DecodeError::Malformed),
            },
            9 => match object_body(reader) {
                Some(a) => Ok(Self::GeckoFeaturesSetPreferenceDelegate(ObjectRef { id: a })),
                None => Err(DecodeError::Malformed),
            },
            10 => match text_body(reader) {
                Some(a) => Ok(Self::AppsServiceDelegateGetUaSuccess(a)),
                None => Err(DecodeError::Malformed),
            },
            11 => unit_body(reader, Self::AppsServiceDelegateGetUaError),
            12 => unit_body(reader, Self::AppsServiceDelegateOnBootSuccess),
            13 => unit_body(reader, Self::AppsServiceDelegateOnBootError),
            14 => unit_body(reader, Self::AppsServiceDelegateOnBootDoneSuccess),
            15 => unit_body(reader, Self::AppsServiceDelegateOnBootDoneError),
            16 => unit_body(reader, Self::AppsServiceDelegateOnClearSuccess),
            17 => unit_body(reader, Self::AppsServiceDelegateOnClearError),
            18 => unit_body(reader, Self::AppsServiceDelegateOnInstallSuccess),
            19 => unit_body(reader, Self::AppsServiceDelegateOnInstallError),
            20 => unit_body(reader, Self::AppsServiceDelegateOnLaunchSuccess),
            21 => unit_body(reader, Self::AppsServiceDelegateOnLaunchError),
            22 => unit_body(reader, Self::AppsServiceDelegateOnUninstallSuccess),
            23 => unit_body(reader, Self::AppsServiceDelegateOnUninstallError),
            24 => unit_body(reader, Self::AppsServiceDelegateOnUpdateSuccess),
            25 => unit_body(reader, Self::AppsServiceDelegateOnUpdateError),
            26 => match text_body(reader) {
                Some(a) => Ok(Self::MobileManagerDelegateGetCardInfoSuccess(a)),
                None => Err(DecodeError::Malformed),
            },
            27 => unit_body(reader, Self::MobileManagerDelegateGetCardInfoError),
            28 => match text_text_body(reader) {
                Some((a, b)) => Ok(
                    Self::MobileManagerDelegateGetMncMccSuccess(NetworkOperator { mnc: a, mcc: b }),
                ),
                None => Err(DecodeError::Malformed),
            },
            29 => unit_body(reader, Self::MobileManagerDelegateGetMncMccError),
            30 => match network_body(reader) {
                Some((a, b)) => Ok(
                    Self::NetworkManagerDelegateGetNetworkInfoSuccess(
                        NetworkInfo { network_state: a, network_type: b },
                    ),
                ),
                None => Err(DecodeError::Malformed),
            },
            31 => unit_body(reader, Self::NetworkManagerDelegateGetNetworkInfoError),
            32 => match object_body(reader) {
                Some(a) => Ok(
                    Self::PowerManagerDelegateRequestWakelockSuccess(ObjectRef { id: a }),
                ),
                None => Err(DecodeError::Malformed),
            },
            33 => unit_body(reader, Self::PowerManagerDelegateRequestWakelockError),
            34 => unit_body(reader, Self::PowerManagerDelegateSetScreenEnabledSuccess),
            35 => unit_body(reader, Self::PowerManagerDelegateSetScreenEnabledError),
            36 => match flag_body(reader) {
                Some(a) => Ok(Self::PreferenceDelegateGetBoolSuccess(a)),
                None => Err(DecodeError::Malformed),
            },
            37 => unit_body(reader, Self::PreferenceDelegateGetBoolError),
            38 => match text_body(reader) {
                Some(a) => Ok(Self::PreferenceDelegateGetCharSuccess(a)),
                None => Err(DecodeError::Malformed),
            },
            39 => unit_body(reader, Self::PreferenceDelegateGetCharError),
            40 => match int_body(reader) {
                Some(a) => Ok(Self::PreferenceDelegateGetIntSuccess(a)),
                None => Err(DecodeError::Malformed),
            },
            41 => unit_body(reader, Self::PreferenceDelegateGetIntError),
            42 => unit_body(reader, Self::PreferenceDelegateSetBoolSuccess),
            43 => unit_body(reader, Self::PreferenceDelegateSetBoolError),
            44 => unit_body(reader, Self::PreferenceDelegateSetCharSuccess),
            45 => unit_body(reader, Self::PreferenceDelegateSetCharError),
            46 => unit_body(reader, Self::PreferenceDelegateSetIntSuccess),
            47 => unit_body(reader, Self::PreferenceDelegateSetIntError),
            48 => match text_body(reader) {
                Some(a) => Ok(Self::WakelockGetTopicSuccess(a)),
                None => Err(DecodeError::Malformed),
            },
            49 => unit_body(reader, Self::WakelockGetTopicError),
            50 => unit_body(reader, Self::WakelockUnlockSuccess),
            51 => unit_body(reader, Self::WakelockUnlockError),
            _ => Err(DecodeError::Unsupported(index)),
        }
    }
}

impl View for GeckoBridgeToClient {
    type V = MessageView;

    /// The variant index and the fields of the message. The indices follow the
    /// order of the variants and are part of the schema.
    open spec fn view(&self) -> MessageView {
        match self {
            Self::GeckoFeaturesBoolPrefChangedSuccess => MessageView { index: 0, body: Body::Unit },
            Self::GeckoFeaturesBoolPrefChangedError => MessageView { index: 1, body: Body::Unit },
            Self::GeckoFeaturesCharPrefChangedSuccess => MessageView { index: 2, body: Body::Unit },
            Self::GeckoFeaturesCharPrefChangedError => MessageView { index: 3, body: Body::Unit },
            Self::GeckoFeaturesImportSimContactsSuccess => MessageView {
                index: 4,
                body: Body::Unit,
            },
            Self::GeckoFeaturesImportSimContactsError => MessageView { index: 5, body: Body::Unit },
            Self::GeckoFeaturesIntPrefChangedSuccess => MessageView { index: 6, body: Body::Unit },
            Self::GeckoFeaturesIntPrefChangedError => MessageView { index: 7, body: Body::Unit },
            Self::GeckoFeaturesRegisterTokenSuccess => MessageView { index: 8, body: Body::Unit },
            Self::GeckoFeaturesRegisterTokenError => MessageView { index: 9, body: Body::Unit },
            Self::GeckoFeaturesSetAppsServiceDelegateSuccess => MessageView {
                index: 10,
                body: Body::Unit,
            },
            Self::GeckoFeaturesSetAppsServiceDelegateError => MessageView {
                index: 11,
                body: Body::Unit,
            },
            Self::GeckoFeaturesSetMobileManagerDelegateSuccess => MessageView {
                index: 12,
                body: Body::Unit,
            },
            Self::GeckoFeaturesSetMobileManagerDelegateError => MessageView {
                index: 13,
                body: Body::Unit,
            },
            Self::GeckoFeaturesSetNetworkManagerDelegateSuccess => MessageView {
                index: 14,
                body: Body::Unit,
            },
            Self::GeckoFeaturesSetNetworkManagerDelegateError => MessageView {
                index: 15,
                body: Body::Unit,
            },
            Self::GeckoFeaturesSetPowerManagerDelegateSuccess => MessageView {
                index: 16,
                body: Body::Unit,
            },
            Self::GeckoFeaturesSetPowerManagerDelegateError => MessageView {
                index: 17,
                body: Body::Unit,
            },
            Self::GeckoFeaturesSetPreferenceDelegateSuccess => MessageView {
                index: 18,
                body: Body::Unit,
            },
            Self::GeckoFeaturesSetPreferenceDelegateError => MessageView {
                index: 19,
                body: Body::Unit,
            },
            Self::AppsServiceDelegateGetUa => MessageView { index: 20, body: Body::Unit },
            Self::AppsServiceDelegateOnBoot(a, b) => MessageView {
                index: 21,
                body: Body::TextText(a@, b@),
            },
            Self::AppsServiceDelegateOnBootDone => MessageView { index: 22, body: Body::Unit },
            Self::AppsServiceDelegateOnClear(a, b, c) => MessageView {
                index: 23,
                body: Body::TextTextText(a@, b@, c@),
            },
            Self::AppsServiceDelegateOnInstall(a, b) => MessageView {
                index: 24,
                body: Body::TextText(a@, b@),
            },
            Self::AppsServiceDelegateOnLaunch(a) => MessageView { index: 25, body: Body::Text(a@) },
            Self::AppsServiceDelegateOnUninstall(a) => MessageView {
                index: 26,
                body: Body::Text(a@),
            },
            Self::AppsServiceDelegateOnUpdate(a, b) => MessageView {
                index: 27,
                body: Body::TextText(a@, b@),
            },
            Self::MobileManagerDelegateGetCardInfo(a, b) => MessageView {
                index: 28,
                body: Body::IntCard(*a, *b),
            },
            Self::MobileManagerDelegateGetMncMcc(a, b) => MessageView {
                index: 29,
                body: Body::IntFlag(*a, *b),
            },
            Self::NetworkManagerDelegateGetNetworkInfo => MessageView {
                index: 30,
                body: Body::Unit,
            },
            Self::PowerManagerDelegateRequestWakelock(a) => MessageView {
                index: 31,
                body: Body::Text(a@),
            },
            Self::PowerManagerDelegateSetScreenEnabled(a, b) => MessageView {
                index: 32,
                body: Body::FlagFlag(*a, *b),
            },
            Self::PreferenceDelegateGetBool(a) => MessageView { index: 33, body: Body::Text(a@) },
            Self::PreferenceDelegateGetChar(a) => MessageView { index: 34, body: Body::Text(a@) },
            Self::PreferenceDelegateGetInt(a) => MessageView { index: 35, body: Body::Text(a@) },
            Self::PreferenceDelegateSetBool(a, b) => MessageView {
                index: 36,
                body: Body::TextFlag(a@, *b),
            },
            Self::PreferenceDelegateSetChar(a, b) => MessageView {
                index: 37,
                body: Body::TextText(a@, b@),
            },
            Self::PreferenceDelegateSetInt(a, b) => MessageView {
                index: 38,
                body: Body::TextInt(a@, *b),
            },
            Self::WakelockGetTopic => MessageView { index: 39, body: Body::Unit },
            Self::WakelockUnlock => MessageView { index: 40, body: Body::Unit },
        }
    }
}

impl GeckoBridgeToClient {
    /// The index of this variant in the schema.
    pub fn variant_index(&self) -> (index: u32)
        ensures
            index == self@.index,
            index < variant_count(Direction::ToClient),
    {
        match self {
            Self::GeckoFeaturesBoolPrefChangedSuccess => 0,
            Self::GeckoFeaturesBoolPrefChangedError => 1,
            Self::GeckoFeaturesCharPrefChangedSuccess => 2,
            Self::GeckoFeaturesCharPrefChangedError => 3,
            Self::GeckoFeaturesImportSimContactsSuccess => 4,
            Self::GeckoFeaturesImportSimContactsError => 5,
            Self::GeckoFeaturesIntPrefChangedSuccess => 6,
            Self::GeckoFeaturesIntPrefChangedError => 7,
            Self::GeckoFeaturesRegisterTokenSuccess => 8,
            Self::GeckoFeaturesRegisterTokenError => 9,
            Self::GeckoFeaturesSetAppsServiceDelegateSuccess => 10,
            Self::GeckoFeaturesSetAppsServiceDelegateError => 11,
            Self::GeckoFeaturesSetMobileManagerDelegateSuccess => 12,
            Self::GeckoFeaturesSetMobileManagerDelegateError => 13,
            Self::GeckoFeaturesSetNetworkManagerDelegateSuccess => 14,
            Self::GeckoFeaturesSetNetworkManagerDelegateError => 15,
            Self::GeckoFeaturesSetPowerManagerDelegateSuccess => 16,
            Self::GeckoFeaturesSetPowerManagerDelegateError => 17,
            Self::GeckoFeaturesSetPreferenceDelegateSuccess => 18,
            Self::GeckoFeaturesSetPreferenceDelegateError => 19,
            Self::AppsServiceDelegateGetUa => 20,
            Self::AppsServiceDelegateOnBoot(..) => 21,
            Self::AppsServiceDelegateOnBootDone => 22,
            Self::AppsServiceDelegateOnClear(..) => 23,
            Self::AppsServiceDelegateOnInstall(..) => 24,
            Self::AppsServiceDelegateOnLaunch(..) => 25,
            Self::AppsServiceDelegateOnUninstall(..) => 26,
            Self::AppsServiceDelegateOnUpdate(..) => 27,
            Self::MobileManagerDelegateGetCardInfo(..) => 28,
            Self::MobileManagerDelegateGetMncMcc(..) => 29,
            Self::NetworkManagerDelegateGetNetworkInfo => 30,
            Self::PowerManagerDelegateRequestWakelock(..) => 31,
            Self::PowerManagerDelegateSetScreenEnabled(..) => 32,
            Self::PreferenceDelegateGetBool(..) => 33,
            Self::PreferenceDelegateGetChar(..) => 34,
            Self::PreferenceDelegateGetInt(..) => 35,
            Self::PreferenceDelegateSetBool(..) => 36,
            Self::PreferenceDelegateSetChar(..) => 37,
            Self::PreferenceDelegateSetInt(..) => 38,
            Self::WakelockGetTopic => 39,
            Self::WakelockUnlock => 40,
        }
    }

    /// Encodes the message as a payload.
    pub fn encode(&self) -> (payload: Vec<u8>)
        ensures
            payload@ == payload_bytes(self@),
            well_formed(Direction::ToClient, self@),
    {
        match self {
            Self::GeckoFeaturesBoolPrefChangedSuccess => unit_payload(0),
            Self::GeckoFeaturesBoolPrefChangedError => unit_payload(1),
            Self::GeckoFeaturesCharPrefChangedSuccess => unit_payload(2),
            Self::GeckoFeaturesCharPrefChangedError => unit_payload(3),
            Self::GeckoFeaturesImportSimContactsSuccess => unit_payload(4),
            Self::GeckoFeaturesImportSimContactsError => unit_payload(5),
            Self::GeckoFeaturesIntPrefChangedSuccess => unit_payload(6),
            Self::GeckoFeaturesIntPrefChangedError => unit_payload(7),
            Self::GeckoFeaturesRegisterTokenSuccess => unit_payload(8),
            Self::GeckoFeaturesRegisterTokenError => unit_payload(9),
            Self::GeckoFeaturesSetAppsServiceDelegateSuccess => unit_payload(10),
            Self::GeckoFeaturesSetAppsServiceDelegateError => unit_payload(11),
            Self::GeckoFeaturesSetMobileManagerDelegateSuccess => unit_payload(12),
            Self::GeckoFeaturesSetMobileManagerDelegateError => unit_payload(13),
            Self::GeckoFeaturesSetNetworkManagerDelegateSuccess => unit_payload(14),
            Self::GeckoFeaturesSetNetworkManagerDelegateError => unit_payload(15),
            Self::GeckoFeaturesSetPowerManagerDelegateSuccess => unit_payload(16),
            Self::GeckoFeaturesSetPowerManagerDelegateError => unit_payload(17),
            Self::GeckoFeaturesSetPreferenceDelegateSuccess => unit_payload(18),
            Self::GeckoFeaturesSetPreferenceDelegateError => unit_payload(19),
            Self::AppsServiceDelegateGetUa => unit_payload(20),
            Self::AppsServiceDelegateOnBoot(a, b) => text_text_payload(
                21,
                a.as_str(),
                b.text.as_str(),
            ),
            Self::AppsServiceDelegateOnBootDone => unit_payload(22),
            Self::AppsServiceDelegateOnClear(a, b, c) => text_text_text_payload(
                23,
                a.as_str(),
                b.as_str(),
                c.text.as_str(),
            ),
            Self::AppsServiceDelegateOnInstall(a, b) => text_text_payload(
                24,
                a.as_str(),
                b.text.as_str(),
            ),
            Self::AppsServiceDelegateOnLaunch(a) => text_payload(25, a.as_str()),
            Self::AppsServiceDelegateOnUninstall(a) => text_payload(26, a.as_str()),
            Self::AppsServiceDelegateOnUpdate(a, b) => text_text_payload(
                27,
                a.as_str(),
                b.text.as_str(),
            ),
            Self::MobileManagerDelegateGetCardInfo(a, b) => int_card_payload(28, *a, *b),
            Self::MobileManagerDelegateGetMncMcc(a, b) => int_flag_payload(29, *a, *b),
            Self::NetworkManagerDelegateGetNetworkInfo => unit_payload(30),
            Self::PowerManagerDelegateRequestWakelock(a) => text_payload(31, a.as_str()),
            Self::PowerManagerDelegateSetScreenEnabled(a, b) => flag_flag_payload(32, *a, *b),
            Self::PreferenceDelegateGetBool(a) => text_payload(33, a.as_str()),
            Self::PreferenceDelegateGetChar(a) => text_payload(34, a.as_str()),
            Self::PreferenceDelegateGetInt(a) => text_payload(35, a.as_str()),
            Self::PreferenceDelegateSetBool(a, b) => text_flag_payload(36, a.as_str(), *b),
            Self::PreferenceDelegateSetChar(a, b) => text_text_payload(37, a.as_str(), b.as_str()),
            Self::PreferenceDelegateSetInt(a, b) => text_int_payload(38, a.as_str(), *b),
            Self::WakelockGetTopic => unit_payload(39),
            Self::WakelockUnlock => unit_payload(40),
        }
    }

    /// Decodes a payload. It succeeds on exactly the payloads that `encode`
    /// produces, and gives back the message that was encoded. An index beyond
    /// the schema is reported as unsupported; anything else that is no encoding
    /// of a message is malformed.
    pub fn decode(payload: &[u8]) -> (result: Result<Self, DecodeError>)
        ensures
            result matches Ok(message) ==> parse_payload(Direction::ToClient, payload@) == Ok::<
                MessageView,
                DecodeError,
            >(message@),
            result matches Err(e) ==> parse_payload(Direction::ToClient, payload@) == Err::<
                MessageView,
                DecodeError,
            >(e),
    {
        let mut reader = Reader::new(payload);
        let index = match reader.u32() {
            Some(index) => index,
            None => {
                return Err(DecodeError::Malformed);
            },
        };
        match index {
            0 => unit_body(reader, Self::GeckoFeaturesBoolPrefChangedSuccess),
            1 => unit_body(reader, Self::GeckoFeaturesBoolPrefChangedError),
            2 => unit_body(reader, Self::GeckoFeaturesCharPrefChangedSuccess),
            3 => unit_body(reader, Self::GeckoFeaturesCharPrefChangedError),
            4 => unit_body(reader, Self::GeckoFeaturesImportSimContactsSuccess),
            5 => unit_body(reader, Self::GeckoFeaturesImportSimContactsError),
            6 => unit_body(reader, Self::GeckoFeaturesIntPrefChangedSuccess),
            7 => unit_body(reader, Self::GeckoFeaturesIntPrefChangedError),
            8 => unit_body(reader, Self::GeckoFeaturesRegisterTokenSuccess),
            9 => unit_body(reader, Self::GeckoFeaturesRegisterTokenError),
            10 => unit_body(reader, Self::GeckoFeaturesSetAppsServiceDelegateSuccess),
            11 => unit_body(reader, Self::GeckoFeaturesSetAppsServiceDelegateError),
            12 => unit_body(reader, Self::GeckoFeaturesSetMobileManagerDelegateSuccess),
            13 => unit_body(reader, Self::GeckoFeaturesSetMobileManagerDelegateError),
            14 => unit_body(reader, Self::GeckoFeaturesSetNetworkManagerDelegateSuccess),
            15 => unit_body(reader, Self::GeckoFeaturesSetNetworkManagerDelegateError),
            16 => unit_body(reader, Self::GeckoFeaturesSetPowerManagerDelegateSuccess),
            17 => unit_body(reader, Self::GeckoFeaturesSetPowerManagerDelegateError),
            18 => unit_body(reader, Self::GeckoFeaturesSetPreferenceDelegateSuccess),
            19 => unit_body(reader, Self::GeckoFeaturesSetPreferenceDelegateError),
            20 => unit_body(reader, Self::AppsServiceDelegateGetUa),
            21 => match text_text_body(reader) {
                Some((a, b)) => Ok(Self::AppsServiceDelegateOnBoot(a, JsonValue { text: b })),
                None => Err(DecodeError::Malformed),
            },
            22 => unit_body(reader, Self::AppsServiceDelegateOnBootDone),
            23 => match text_text_text_body(reader) {
                Some((a, b, c)) => Ok(
                    Self::AppsServiceDelegateOnClear(a, b, JsonValue { text: c }),
                ),
                None => Err(DecodeError::Malformed),
            },
            24 => match text_text_body(reader) {
                Some((a, b)) => Ok(Self::AppsServiceDelegateOnInstall(a, JsonValue { text: b })),
                None => Err(DecodeError::Malformed),
            },
            25 => match text_body(reader) {
                Some(a) => Ok(Self::AppsServiceDelegateOnLaunch(a)),
                None => Err(DecodeError::Malformed),
            },
            26 => match text_body(reader) {
                Some(a) => Ok(Self::AppsServiceDelegateOnUninstall(a)),
                None => Err(DecodeError::Malformed),
            },
            27 => match text_text_body(reader) {
                Some((a, b)) => Ok(Self::AppsServiceDelegateOnUpdate(a, JsonValue { text: b })),
                None => Err(DecodeError::Malformed),
            },
            28 => match int_card_body(reader) {
                Some((a, b)) => Ok(Self::MobileManagerDelegateGetCardInfo(a, b)),
                None => Err(DecodeError::Malformed),
            },
            29 => match int_flag_body(reader) {
                Some((a, b)) => Ok(Self::MobileManagerDelegateGetMncMcc(a, b)),
                None => Err(DecodeError::Malformed),
            },
            30 => unit_body(reader, Self::NetworkManagerDelegateGetNetworkInfo),
            31 => match text_body(reader) {
                Some(a) => Ok(Self::PowerManagerDelegateRequestWakelock(a)),
                None => Err(DecodeError::Malformed),
            },
            32 => match flag_flag_body(reader) {
                Some((a, b)) => Ok(Self::PowerManagerDelegateSetScreenEnabled(a, b)),
                None => Err(DecodeError::Malformed),
            },
            33 => match text_body(reader) {
                Some(a) => Ok(Self::PreferenceDelegateGetBool(a)),
                None => Err(DecodeError::Malformed),
            },
            34 => match text_body(reader) {
                Some(a) => Ok(Self::PreferenceDelegateGetChar(a)),
                None => Err(DecodeError::Malformed),
            },
            35 => match text_body(reader) {
                Some(a) => Ok(Self::PreferenceDelegateGetInt(a)),
                None => Err(DecodeError::Malformed),
            },
            36 => match text_flag_body(reader) {
                Some((a, b)) => Ok(Self::PreferenceDelegateSetBool(a, b)),
                None => Err(DecodeError::Malformed),
            },
            37 => match text_text_body(reader) {
                Some((a, b)) => Ok(Self::PreferenceDelegateSetChar(a, b)),
                None => Err(DecodeError::Malformed),
            },
            38 => match text_int_body(reader) {
                Some((a, b)) => Ok(Self::PreferenceDelegateSetInt(a, b)),
                None => Err(DecodeError::Malformed),
            },
            39 => unit_body(reader, Self::WakelockGetTopic),
            40 => unit_body(reader, Self::WakelockUnlock),
            _ => Err(DecodeError::Unsupported(index)),
        }
    }
}

} // verus!
