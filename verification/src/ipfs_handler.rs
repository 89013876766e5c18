//! The protocol handler of `ipfs://` and `ipns://`: such an address is loaded
//! from an HTTP gateway, under a host name that keeps its origin apart.
//!
//! `ipfs://<cid>/<path>` becomes `https://<cid in base 32>.ipfs.<gateway>/<path>`,
//! and `ipns://<name>/<path>` becomes `https://<name>.ipns.<gateway>/<path>`
//! with every dot of the name turned into a dash.

use crate::errors::NsError;
use crate::prefs::{get_char_pref, pref_value, PrefLookup, PrefLookupView};
use vstd::prelude::*;
use vstd::string::*;

verus! {

/// The preference that names the gateway.
pub const GATEWAY_PREF: &'static str = "ips.gateway";

/// The gateway where the preference names none.
pub const DEFAULT_GATEWAY_DOMAIN: &'static str = "dweb.link";

/// The error of the `cid` crate.
#[verifier::external_type_specification]
#[verifier::external_body]
pub struct ExCidError(cid::Error);

/// The binary form of the content identifier that a text spells, if it spells
/// one: what `Cid::try_from` makes of the text, as `Cid::to_bytes` writes it.
pub uninterp spec fn cid_binary(text: Seq<char>) -> Option<Seq<u8>>;

/// The text that `multibase::encode` gives for the bytes in lower-case base
/// 32.
pub uninterp spec fn multibase_base32_lower(bytes: Seq<u8>) -> Seq<char>;

/// `Cid::try_from` on a text, and `Cid::to_bytes` on the identifier that it
/// gives. The two depend on the text alone, so the bytes, or the absence of
/// an identifier, are named after the text; nothing else is claimed of them.
#[verifier::external_body]
fn cid_bytes(text: &str) -> (result: Result<Vec<u8>, cid::Error>)
    ensures
        result matches Ok(bytes) ==> cid_binary(text@) == Some(bytes@),
        result is Err ==> cid_binary(text@) is None,
{
    match cid::Cid::try_from(text) {
        Ok(cid) => Ok(cid.to_bytes()),
        Err(e) => Err(e),
    }
}

/// `multibase::encode` with the base `Base32Lower`. The text depends on the
/// bytes alone and is named after them; nothing else is claimed of it.
#[verifier::external_body]
fn base32_lower(bytes: &[u8]) -> (text: String)
    ensures
        text@ == multibase_base32_lower(bytes@),
{
    cid::multibase::encode(cid::multibase::Base::Base32Lower, bytes)
}

/// A text with every occurrence of a character replaced by another text.
pub open spec fn replaced(text: Seq<char>, from: char, to: Seq<char>) -> Seq<char>
    decreases text.len(),
{
    if text.len() == 0 {
        text
    } else {
        replaced(text.drop_last(), from, to) + if text.last() == from {
            to
        } else {
            seq![text.last()]
        }
    }
}

/// `str::replace` with a character as the pattern: every occurrence of the
/// character gives way to the replacement, and the rest of the text stays.
#[verifier::external_body]
fn replace_char(text: &str, from: char, to: &str) -> (result: String)
    ensures
        result@ == replaced(text@, from, to@),
{
    text.replace(from, to)
}

/// Which of the two protocols a handler serves.
#[derive(Clone, Copy, Debug, PartialEq, Eq, Structural)]
pub enum Protocol {
    Ipfs,
    Ipns,
}

impl Protocol {
    /// The scheme of the protocol.
    pub open spec fn scheme(self) -> Seq<char> {
        match self {
            Protocol::Ipfs => "ipfs"@,
            Protocol::Ipns => "ipns"@,
        }
    }

    /// The scheme of the protocol.
    pub fn as_nscstring(&self) -> (scheme: String)
        ensures
            scheme@ == self.scheme(),
    {
        match self {
            Protocol::Ipfs => "ipfs".to_owned(),
            Protocol::Ipns => "ipns".to_owned(),
        }
    }
}

/// What a handler allows of the addresses of its scheme.
#[derive(Clone, Copy, Debug, PartialEq, Eq, Structural)]
pub enum ProtocolFlag {
    UriNoauth,
    UriLoadableByAnyone,
    UriIsPotentiallyTrustworthy,
    UriFetchableByAnyone,
    UriLoadableByExtensions,
}

/// The host name under which the gateway serves a host of the protocol, if
/// there is one: the content identifier in base 32, or the name with dashes
/// for dots. A host of `ipfs://` that spells no content identifier has none.
pub open spec fn safe_host(protocol: Protocol, host: Seq<char>) -> Option<Seq<char>> {
    match protocol {
        Protocol::Ipfs => match cid_binary(host) {
            Some(bytes) => Some(multibase_base32_lower(bytes)),
            None => None,
        },
        Protocol::Ipns => Some(replaced(host, '.', "-"@)),
    }
}

/// The address at the gateway.
pub open spec fn gateway_url(
    safe_host: Seq<char>,
    scheme: Seq<char>,
    gateway_domain: Seq<char>,
    path_query: Seq<char>,
) -> Seq<char> {
    "https://"@ + safe_host + "."@ + scheme + "."@ + gateway_domain + path_query
}

/// The handler of one of the two protocols.
#[derive(Debug, PartialEq, Eq)]
pub struct IpfsHandler {
    protocol: Protocol,
    gateway_domain: String,
}

/// A handler as values.
pub struct HandlerView {
    pub protocol: Protocol,
    pub gateway_domain: Seq<char>,
}

impl View for IpfsHandler {
    type V = HandlerView;

    closed spec fn view(&self) -> HandlerView {
        HandlerView { protocol: self.protocol, gateway_domain: self.gateway_domain@ }
    }
}

/// The handler of a protocol after the lookup of the gateway preference: the
/// gateway is the one that the preference names, or the default one.
pub open spec fn configured(protocol: Protocol, lookup: PrefLookupView) -> HandlerView {
    HandlerView {
        protocol,
        gateway_domain: match pref_value(GATEWAY_PREF@, DEFAULT_GATEWAY_DOMAIN@, lookup) {
            Ok(v) => v,
            Err(_) => DEFAULT_GATEWAY_DOMAIN@,
        },
    }
}

/// The address at the gateway, given the host name under which the gateway
/// serves the host.
pub fn gateway_address(
    safe_host: &str,
    scheme: &str,
    gateway_domain: &str,
    path_query: &str,
) -> (url: String)
    ensures
        url@ == gateway_url(safe_host@, scheme@, gateway_domain@, path_query@),
{
    let mut url = "https://".to_owned();
    url.append(safe_host);
    url.append(".");
    url.append(scheme);
    url.append(".");
    url.append(gateway_domain);
    url.append(path_query);
    url
}

impl IpfsHandler {
    /// The handler of `protocol`, with the gateway that the preference names,
    /// or the default one.
    pub fn new(protocol: Protocol, lookup: PrefLookup) -> (handler: Self)
        ensures
            handler@ == configured(protocol, lookup@),
    {
        IpfsHandler {
            gateway_domain: get_char_pref(GATEWAY_PREF, DEFAULT_GATEWAY_DOMAIN, lookup),
            protocol,
        }
    }

    /// The port of the protocol: it has none.
    pub fn get_default_port(&self) -> (port: i32)
        ensures
            port == -1,
    {
        -1
    }

    /// Whether a port that is blocked by default may be used: never.
    pub fn allow_port(&self, _port: i32, _scheme: &str) -> (allowed: bool)
        ensures
            !allowed,
    {
        false
    }

    /// What the handler allows of its addresses.
    pub fn get_protocol_flags(&self) -> (flags: Vec<ProtocolFlag>)
        ensures
            flags@ == seq![
                ProtocolFlag::UriNoauth,
                ProtocolFlag::UriLoadableByAnyone,
                ProtocolFlag::UriIsPotentiallyTrustworthy,
                ProtocolFlag::UriFetchableByAnyone,
                ProtocolFlag::UriLoadableByExtensions,
            ],
    {
        let mut flags = Vec::new();
        flags.push(ProtocolFlag::UriNoauth);
        flags.push(ProtocolFlag::UriLoadableByAnyone);
        flags.push(ProtocolFlag::UriIsPotentiallyTrustworthy);
        flags.push(ProtocolFlag::UriFetchableByAnyone);
        flags.push(ProtocolFlag::UriLoadableByExtensions);
        flags
    }

    /// The scheme that the handler serves.
    pub fn get_scheme(&self) -> (scheme: String)
        ensures
            scheme@ == self@.protocol.scheme(),
    {
        self.protocol.as_nscstring()
    }

    /// The address at the gateway from which the address with the given host
    /// and path is loaded. It fails for a host of `ipfs://` that spells no
    /// content identifier, and for no other.
    pub fn new_channel(&self, host: &str, path_query: &str) -> (result: Result<String, NsError>)
        ensures
            safe_host(self@.protocol, host@) matches Some(safe) ==> result matches Ok(url) && url@
                == gateway_url(
                safe,
                self@.protocol.scheme(),
                self@.gateway_domain,
                path_query@,
            ),
            safe_host(self@.protocol, host@) is None ==> result == Err::<String, NsError>(
                NsError::Failure,
            ),
    {
        let scheme = self.protocol.as_nscstring();
        let safe_host = match self.protocol {
            Protocol::Ipfs => match cid_bytes(host) {
                Ok(bytes) => base32_lower(bytes.as_slice()),
                Err(_) => {
                    return Err(NsError::Failure);
                },
            },
            Protocol::Ipns => replace_char(host, '.', "-"),
        };
        Ok(
            gateway_address(
                safe_host.as_str(),
                scheme.as_str(),
                self.gateway_domain.as_str(),
                path_query,
            ),
        )
    }
}

/// The handler of `ipfs://`.
pub fn ipfs_construct(lookup: PrefLookup) -> (handler: IpfsHandler)
    ensures
        handler@ == configured(Protocol::Ipfs, lookup@),
{
    IpfsHandler::new(Protocol::Ipfs, lookup)
}

/// The handler of `ipns://`.
pub fn ipns_construct(lookup: PrefLookup) -> (handler: IpfsHandler)
    ensures
        handler@ == configured(Protocol::Ipns, lookup@),
{
    IpfsHandler::new(Protocol::Ipns, lookup)
}

} // verus!
