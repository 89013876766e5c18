//! Text preferences with a default.
//!
//! The preference service is the caller's. It reports how far its lookup got;
//! what the value of the preference is then taken to be is decided here.

use crate::errors::NsError;
use vstd::prelude::*;
use vstd::utf8::*;

verus! {

/// How far the lookup of a preference got.
#[derive(Debug, PartialEq, Eq)]
pub enum PrefLookup {
    /// There is no preference service.
    NoService,
    /// The service gave no branch to read from.
    NoBranch(NsError),
    /// The branch holds no text under the name.
    NoValue,
    /// The branch holds this text under the name.
    Value(String),
}

/// A lookup as values.
pub enum PrefLookupView {
    NoService,
    NoBranch(NsError),
    NoValue,
    Value(Seq<char>),
}

impl View for PrefLookup {
    type V = PrefLookupView;

    open spec fn view(&self) -> PrefLookupView {
        match self {
            PrefLookup::NoService => PrefLookupView::NoService,
            PrefLookup::NoBranch(e) => PrefLookupView::NoBranch(*e),
            PrefLookup::NoValue => PrefLookupView::NoValue,
            PrefLookup::Value(v) => PrefLookupView::Value(v@),
        }
    }
}

/// Whether a name holds a zero byte. Such a name cannot be handed to the
/// preference service.
pub open spec fn has_nul(name: Seq<char>) -> bool {
    encode_utf8(name).contains(0u8)
}

/// The value of a preference, or why it has none. Without a preference
/// service the default stands; without a branch the lookup fails with the
/// branch's error; a name with a zero byte fails; a name without a value has
/// the default.
pub open spec fn pref_value(
    name: Seq<char>,
    default_value: Seq<char>,
    lookup: PrefLookupView,
) -> Result<Seq<char>, NsError> {
    match lookup {
        PrefLookupView::NoService => Ok(default_value),
        PrefLookupView::NoBranch(e) => Err(e),
        PrefLookupView::NoValue => if has_nul(name) {
            Err(NsError::Failure)
        } else {
            Ok(default_value)
        },
        PrefLookupView::Value(v) => if has_nul(name) {
            Err(NsError::Failure)
        } else {
            Ok(v)
        },
    }
}

/// Whether the name holds a zero byte.
pub fn name_has_nul(name: &str) -> (found: bool)
    ensures
        found == has_nul(name@),
{
    let bytes = name.as_bytes();
    let mut i: usize = 0;
    while i < bytes.len()
        invariant
            i <= bytes.len(),
            bytes@ == encode_utf8(name@),
            forall|j: int| 0 <= j < i ==> bytes@[j] != 0,
        decreases bytes.len() - i,
    {
        if bytes[i] == 0 {
            return true;
        }
        i = i + 1;
    }
    false
}

/// The value of a text preference, or why it has none.
pub fn fallible_get_char_pref(name: &str, default_value: &str, lookup: PrefLookup) -> (result:
    Result<String, NsError>)
    ensures
        pref_value(name@, default_value@, lookup@) matches Ok(v) ==> result matches Ok(s) && s@
            == v,
        pref_value(name@, default_value@, lookup@) matches Err(e) ==> result matches Err(x) && x
            == e,
{
    match lookup {
        PrefLookup::NoService => Ok(default_value.to_owned()),
        PrefLookup::NoBranch(e) => Err(e),
        PrefLookup::NoValue => {
            if name_has_nul(name) {
                Err(NsError::Failure)
            } else {
                Ok(default_value.to_owned())
            }
        },
        PrefLookup::Value(v) => {
            if name_has_nul(name) {
                Err(NsError::Failure)
            } else {
                Ok(v)
            }
        },
    }
}

/// The value of a text preference, with the default wherever the lookup
/// failed.
pub fn get_char_pref(name: &str, default_value: &str, lookup: PrefLookup) -> (value: String)
    ensures
        value@ == match pref_value(name@, default_value@, lookup@) {
            Ok(v) => v,
            Err(_) => default_value@,
        },
{
    match fallible_get_char_pref(name, default_value, lookup) {
        Ok(value) => value,
        Err(_) => default_value.to_owned(),
    }
}

} // verus!
