//! The flashlight of the device, as the hardware daemon offers it.
//!
//! The daemon is the caller's. What is decided here is whether it is asked at
//! all, what it is asked, and what is reported where it is not.

use crate::errors::NsError;
use crate::prefs::{get_char_pref, pref_value, PrefLookup, PrefLookupView};
use vstd::prelude::*;

verus! {

/// The preference that names the directory of the flashlight.
pub const FLASHLIGHT_PATH_PREF: &'static str = "hal.linux.flashlight.path";

/// The directory of the flashlight where the preference names none.
pub const DEFAULT_FLASHLIGHT_PATH: &'static str = "/sys/class/leds/white:flash/";

/// What the daemon is asked.
#[derive(Clone, Copy, Debug, PartialEq, Eq, Structural)]
pub enum FlashlightRequest {
    Enable,
    Disable,
    IsSupported,
    State,
}

/// The flashlight: the directory that drives it, and whether the daemon is
/// reachable.
#[derive(Debug, PartialEq, Eq)]
pub struct B2gLinuxHal {
    flashlight_path: String,
    connected: bool,
}

/// The flashlight as values.
pub struct HalView {
    pub flashlight_path: Seq<char>,
    pub connected: bool,
}

impl View for B2gLinuxHal {
    type V = HalView;

    closed spec fn view(&self) -> HalView {
        HalView { flashlight_path: self.flashlight_path@, connected: self.connected }
    }
}

/// What becomes of a command to the flashlight: without a configured
/// flashlight it is refused; without the daemon it fails; else the daemon is
/// asked.
pub open spec fn command_outcome(hal: HalView) -> Result<(), NsError> {
    if hal.flashlight_path.len() == 0 {
        Err(NsError::InvalidArg)
    } else if !hal.connected {
        Err(NsError::Failure)
    } else {
        Ok(())
    }
}

/// What becomes of a question about the flashlight: without a configured
/// flashlight the answer is no, and nobody is asked; without the daemon the
/// question fails; else the daemon is asked.
pub open spec fn query_outcome(hal: HalView) -> Result<bool, NsError> {
    if hal.flashlight_path.len() == 0 {
        Ok(false)
    } else if !hal.connected {
        Err(NsError::Failure)
    } else {
        Ok(true)
    }
}

/// The flashlight after the lookup of its preference: its directory is the
/// one that the preference names, or the default one.
pub open spec fn configured(lookup: PrefLookupView, connected: bool) -> HalView {
    HalView {
        flashlight_path: match pref_value(FLASHLIGHT_PATH_PREF@, DEFAULT_FLASHLIGHT_PATH@, lookup) {
            Ok(v) => v,
            Err(_) => DEFAULT_FLASHLIGHT_PATH@,
        },
        connected,
    }
}

impl B2gLinuxHal {
    /// The flashlight at the directory that the preference names, or at the
    /// default one.
    pub fn new(lookup: PrefLookup, connected: bool) -> (hal: Self)
        ensures
            hal@ == configured(lookup@, connected),
    {
        let flashlight_path = get_char_pref(FLASHLIGHT_PATH_PREF, DEFAULT_FLASHLIGHT_PATH, lookup);
        B2gLinuxHal { flashlight_path, connected }
    }

    /// The directory of the flashlight.
    pub fn flashlight_path(&self) -> (path: &str)
        ensures
            path@ == self@.flashlight_path,
    {
        self.flashlight_path.as_str()
    }

    /// What to ask the daemon in order to carry out a command.
    fn command(&self, request: FlashlightRequest) -> (result: Result<FlashlightRequest, NsError>)
        ensures
            command_outcome(self@) is Ok ==> result == Ok::<FlashlightRequest, NsError>(request),
            command_outcome(self@) matches Err(e) ==> result == Err::<FlashlightRequest, NsError>(
                e,
            ),
    {
        if self.flashlight_path.as_str().is_empty() {
            return Err(NsError::InvalidArg);
        }
        if !self.connected {
            return Err(NsError::Failure);
        }
        Ok(request)
    }

    /// What to ask the daemon in order to answer a question, if anything.
    fn query(&self, request: FlashlightRequest) -> (result: Result<
        Option<FlashlightRequest>,
        NsError,
    >)
        ensures
            query_outcome(self@) == Ok::<bool, NsError>(true) ==> result == Ok::<
                Option<FlashlightRequest>,
                NsError,
            >(Some(request)),
            query_outcome(self@) == Ok::<bool, NsError>(false) ==> result == Ok::<
                Option<FlashlightRequest>,
                NsError,
            >(None),
            query_outcome(self@) matches Err(e) ==> result == Err::<
                Option<FlashlightRequest>,
                NsError,
            >(e),
    {
        if self.flashlight_path.as_str().is_empty() {
            return Ok(None);
        }
        if !self.connected {
            return Err(NsError::Failure);
        }
        Ok(Some(request))
    }

    /// Switches the flashlight on: the request for the daemon, or why there
    /// is none.
    pub fn enable_flashlight(&self) -> (result: Result<FlashlightRequest, NsError>)
        ensures
            command_outcome(self@) is Ok ==> result == Ok::<FlashlightRequest, NsError>(
                FlashlightRequest::Enable,
            ),
            command_outcome(self@) matches Err(e) ==> result == Err::<FlashlightRequest, NsError>(
                e,
            ),
    {
        self.command(FlashlightRequest::Enable)
    }

    /// Switches the flashlight off: the request for the daemon, or why there
    /// is none.
    pub fn disable_flashlight(&self) -> (result: Result<FlashlightRequest, NsError>)
        ensures
            command_outcome(self@) is Ok ==> result == Ok::<FlashlightRequest, NsError>(
                FlashlightRequest::Disable,
            ),
            command_outcome(self@) matches Err(e) ==> result == Err::<FlashlightRequest, NsError>(
                e,
            ),
    {
        self.command(FlashlightRequest::Disable)
    }

    /// Whether the device has a flashlight: the request for the daemon, or
    /// none where the answer is no without asking.
    pub fn is_flashlight_supported(&self) -> (result: Result<Option<FlashlightRequest>, NsError>)
        ensures
            query_outcome(self@) == Ok::<bool, NsError>(true) ==> result == Ok::<
                Option<FlashlightRequest>,
                NsError,
            >(Some(FlashlightRequest::IsSupported)),
            query_outcome(self@) == Ok::<bool, NsError>(false) ==> result == Ok::<
                Option<FlashlightRequest>,
                NsError,
            >(None),
            query_outcome(self@) matches Err(e) ==> result == Err::<
                Option<FlashlightRequest>,
                NsError,
            >(e),
    {
        self.query(FlashlightRequest::IsSupported)
    }

    /// Whether the flashlight is on: the request for the daemon, or none
    /// where the answer is no without asking.
    pub fn flashlight_state(&self) -> (result: Result<Option<FlashlightRequest>, NsError>)
        ensures
            query_outcome(self@) == Ok::<bool, NsError>(true) ==> result == Ok::<
                Option<FlashlightRequest>,
                NsError,
            >(Some(FlashlightRequest::State)),
            query_outcome(self@) == Ok::<bool, NsError>(false) ==> result == Ok::<
                Option<FlashlightRequest>,
                NsError,
            >(None),
            query_outcome(self@) matches Err(e) ==> result == Err::<
                Option<FlashlightRequest>,
                NsError,
            >(e),
    {
        self.query(FlashlightRequest::State)
    }
}

/// The flashlight of the device.
pub fn b2glinuxhal_construct(lookup: PrefLookup, connected: bool) -> (hal: B2gLinuxHal)
    ensures
        hal@ == configured(lookup@, connected),
{
    B2gLinuxHal::new(lookup, connected)
}

} // verus!
