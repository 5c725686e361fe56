//! Range checks on the values of a configuration.

use super::{MisterConfig, MisterConfigView};
use vstd::prelude::*;

verus! {

/// The field of a configuration whose value is out of range.
#[derive(Clone, Copy, Debug, PartialEq, Eq, Structural)]
pub enum ValidationError {
    /// `mouse_throttle` is out of range.
    MouseThrottle,
    /// `video_info` is out of range.
    VideoInfo,
    /// `controller_info` is out of range.
    ControllerInfo,
    /// `vscale_border` is out of range.
    VscaleBorder,
    /// `bootcore_timeout` is out of range.
    BootcoreTimeout,
    /// `osd_timeout` is out of range.
    OsdTimeout,
    /// `spinner_throttle` is out of range.
    SpinnerThrottle,
    /// `wheel_force` is out of range.
    WheelForce,
    /// `wheel_range` is out of range.
    WheelRange,
    /// `video_off` is out of range.
    VideoOff,
    /// `video_brightness` is out of range.
    VideoBrightness,
    /// `video_contrast` is out of range.
    VideoContrast,
    /// `video_saturation` is out of range.
    VideoSaturation,
    /// `video_hue` is out of range.
    VideoHue,
    /// `hdr_max_nits` is out of range.
    HdrMaxNits,
    /// `hdr_avg_nits` is out of range.
    HdrAvgNits,
}

impl ValidationError {
    /// What is wrong, in words.
    pub open spec fn spec_message(self) -> Seq<char> {
        match self {
            ValidationError::MouseThrottle => "mouse_throttle must be 100 or less."@,
            ValidationError::VideoInfo => "video_info must be between 1 and 10."@,
            ValidationError::ControllerInfo => "controller_info must be between 0 and 10."@,
            ValidationError::VscaleBorder => "vscale_border must be between 0 and 399."@,
            ValidationError::BootcoreTimeout => "bootcore_timeout must be 30 or less."@,
            ValidationError::OsdTimeout => "osd_timeout must be between 5 and 3600."@,
            ValidationError::SpinnerThrottle => "spinner_throttle must be between -10000 and 10000."@,
            ValidationError::WheelForce => "wheel_force must be between 0 and 100."@,
            ValidationError::WheelRange => "wheel_range must be between 0 and 1000."@,
            ValidationError::VideoOff => "video_off must be 3600 or less."@,
            ValidationError::VideoBrightness => "video_brightness must be between 0 and 100."@,
            ValidationError::VideoContrast => "video_contrast must be between 0 and 100."@,
            ValidationError::VideoSaturation => "video_saturation must be between 0 and 100."@,
            ValidationError::VideoHue => "video_hue must be between 0 and 360."@,
            ValidationError::HdrMaxNits => "hdr_max_nits must be between 100 and 10000."@,
            ValidationError::HdrAvgNits => "hdr_avg_nits must be between 100 and 10000."@,
        }
    }

    /// What is wrong, in words.
    pub fn message(&self) -> (r: &'static str)
        ensures
            r@ == self.spec_message(),
    {
        match self {
            ValidationError::MouseThrottle => "mouse_throttle must be 100 or less.",
            ValidationError::VideoInfo => "video_info must be between 1 and 10.",
            ValidationError::ControllerInfo => "controller_info must be between 0 and 10.",
            ValidationError::VscaleBorder => "vscale_border must be between 0 and 399.",
            ValidationError::BootcoreTimeout => "bootcore_timeout must be 30 or less.",
            ValidationError::OsdTimeout => "osd_timeout must be between 5 and 3600.",
            ValidationError::SpinnerThrottle => "spinner_throttle must be between -10000 and 10000.",
            ValidationError::WheelForce => "wheel_force must be between 0 and 100.",
            ValidationError::WheelRange => "wheel_range must be between 0 and 1000.",
            ValidationError::VideoOff => "video_off must be 3600 or less.",
            ValidationError::VideoBrightness => "video_brightness must be between 0 and 100.",
            ValidationError::VideoContrast => "video_contrast must be between 0 and 100.",
            ValidationError::VideoSaturation => "video_saturation must be between 0 and 100.",
            ValidationError::VideoHue => "video_hue must be between 0 and 360.",
            ValidationError::HdrMaxNits => "hdr_max_nits must be between 100 and 10000.",
            ValidationError::HdrAvgNits => "hdr_avg_nits must be between 100 and 10000.",
        }
    }
}

/// Seconds for which video information is shown: 1 to 10.
pub fn video_info(secs: u64) -> (r: Result<(), ValidationError>)
    ensures
        r.is_ok() <==> 1 <= secs && secs <= 10,
        r.is_err() ==> r == Err::<(), ValidationError>(ValidationError::VideoInfo),
{
    if secs > 10 || secs < 1 {
        Err(ValidationError::VideoInfo)
    } else {
        Ok(())
    }
}

/// Seconds for which a controller's button map is shown: at most 10.
pub fn controller_info(secs: u64) -> (r: Result<(), ValidationError>)
    ensures
        r.is_ok() <==> secs <= 10,
        r.is_err() ==> r == Err::<(), ValidationError>(ValidationError::ControllerInfo),
{
    if secs <= 10 {
        Ok(())
    } else {
        Err(ValidationError::ControllerInfo)
    }
}

/// Seconds before the boot core starts: at most 30.
pub fn bootcore_timeout(secs: u64) -> (r: Result<(), ValidationError>)
    ensures
        r.is_ok() <==> secs <= 30,
        r.is_err() ==> r == Err::<(), ValidationError>(ValidationError::BootcoreTimeout),
{
    if secs <= 30 {
        Ok(())
    } else {
        Err(ValidationError::BootcoreTimeout)
    }
}

/// Seconds after which the overlay disappears: 5 to 3600.
pub fn osd_timeout(secs: u64) -> (r: Result<(), ValidationError>)
    ensures
        r.is_ok() <==> 5 <= secs && secs <= 3600,
        r.is_err() ==> r == Err::<(), ValidationError>(ValidationError::OsdTimeout),
{
    if secs > 3600 || secs < 5 {
        Err(ValidationError::OsdTimeout)
    } else {
        Ok(())
    }
}

/// Seconds after which the picture is blanked: at most 3600.
pub fn video_off(secs: u64) -> (r: Result<(), ValidationError>)
    ensures
        r.is_ok() <==> secs <= 3600,
        r.is_err() ==> r == Err::<(), ValidationError>(ValidationError::VideoOff),
{
    if secs <= 3600 {
        Ok(())
    } else {
        Err(ValidationError::VideoOff)
    }
}

impl MisterConfigView {
    /// The first field, in the order of the record, whose value is out of
    /// range; `None` where every value is in range. An unset field is in
    /// range.
    pub open spec fn spec_validate(self) -> Option<ValidationError> {
        if !(self.mouse_throttle.is_none() || (self.mouse_throttle.unwrap() <= 100)) {
            Some(ValidationError::MouseThrottle)
        } else if !(self.video_info.is_none() || (1 <= self.video_info.unwrap() && self.video_info.unwrap() <= 10)) {
            Some(ValidationError::VideoInfo)
        } else if !(self.controller_info.is_none() || (self.controller_info.unwrap() <= 10)) {
            Some(ValidationError::ControllerInfo)
        } else if !(self.vscale_border.is_none() || (self.vscale_border.unwrap() <= 399)) {
            Some(ValidationError::VscaleBorder)
        } else if !(self.bootcore_timeout.is_none() || (self.bootcore_timeout.unwrap() <= 30)) {
            Some(ValidationError::BootcoreTimeout)
        } else if !(self.osd_timeout.is_none() || (5 <= self.osd_timeout.unwrap() && self.osd_timeout.unwrap() <= 3600)) {
            Some(ValidationError::OsdTimeout)
        } else if !(self.spinner_throttle.is_none() || (-10000 <= self.spinner_throttle.unwrap() && self.spinner_throttle.unwrap() <= 10000)) {
            Some(ValidationError::SpinnerThrottle)
        } else if !(self.wheel_force.is_none() || (self.wheel_force.unwrap() <= 100)) {
            Some(ValidationError::WheelForce)
        } else if !(self.wheel_range.is_none() || (self.wheel_range.unwrap() <= 1000)) {
            Some(ValidationError::WheelRange)
        } else if !(self.video_off.is_none() || (self.video_off.unwrap() <= 3600)) {
            Some(ValidationError::VideoOff)
        } else if !(self.video_brightness.is_none() || (self.video_brightness.unwrap() <= 100)) {
            Some(ValidationError::VideoBrightness)
        } else if !(self.video_contrast.is_none() || (self.video_contrast.unwrap() <= 100)) {
            Some(ValidationError::VideoContrast)
        } else if !(self.video_saturation.is_none() || (self.video_saturation.unwrap() <= 100)) {
            Some(ValidationError::VideoSaturation)
        } else if !(self.video_hue.is_none() || (self.video_hue.unwrap() <= 360)) {
            Some(ValidationError::VideoHue)
        } else if !(self.hdr_max_nits.is_none() || (100 <= self.hdr_max_nits.unwrap() && self.hdr_max_nits.unwrap() <= 10000)) {
            Some(ValidationError::HdrMaxNits)
        } else if !(self.hdr_avg_nits.is_none() || (100 <= self.hdr_avg_nits.unwrap() && self.hdr_avg_nits.unwrap() <= 10000)) {
            Some(ValidationError::HdrAvgNits)
        } else {
            None
        }
    }
}

impl MisterConfig {
    /// Checks every value against its range. The error names the first
    /// field, in the order of the record, that is out of range.
    pub fn validate(&self) -> (r: Result<(), ValidationError>)
        ensures
            match r {
                Ok(_) => self@.spec_validate().is_none(),
                Err(e) => self@.spec_validate() == Some(e),
            },
    {
        if let Some(v) = self.mouse_throttle {
            if !(v <= 100) {
                return Err(ValidationError::MouseThrottle);
            }
        }
        if let Some(v) = self.video_info {
            if !(1 <= v && v <= 10) {
                return Err(ValidationError::VideoInfo);
            }
        }
        if let Some(v) = self.controller_info {
            if !(v <= 10) {
                return Err(ValidationError::ControllerInfo);
            }
        }
        if let Some(v) = self.vscale_border {
            if !(v <= 399) {
                return Err(ValidationError::VscaleBorder);
            }
        }
        if let Some(v) = self.bootcore_timeout {
            if !(v <= 30) {
                return Err(ValidationError::BootcoreTimeout);
            }
        }
        if let Some(v) = self.osd_timeout {
            if !(5 <= v && v <= 3600) {
                return Err(ValidationError::OsdTimeout);
            }
        }
        if let Some(v) = self.spinner_throttle {
            if !(-10000 <= v && v <= 10000) {
                return Err(ValidationError::SpinnerThrottle);
            }
        }
        if let Some(v) = self.wheel_force {
            if !(v <= 100) {
                return Err(ValidationError::WheelForce);
            }
        }
        if let Some(v) = self.wheel_range {
            if !(v <= 1000) {
                return Err(ValidationError::WheelRange);
            }
        }
        if let Some(v) = self.video_off {
            if !(v <= 3600) {
                return Err(ValidationError::VideoOff);
            }
        }
        if let Some(v) = self.video_brightness {
            if !(v <= 100) {
                return Err(ValidationError::VideoBrightness);
            }
        }
        if let Some(v) = self.video_contrast {
            if !(v <= 100) {
                return Err(ValidationError::VideoContrast);
            }
        }
        if let Some(v) = self.video_saturation {
            if !(v <= 100) {
                return Err(ValidationError::VideoSaturation);
            }
        }
        if let Some(v) = self.video_hue {
            if !(v <= 360) {
                return Err(ValidationError::VideoHue);
            }
        }
        if let Some(v) = self.hdr_max_nits {
            if !(100 <= v && v <= 10000) {
                return Err(ValidationError::HdrMaxNits);
            }
        }
        if let Some(v) = self.hdr_avg_nits {
            if !(100 <= v && v <= 10000) {
                return Err(ValidationError::HdrAvgNits);
            }
        }
        Ok(())
    }
}

} // verus!
