use vstd::prelude::*;
use crate::device::{CODE_NOT_INITIALIZED, CODE_OK, DeviceError};
use crate::text::text_view;

verus! {

/// One successful read of the device: an opaque template and its quality.
pub struct CaptureSample {
    pub template: String,
    pub quality: i32,
}

pub struct SampleView {
    pub template: Seq<char>,
    pub quality: i32,
}

impl View for CaptureSample {
    type V = SampleView;

    open spec fn view(&self) -> SampleView {
        SampleView { template: self.template@, quality: self.quality }
    }
}

/// The device's reply to one capture, read.
pub enum CaptureStatus {
    Captured(CaptureSample),
    /// The device was not initialized: terminate, settle, initialize, capture once more.
    Reinitialize,
    Failed(DeviceError),
}

pub enum CaptureStatusView {
    Captured(SampleView),
    Reinitialize,
    Failed(DeviceError),
}

impl View for CaptureStatus {
    type V = CaptureStatusView;

    open spec fn view(&self) -> CaptureStatusView {
        match self {
            CaptureStatus::Captured(s) => CaptureStatusView::Captured(s@),
            CaptureStatus::Reinitialize => CaptureStatusView::Reinitialize,
            CaptureStatus::Failed(e) => CaptureStatusView::Failed(*e),
        }
    }
}

/// What a capture that returned `code`, `template` and `quality` amounts to;
/// `retried` tells whether the device was already reinitialized for it.
pub open spec fn capture_status(
    code: i32,
    template: Option<Seq<char>>,
    quality: i32,
    retried: bool,
) -> CaptureStatusView {
    if code == CODE_OK {
        match template {
            Some(t) => CaptureStatusView::Captured(SampleView { template: t, quality }),
            None => CaptureStatusView::Failed(DeviceError::CaptureEmptyResult),
        }
    } else if code == CODE_NOT_INITIALIZED {
        if retried {
            CaptureStatusView::Failed(DeviceError::DeviceBusyOrNotInitialized)
        } else {
            CaptureStatusView::Reinitialize
        }
    } else {
        CaptureStatusView::Failed(DeviceError::GenericDeviceError(code))
    }
}

/// Reads the device's reply to a capture. A missing template on a success
/// code is an error of its own; "not initialized" asks for one reinitialization,
/// and is fatal when it comes again after it.
pub fn capture_with_sdk(code: i32, template: Option<String>, quality: i32, retried: bool) -> (r:
    CaptureStatus)
    ensures
        r@ == capture_status(code, text_view(template), quality, retried),
{
    if code == CODE_OK {
        match template {
            Some(t) => CaptureStatus::Captured(CaptureSample { template: t, quality }),
            None => CaptureStatus::Failed(DeviceError::CaptureEmptyResult),
        }
    } else if code == CODE_NOT_INITIALIZED {
        if retried {
            CaptureStatus::Failed(DeviceError::DeviceBusyOrNotInitialized)
        } else {
            CaptureStatus::Reinitialize
        }
    } else {
        CaptureStatus::Failed(DeviceError::GenericDeviceError(code))
    }
}

/// The better of the best sample so far and a new one: the new one only when
/// its quality is strictly higher, so that of equal ones the first is kept.
pub open spec fn better_sample(best: Option<SampleView>, next: SampleView) -> SampleView {
    match best {
        Some(b) => if next.quality > b.quality {
            next
        } else {
            b
        },
        None => next,
    }
}

pub fn keep_better_sample(best: Option<CaptureSample>, next: CaptureSample) -> (r: CaptureSample)
    ensures
        r@ == better_sample(match best {
            Some(b) => Some(b@),
            None => None,
        }, next@),
{
    match best {
        Some(b) => if next.quality > b.quality {
            next
        } else {
            b
        },
        None => next,
    }
}

} // verus!
