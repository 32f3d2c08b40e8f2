//! The failure categories of the inspection workflow and what is shown for each.

use vstd::prelude::*;

verus! {

/// Why a stage of the workflow could not complete.
#[derive(Debug, Clone, Copy, PartialEq, Eq, Structural)]
pub enum InspectionError {
    /// The scanned code matches neither accepted encoding.
    MalformedCode,
    /// No backend reported any capture device.
    NoDeviceFound,
    /// Every candidate device refused to open.
    AllDevicesFailed,
    /// The frame attempts were used up without a frame.
    FrameCaptureFailed,
    /// The raw frame could not be turned into RGB.
    DecodeFailed,
    /// The RGB buffer could not be written as JPEG.
    EncodeFailed,
    /// No camera application could be launched; the operator must supply a file.
    ManualCaptureRequired,
    /// The remote pipeline did not answer with success.
    PipelineUnavailable,
    /// Credentials or token were not accepted.
    AuthFailed,
    /// The durable store refused a write or a read.
    PersistenceError,
    /// The stage asked for has already been completed for this session.
    StageAlreadyComplete,
    /// Another acquisition currently holds the camera.
    DeviceBusy,
}

impl InspectionError {
    /// Whether the failure comes from the camera ladder, whose messages list remedies.
    pub open spec fn is_camera_failure(self) -> bool {
        self is NoDeviceFound || self is AllDevicesFailed || self is FrameCaptureFailed
            || self is DecodeFailed || self is EncodeFailed || self is ManualCaptureRequired
            || self is DeviceBusy
    }

    /// The first line shown to the operator.
    pub open spec fn headline(self) -> Seq<char> {
        match self {
            InspectionError::MalformedCode => "The scanned code is not in a recognised format."@,
            InspectionError::NoDeviceFound => "No camera was found."@,
            InspectionError::AllDevicesFailed => "None of the cameras could be opened."@,
            InspectionError::FrameCaptureFailed => "The camera did not deliver a frame."@,
            InspectionError::DecodeFailed => "The captured frame could not be decoded."@,
            InspectionError::EncodeFailed => "The captured image could not be encoded as JPEG."@,
            InspectionError::ManualCaptureRequired =>
                "No camera application could be started; please select an image file."@,
            InspectionError::PipelineUnavailable => "The inspection pipeline is unavailable."@,
            InspectionError::AuthFailed => "The credentials were not accepted."@,
            InspectionError::PersistenceError => "The record could not be stored."@,
            InspectionError::StageAlreadyComplete =>
                "This stage has already been completed for the session."@,
            InspectionError::DeviceBusy => "The camera is in use by another capture."@,
        }
    }

    /// The remedies appended to every camera failure.
    pub open spec fn remedies() -> Seq<char> {
        "\n\nPlease check:\n1. the application is permitted to use the camera\n2. the camera cable is firmly connected\n3. no other application is using the camera"@
    }

    /// The complete text shown for this failure.
    pub open spec fn message_text(self) -> Seq<char> {
        if self.is_camera_failure() {
            self.headline() + Self::remedies()
        } else {
            self.headline()
        }
    }

    fn headline_str(self) -> (s: &'static str)
        ensures
            s@ == self.headline(),
    {
        match self {
            InspectionError::MalformedCode => "The scanned code is not in a recognised format.",
            InspectionError::NoDeviceFound => "No camera was found.",
            InspectionError::AllDevicesFailed => "None of the cameras could be opened.",
            InspectionError::FrameCaptureFailed => "The camera did not deliver a frame.",
            InspectionError::DecodeFailed => "The captured frame could not be decoded.",
            InspectionError::EncodeFailed => "The captured image could not be encoded as JPEG.",
            InspectionError::ManualCaptureRequired =>
                "No camera application could be started; please select an image file.",
            InspectionError::PipelineUnavailable => "The inspection pipeline is unavailable.",
            InspectionError::AuthFailed => "The credentials were not accepted.",
            InspectionError::PersistenceError => "The record could not be stored.",
            InspectionError::StageAlreadyComplete =>
                "This stage has already been completed for the session.",
            InspectionError::DeviceBusy => "The camera is in use by another capture.",
        }
    }

    /// Whether remedies are listed for this failure.
    pub fn lists_remedies(self) -> (b: bool)
        ensures
            b == self.is_camera_failure(),
    {
        match self {
            InspectionError::NoDeviceFound
            | InspectionError::AllDevicesFailed
            | InspectionError::FrameCaptureFailed
            | InspectionError::DecodeFailed
            | InspectionError::EncodeFailed
            | InspectionError::ManualCaptureRequired
            | InspectionError::DeviceBusy => true,
            _ => false,
        }
    }

    /// The human-readable message for this failure.
    pub fn message(self) -> (text: String)
        ensures
            text@ == self.message_text(),
    {
        let mut text = crate::text::owned(self.headline_str());
        if self.lists_remedies() {
            crate::text::push_text(
                &mut text,
                "\n\nPlease check:\n1. the application is permitted to use the camera\n2. the camera cable is firmly connected\n3. no other application is using the camera",
            );
        }
        text
    }
}

} // verus!
