//! What a platform offers: the camera backends to query, in order, and the
//! camera applications to fall back on, in order.

use vstd::prelude::*;
use crate::error::InspectionError;
use crate::text::owned;

verus! {

/// The operating system the workstation runs on.
#[derive(Debug, Clone, Copy, PartialEq, Eq, Structural)]
pub enum Platform {
    MacOs,
    Windows,
    Linux,
    Other,
}

/// A camera access interface.
#[derive(Debug, Clone, Copy, PartialEq, Eq, Structural)]
pub enum Backend {
    /// Whatever the platform uses by default.
    Auto,
    AvFoundation,
    MediaFoundation,
    V4l2,
}

/// A camera application of the system.
#[derive(Debug, Clone, Copy, PartialEq, Eq, Structural)]
pub enum CameraApp {
    MacCamera,
    MacPhotoBooth,
    WindowsCamera,
    Cheese,
    Guvcview,
    Kamoso,
}

/// The backends of a platform in the order in which they are queried: the
/// default first, then the platform's own.
pub open spec fn backends_of(platform: Platform) -> Seq<Backend> {
    match platform {
        Platform::MacOs => seq![Backend::Auto, Backend::AvFoundation],
        Platform::Windows => seq![Backend::Auto, Backend::MediaFoundation],
        Platform::Linux => seq![Backend::Auto, Backend::V4l2],
        Platform::Other => seq![Backend::Auto],
    }
}

/// The camera applications of a platform in the order in which they are tried.
pub open spec fn apps_of(platform: Platform) -> Seq<CameraApp> {
    match platform {
        Platform::MacOs => seq![CameraApp::MacCamera, CameraApp::MacPhotoBooth],
        Platform::Windows => seq![CameraApp::WindowsCamera],
        Platform::Linux => seq![CameraApp::Cheese, CameraApp::Guvcview, CameraApp::Kamoso],
        Platform::Other => Seq::empty(),
    }
}

/// The backends of a platform in the order in which they are queried.
pub fn backend_order(platform: Platform) -> (v: Vec<Backend>)
    ensures
        v@ == backends_of(platform),
        1 <= v.len() <= 2,
{
    let mut v: Vec<Backend> = Vec::new();
    v.push(Backend::Auto);
    match platform {
        Platform::MacOs => v.push(Backend::AvFoundation),
        Platform::Windows => v.push(Backend::MediaFoundation),
        Platform::Linux => v.push(Backend::V4l2),
        Platform::Other => {},
    }
    proof {
        assert(v@ =~= backends_of(platform));
    }
    v
}

/// The camera applications of a platform in the order in which they are tried.
pub fn fallback_apps(platform: Platform) -> (v: Vec<CameraApp>)
    ensures
        v@ == apps_of(platform),
        v.len() <= 3,
{
    let mut v: Vec<CameraApp> = Vec::new();
    match platform {
        Platform::MacOs => {
            v.push(CameraApp::MacCamera);
            v.push(CameraApp::MacPhotoBooth);
        },
        Platform::Windows => {
            v.push(CameraApp::WindowsCamera);
        },
        Platform::Linux => {
            v.push(CameraApp::Cheese);
            v.push(CameraApp::Guvcview);
            v.push(CameraApp::Kamoso);
        },
        Platform::Other => {},
    }
    proof {
        assert(v@ =~= apps_of(platform));
    }
    v
}

impl Backend {
    /// The name under which the backend is listed.
    pub open spec fn name(self) -> Seq<char> {
        match self {
            Backend::Auto => "Auto"@,
            Backend::AvFoundation => "AVFoundation"@,
            Backend::MediaFoundation => "MediaFoundation"@,
            Backend::V4l2 => "V4L2"@,
        }
    }

    /// The name under which the backend is listed.
    pub fn label(self) -> (s: String)
        ensures
            s@ == self.name(),
    {
        match self {
            Backend::Auto => owned("Auto"),
            Backend::AvFoundation => owned("AVFoundation"),
            Backend::MediaFoundation => owned("MediaFoundation"),
            Backend::V4l2 => owned("V4L2"),
        }
    }
}

impl CameraApp {
    /// The program that launches the application.
    pub open spec fn program_name(self) -> Seq<char> {
        match self {
            CameraApp::MacCamera | CameraApp::MacPhotoBooth => "open"@,
            CameraApp::WindowsCamera => "start"@,
            CameraApp::Cheese => "cheese"@,
            CameraApp::Guvcview => "guvcview"@,
            CameraApp::Kamoso => "kamoso"@,
        }
    }

    /// The arguments handed to the program.
    pub open spec fn argument_list(self) -> Seq<Seq<char>> {
        match self {
            CameraApp::MacCamera => seq!["-a"@, "Camera"@],
            CameraApp::MacPhotoBooth => seq!["-a"@, "Photo Booth"@],
            CameraApp::WindowsCamera => seq!["microsoft.windows.camera:"@],
            _ => Seq::empty(),
        }
    }

    /// The word answered to the caller once the application is open.
    pub open spec fn opened_word(self) -> Seq<char> {
        match self {
            CameraApp::MacPhotoBooth => "PHOTOBOOTH_APP_OPENED"@,
            _ => "CAMERA_APP_OPENED"@,
        }
    }

    /// Whether the launcher waits for the program to end and reads its exit
    /// status, rather than only starting it.
    pub open spec fn waits_for_exit(self) -> bool {
        self is MacCamera || self is MacPhotoBooth || self is WindowsCamera
    }

    /// The program that launches the application.
    pub fn program(self) -> (s: String)
        ensures
            s@ == self.program_name(),
    {
        match self {
            CameraApp::MacCamera | CameraApp::MacPhotoBooth => owned("open"),
            CameraApp::WindowsCamera => owned("start"),
            CameraApp::Cheese => owned("cheese"),
            CameraApp::Guvcview => owned("guvcview"),
            CameraApp::Kamoso => owned("kamoso"),
        }
    }

    /// The arguments handed to the program.
    pub fn arguments(self) -> (v: Vec<String>)
        ensures
            crate::codes::texts(v@) == self.argument_list(),
    {
        let mut v: Vec<String> = Vec::new();
        match self {
            CameraApp::MacCamera => {
                v.push(owned("-a"));
                v.push(owned("Camera"));
            },
            CameraApp::MacPhotoBooth => {
                v.push(owned("-a"));
                v.push(owned("Photo Booth"));
            },
            CameraApp::WindowsCamera => {
                v.push(owned("microsoft.windows.camera:"));
            },
            _ => {},
        }
        proof {
            assert(crate::codes::texts(v@) =~= self.argument_list());
        }
        v
    }

    /// The word answered to the caller once the application is open.
    pub fn opened_marker(self) -> (s: String)
        ensures
            s@ == self.opened_word(),
    {
        match self {
            CameraApp::MacPhotoBooth => owned("PHOTOBOOTH_APP_OPENED"),
            _ => owned("CAMERA_APP_OPENED"),
        }
    }

    /// Whether the launcher waits for the program to end.
    pub fn runs_to_completion(self) -> (b: bool)
        ensures
            b == self.waits_for_exit(),
    {
        match self {
            CameraApp::MacCamera | CameraApp::MacPhotoBooth | CameraApp::WindowsCamera => true,
            _ => false,
        }
    }
}

/// What a backend tells of one device.
#[derive(Debug, Clone, PartialEq, Eq)]
pub struct DeviceDescriptor {
    pub backend: Backend,
    /// The position of the device in the backend's answer.
    pub index: u32,
    pub name: String,
    pub description: String,
    pub misc: String,
}

/// All the descriptors of `reports`, one backend after the other.
pub open spec fn all_devices(reports: Seq<Vec<DeviceDescriptor>>) -> Seq<DeviceDescriptor>
    decreases reports.len(),
{
    if reports.len() == 0 {
        Seq::empty()
    } else {
        all_devices(reports.drop_last()) + reports.last()@
    }
}

/// Gathers what the backends found, in the order in which they were
/// queried; a backend that could not be queried counts as having found
/// nothing. Fails with `NoDeviceFound` where no backend found a device.
pub fn collect_devices(reports: Vec<Vec<DeviceDescriptor>>) -> (r: Result<
    Vec<DeviceDescriptor>,
    InspectionError,
>)
    ensures
        match r {
            Ok(found) => found@ == all_devices(reports@) && found.len() > 0,
            Err(e) => e == InspectionError::NoDeviceFound && all_devices(reports@).len() == 0,
        },
{
    let mut reports = reports;
    let ghost given = reports@;
    let mut found: Vec<DeviceDescriptor> = Vec::new();
    let mut rest: Vec<Vec<DeviceDescriptor>> = Vec::new();
    // Take the reports from the end, so that each can be moved out.
    while reports.len() > 0
        invariant
            reports@.len() + rest@.len() == given.len(),
            forall|i: int| 0 <= i < reports@.len() ==> reports@[i] == given[i],
            forall|j: int|
                0 <= j < rest@.len() ==> rest@[j] == given[given.len() - 1 - j],
        decreases reports.len(),
    {
        let last = reports.pop().unwrap();
        rest.push(last);
    }
    let ghost mut done: int = 0;
    while rest.len() > 0
        invariant
            done + rest@.len() == given.len(),
            0 <= done,
            forall|j: int|
                0 <= j < rest@.len() ==> rest@[j] == given[given.len() - 1 - j],
            found@ == all_devices(given.take(done)),
        decreases rest.len(),
    {
        let mut report = rest.pop().unwrap();
        proof {
            assert(report == given[done]);
            assert(given.take(done + 1).drop_last() =~= given.take(done));
            done = done + 1;
        }
        found.append(&mut report);
    }
    proof {
        assert(given.take(done) =~= given);
    }
    if found.len() == 0 {
        Err(InspectionError::NoDeviceFound)
    } else {
        Ok(found)
    }
}

/// The number of device indices to hand to an acquisition for a backend's
/// answer: its length, or the largest number that fits.
pub fn device_count(report: &Vec<DeviceDescriptor>) -> (n: u32)
    ensures
        n == if report.len() <= u32::MAX {
            report.len() as u32
        } else {
            u32::MAX
        },
{
    if report.len() <= u32::MAX as usize {
        report.len() as u32
    } else {
        u32::MAX
    }
}

} // verus!
