//! The key sequence that opens the Windows 11 snap-layout overlay for the
//! foreground window, and the test of whether the system has that overlay.
use vstd::prelude::*;

verus! {

/// A semantic version: major.minor.patch.
#[derive(Clone, Copy, Debug, PartialEq, Eq, Structural)]
pub struct OsVersion {
    pub major: u64,
    pub minor: u64,
    pub patch: u64,
}

/// The operating system as far as the snap overlay cares.
#[derive(Clone, Copy, Debug, PartialEq, Eq, Structural)]
pub struct OsInfo {
    pub windows: bool,
    /// Where the system reports a semantic version.
    pub version: Option<OsVersion>,
}

/// Windows 11 or later: major version 11 or more, or 10 with build 22000
/// or later.
pub open spec fn spec_has_snap_overlay(os: OsInfo) -> bool {
    os.windows && match os.version {
        Some(v) => v.major >= 11 || (v.major == 10 && v.patch >= 22000),
        None => false,
    }
}

/// The keys that the sequence uses.
#[derive(Clone, Copy, Debug, PartialEq, Eq, Structural)]
pub enum Key {
    Meta,
    Alt,
    Z,
}

/// One step of the sequence.
#[derive(Clone, Copy, Debug, PartialEq, Eq, Structural)]
pub enum InputAction {
    Press(Key),
    Click(Key),
    Release(Key),
    SleepMs(u64),
}

/// How long Alt is held, so that its press and release stay two events.
pub const ALT_HOLD_MS: u64 = 50;

/// Meta+Z opens the overlay; after `delay_ms` an Alt tap hides its number
/// labels. Nothing at all where the system has no such overlay.
pub open spec fn spec_snap_overlay_plan(os: OsInfo, delay_ms: u64) -> Seq<InputAction> {
    if spec_has_snap_overlay(os) {
        seq![
            InputAction::Press(Key::Meta),
            InputAction::Click(Key::Z),
            InputAction::Release(Key::Meta),
            InputAction::SleepMs(delay_ms),
            InputAction::Press(Key::Alt),
            InputAction::SleepMs(50),
            InputAction::Release(Key::Alt),
        ]
    } else {
        Seq::empty()
    }
}

/// Whether the system shows a snap-layout overlay.
pub fn has_snap_overlay(os: &OsInfo) -> (r: bool)
    ensures
        r == spec_has_snap_overlay(*os),
{
    if !os.windows {
        return false;
    }
    match os.version {
        Some(v) => v.major >= 11 || (v.major == 10 && v.patch >= 22000),
        None => false,
    }
}

/// The input actions that show the snap overlay on `os`, in order.
pub fn snap_overlay_plan(os: &OsInfo, delay_ms: u64) -> (r: Vec<InputAction>)
    ensures
        r@ == spec_snap_overlay_plan(*os, delay_ms),
{
    let mut r: Vec<InputAction> = Vec::new();
    if has_snap_overlay(os) {
        r.push(InputAction::Press(Key::Meta));
        r.push(InputAction::Click(Key::Z));
        r.push(InputAction::Release(Key::Meta));
        r.push(InputAction::SleepMs(delay_ms));
        r.push(InputAction::Press(Key::Alt));
        r.push(InputAction::SleepMs(ALT_HOLD_MS));
        r.push(InputAction::Release(Key::Alt));
    }
    proof {
        assert(r@ =~= spec_snap_overlay_plan(*os, delay_ms));
    }
    r
}

/// Relies on os_info::get, Info::os_type and Info::version: the running
/// system's type, and its version where that is semantic. What it reports
/// depends on the machine, so nothing is promised of it.
#[verifier::external_body]
fn probe_os() -> (r: OsInfo)
{
    let info = os_info::get();
    let version = match info.version() {
        os_info::Version::Semantic(major, minor, patch) => Some(OsVersion { major: *major, minor: *minor, patch: *patch }),
        _ => None,
    };
    OsInfo { windows: info.os_type() == os_info::Type::Windows, version }
}

/// The system this process runs on.
pub fn current_os() -> (r: OsInfo)
{
    probe_os()
}

/// The input actions that show the snap overlay on the running system:
/// the sequence for what the system reports, with `delay_ms` before the
/// Alt tap.
pub fn snap_overlay_actions(delay_ms: u64) -> (r: Vec<InputAction>)
    ensures
        exists|os: OsInfo| r@ == spec_snap_overlay_plan(os, delay_ms),
{
    let os = current_os();
    snap_overlay_plan(&os, delay_ms)
}

/// Off Windows, and on Windows 10 before build 22000, the sequence is
/// empty: no key is touched.
pub proof fn lemma_no_input_before_windows_11(os: OsInfo, delay_ms: u64)
    requires
        !os.windows || (os.version matches Some(v) && v.major <= 10 && (v.major < 10 || v.patch < 22000)),
    ensures
        spec_snap_overlay_plan(os, delay_ms).len() == 0,
{
}

} // verus!
