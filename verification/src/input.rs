//! System (non-rebindable) key actions, and the check that keeps the
//! reserved system keys out of the gamepad binding space. Translating host
//! window events into these actions is a host concern.

use vstd::prelude::*;
use vstd::string::StringSliceAdditionalSpecFns;

verus! {

/// A system action triggered directly by a reserved key, never remapped by
/// the user: save or load a numbered snapshot slot, hold or toggle turbo
/// pacing, or toggle render interpolation.
#[derive(Clone, Copy, Debug, PartialEq, Eq, Structural)]
pub enum SystemAction {
    /// Save to a numbered snapshot slot.
    SaveState(u8),
    /// Load from a numbered snapshot slot.
    LoadState(u8),
    /// Hold turbo pacing: true on press, false on release.
    TurboHold(bool),
    /// Toggle turbo pacing.
    TurboToggle,
    /// Toggle render interpolation.
    ToggleInterpolation,
}

/// A byte with any ASCII lowercase letter raised to uppercase.
pub open spec fn spec_upper_byte(b: u8) -> u8 {
    if 0x61 <= b <= 0x7A {
        (b - 0x20) as u8
    } else {
        b
    }
}

/// Whether a key name, compared case-insensitively over its bytes, is one of
/// the names reserved for system actions: the eight function keys that save
/// and load snapshot slots, the shift key that holds turbo, and the letters
/// that toggle turbo and interpolation.
pub open spec fn spec_is_reserved(s: Seq<u8>) -> bool {
    let u = s.map_values(|b: u8| spec_upper_byte(b));
    ||| (u.len() == 2 && u[0] == 0x46 && 0x31 <= u[1] <= 0x38)
    ||| (u.len() == 5 && u[0] == 0x53 && u[1] == 0x48 && u[2] == 0x49 && u[3] == 0x46 && u[4]
        == 0x54)
    ||| (u.len() == 1 && (u[0] == 0x54 || u[0] == 0x59))
}

/// Raises one ASCII lowercase byte to uppercase.
fn upper_byte(b: u8) -> (r: u8)
    ensures
        r == spec_upper_byte(b),
{
    if 0x61 <= b && b <= 0x7A {
        b - 0x20
    } else {
        b
    }
}

/// Whether a key name is reserved for emulator system actions and therefore
/// not allowed as a gamepad binding; letters compare case-insensitively.
pub fn is_reserved_key_name(name: &str) -> (r: bool)
    ensures
        r == spec_is_reserved(name.spec_bytes()),
{
    let bytes = name.as_bytes();
    let ghost u = name.spec_bytes().map_values(|b: u8| spec_upper_byte(b));
    if bytes.len() == 2 {
        let b0 = upper_byte(bytes[0]);
        let b1 = upper_byte(bytes[1]);
        b0 == 0x46 && 0x31 <= b1 && b1 <= 0x38
    } else if bytes.len() == 5 {
        let b0 = upper_byte(bytes[0]);
        let b1 = upper_byte(bytes[1]);
        let b2 = upper_byte(bytes[2]);
        let b3 = upper_byte(bytes[3]);
        let b4 = upper_byte(bytes[4]);
        b0 == 0x53 && b1 == 0x48 && b2 == 0x49 && b3 == 0x46 && b4 == 0x54
    } else if bytes.len() == 1 {
        let b0 = upper_byte(bytes[0]);
        b0 == 0x54 || b0 == 0x59
    } else {
        false
    }
}

} // verus!
