//! Global shortcut registration outcomes.
use vstd::prelude::*;
use crate::state::{ClipperState, HotkeyStatusDto};
use crate::text::{append_str, chars_to_string};

verus! {

/// Whether the primary shortcut or one of its fallbacks was registered.
#[derive(Debug, Clone, Copy, PartialEq, Eq, Structural)]
pub enum RegistrationMode {
    Primary,
    Fallback,
}

/// The shortcut that was registered, and how.
#[derive(Debug, Clone)]
pub struct HotkeyRegistration {
    pub selected_hotkey: String,
    pub mode: RegistrationMode,
}

/// The hotkey status shown for a registration: registered for the primary
/// shortcut, fallback for a fallback.
pub fn hotkey_status_for(mode: RegistrationMode) -> (r: HotkeyStatusDto)
    ensures
        mode == RegistrationMode::Primary ==> r == HotkeyStatusDto::Registered,
        mode == RegistrationMode::Fallback ==> r == HotkeyStatusDto::Fallback,
{
    match mode {
        RegistrationMode::Primary => HotkeyStatusDto::Registered,
        RegistrationMode::Fallback => HotkeyStatusDto::Fallback,
    }
}

pub open spec fn spec_fallback_hotkey_error(source: Seq<char>, selected: Seq<char>) -> Seq<char> {
    source + ": primary hotkey unavailable, using fallback '"@ + selected + "'"@
}

pub open spec fn spec_fallback_hotkey_notice(selected: Seq<char>) -> Seq<char> {
    "Primary hotkey unavailable. Using fallback "@ + selected
}

/// The notice shown when a fallback shortcut had to be used.
pub fn fallback_hotkey_notice(selected: &str) -> (r: String)
    ensures
        r@ == spec_fallback_hotkey_notice(selected@),
{
    let mut v: Vec<char> = Vec::new();
    append_str(&mut v, "Primary hotkey unavailable. Using fallback ");
    append_str(&mut v, selected);
    chars_to_string(&v)
}

impl ClipperState {
    /// Records how the shortcuts were registered: the status, and for a
    /// fallback the error naming it; a failed registration is a conflict.
    pub fn apply_hotkey_registration(
        &mut self,
        registration: &Result<HotkeyRegistration, String>,
        source: &str,
    )
        ensures
            match registration {
                Ok(reg) => {
                    &&& final(self).hotkey_status == if reg.mode == RegistrationMode::Primary {
                        HotkeyStatusDto::Registered
                    } else {
                        HotkeyStatusDto::Fallback
                    }
                    &&& reg.mode == RegistrationMode::Fallback ==> (final(self).last_error matches Some(e)
                        && e@ == spec_fallback_hotkey_error(source@, reg.selected_hotkey@))
                    &&& reg.mode == RegistrationMode::Primary ==> final(self).last_error
                        == old(self).last_error
                },
                Err(_) => final(self).hotkey_status == HotkeyStatusDto::Conflict
                    && final(self).last_error == old(self).last_error,
            },
            *final(self) == (ClipperState {
                hotkey_status: final(self).hotkey_status,
                last_error: final(self).last_error,
                ..*old(self)
            }),
    {
        match registration {
            Ok(reg) => {
                self.hotkey_status = hotkey_status_for(reg.mode);
                if reg.mode == RegistrationMode::Fallback {
                    let mut v: Vec<char> = Vec::new();
                    append_str(&mut v, source);
                    append_str(&mut v, ": primary hotkey unavailable, using fallback '");
                    append_str(&mut v, reg.selected_hotkey.as_str());
                    append_str(&mut v, "'");
                    self.last_error = Some(chars_to_string(&v));
                }
            },
            Err(_) => {
                self.hotkey_status = HotkeyStatusDto::Conflict;
            },
        }
    }
}

} // verus!
