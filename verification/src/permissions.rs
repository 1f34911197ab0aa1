//! Capture permissions: the microphone permission probe's verdict, output
//! folder access, and recognising a screen-capture device in the device
//! listing of ffmpeg's AVFoundation input.
use vstd::prelude::*;
use crate::text::{
    append_chars, append_str, chars_to_string, clone_opt_string, contains, contains_str, find,
    find_exec, lemma_find_from_props, lemma_rfind_props, lines, lower, lower_chars, opt_string,
    parse_usize, parse_usize_range, rfind, rfind_exec, split_lines, str_chars, sub_chars, trim,
    trim_chars, views,
};
use crate::state::PermissionStateDto;

verus! {

/// The microphone permission as the capture helper reports it.
#[derive(Debug, Clone, Copy, PartialEq, Eq, Structural)]
pub enum MicrophonePermissionStatus {
    Granted,
    Denied,
    Restricted,
    NotDetermined,
    Unknown,
}

pub open spec fn permission_status_text(s: MicrophonePermissionStatus) -> Seq<char> {
    match s {
        MicrophonePermissionStatus::Granted => "granted"@,
        MicrophonePermissionStatus::Denied => "denied"@,
        MicrophonePermissionStatus::Restricted => "restricted"@,
        MicrophonePermissionStatus::NotDetermined => "not_determined"@,
        MicrophonePermissionStatus::Unknown => "unknown"@,
    }
}

impl MicrophonePermissionStatus {
    /// The status as its wire name.
    pub fn as_str(self) -> (r: &'static str)
        ensures
            r@ == permission_status_text(self),
    {
        match self {
            MicrophonePermissionStatus::Granted => "granted",
            MicrophonePermissionStatus::Denied => "denied",
            MicrophonePermissionStatus::Restricted => "restricted",
            MicrophonePermissionStatus::NotDetermined => "not_determined",
            MicrophonePermissionStatus::Unknown => "unknown",
        }
    }
}

/// Outcome of a microphone permission probe.
#[derive(Debug, Clone)]
pub struct MicrophonePermissionProbe {
    pub status: MicrophonePermissionStatus,
    pub error: Option<String>,
}

/// Outcome of probing the output folder for writing.
#[derive(Debug, Clone)]
pub struct OutputDirAccessProbe {
    pub writable: bool,
    pub error: Option<String>,
}

impl MicrophonePermissionProbe {
    pub fn granted() -> (r: Self)
        ensures
            r.status == MicrophonePermissionStatus::Granted,
            r.error is None,
    {
        MicrophonePermissionProbe { status: MicrophonePermissionStatus::Granted, error: None }
    }

    pub fn with_error(status: MicrophonePermissionStatus, error: String) -> (r: Self)
        ensures
            r.status == status,
            opt_string(r.error) == Some(error@),
    {
        MicrophonePermissionProbe { status, error: Some(error) }
    }
}

pub open spec fn spec_output_dir_denied_message(output_dir: Seq<char>) -> Seq<char> {
    "Downloads folder access is denied for Rewinder ("@ + output_dir
        + "). Enable Rewinder in System Settings > Privacy & Security > Files and Folders (Downloads)."@
}

/// The message shown when the output folder may not be written.
pub fn output_dir_permission_denied_message(output_dir: &str) -> (r: String)
    ensures
        r@ == spec_output_dir_denied_message(output_dir@),
{
    let mut v: Vec<char> = Vec::new();
    append_str(&mut v, "Downloads folder access is denied for Rewinder (");
    append_str(&mut v, output_dir);
    append_str(
        &mut v,
        "). Enable Rewinder in System Settings > Privacy & Security > Files and Folders (Downloads).",
    );
    chars_to_string(&v)
}

/// Access to the output folder, from the probe of that folder: granted when
/// the probe could write there, else the probe's error, or the standard
/// denial message when the probe gave none.
pub fn ensure_output_dir_access(probe: &OutputDirAccessProbe, output_dir: &str) -> (r: Result<
    (),
    String,
>)
    ensures
        probe.writable ==> r is Ok,
        !probe.writable ==> r is Err && r->Err_0@ == match probe.error {
            Some(e) => e@,
            None => spec_output_dir_denied_message(output_dir@),
        },
{
    if probe.writable {
        Ok(())
    } else {
        match &probe.error {
            Some(e) => Err(e.clone()),
            None => Err(output_dir_permission_denied_message(output_dir)),
        }
    }
}

/// Microphone access, from the permission probe: granted only when the probe
/// says so, else the probe's error or a generic failure message.
pub fn ensure_microphone_permission(probe: &MicrophonePermissionProbe) -> (r: Result<(), String>)
    ensures
        probe.status == MicrophonePermissionStatus::Granted ==> r is Ok,
        probe.status != MicrophonePermissionStatus::Granted ==> r is Err && r->Err_0@
            == match probe.error {
            Some(e) => e@,
            None => "Microphone permission probe failed."@,
        },
{
    if probe.status == MicrophonePermissionStatus::Granted {
        return Ok(());
    }
    match &probe.error {
        Some(e) => Err(e.clone()),
        None => Err("Microphone permission probe failed.".to_string()),
    }
}

pub open spec fn spec_mic_probe_unknown_message(status_text: Seq<char>, stderr: Seq<char>) -> Seq<
    char,
> {
    "Microphone permission probe failed (status "@ + status_text + "): "@ + trim(stderr)
}

/// The probe's verdict from the capture helper's output: its stdout and
/// stderr together, lower-cased, carry a `mic_permission=` marker; granted
/// counts only when the helper also exited successfully.
pub open spec fn spec_mic_probe_from_output(
    success: bool,
    stdout: Seq<char>,
    stderr: Seq<char>,
    status_text: Seq<char>,
) -> (MicrophonePermissionStatus, Seq<char>) {
    let combined = lower(stdout + "\n"@ + stderr);
    if success && contains(combined, "mic_permission=granted"@) {
        (MicrophonePermissionStatus::Granted, Seq::empty())
    } else if contains(combined, "mic_permission=denied"@) {
        (
            MicrophonePermissionStatus::Denied,
            "Microphone permission denied. Enable Rewinder in System Settings > Privacy & Security > Microphone."@,
        )
    } else if contains(combined, "mic_permission=restricted"@) {
        (
            MicrophonePermissionStatus::Restricted,
            "Microphone permission is restricted by system policy."@,
        )
    } else if contains(combined, "mic_permission=not_determined"@) {
        (
            MicrophonePermissionStatus::NotDetermined,
            "Microphone permission has not been granted yet. Allow access when prompted."@,
        )
    } else {
        (MicrophonePermissionStatus::Unknown, spec_mic_probe_unknown_message(status_text, stderr))
    }
}

/// Reads the microphone permission from the capture helper's output;
/// `status_text` is how the helper's exit status is shown.
pub fn microphone_probe_from_helper_output(
    success: bool,
    stdout: &str,
    stderr: &str,
    status_text: &str,
) -> (r: MicrophonePermissionProbe)
    ensures
        ({
            let (st, msg) = spec_mic_probe_from_output(success, stdout@, stderr@, status_text@);
            &&& r.status == st
            &&& st == MicrophonePermissionStatus::Granted ==> r.error is None
            &&& st != MicrophonePermissionStatus::Granted ==> opt_string(r.error) == Some(msg)
        }),
{
    let mut raw: Vec<char> = Vec::new();
    append_str(&mut raw, stdout);
    append_str(&mut raw, "\n");
    append_str(&mut raw, stderr);
    let combined = lower_chars(&raw);
    if success && contains_str(&combined, "mic_permission=granted") {
        return MicrophonePermissionProbe::granted();
    }
    if contains_str(&combined, "mic_permission=denied") {
        return MicrophonePermissionProbe::with_error(
            MicrophonePermissionStatus::Denied,
            "Microphone permission denied. Enable Rewinder in System Settings > Privacy & Security > Microphone.".to_string(),
        );
    }
    if contains_str(&combined, "mic_permission=restricted") {
        return MicrophonePermissionProbe::with_error(
            MicrophonePermissionStatus::Restricted,
            "Microphone permission is restricted by system policy.".to_string(),
        );
    }
    if contains_str(&combined, "mic_permission=not_determined") {
        return MicrophonePermissionProbe::with_error(
            MicrophonePermissionStatus::NotDetermined,
            "Microphone permission has not been granted yet. Allow access when prompted.".to_string(),
        );
    }
    let mut msg: Vec<char> = Vec::new();
    append_str(&mut msg, "Microphone permission probe failed (status ");
    append_str(&mut msg, status_text);
    append_str(&mut msg, "): ");
    let err_chars = str_chars(stderr);
    let t = trim_chars(&err_chars);
    append_chars(&mut msg, &t);
    MicrophonePermissionProbe::with_error(MicrophonePermissionStatus::Unknown, chars_to_string(&msg))
}

} // verus!

verus! {

/// The `[index] name` entry of one line of the AVFoundation device listing:
/// the trimmed line, from its last `] [` on (or whole, when it starts with
/// `[`), must open with `[`, hold a decimal index before the first `]`, and
/// name a device after it.
pub open spec fn spec_parse_avfoundation_device_line(line: Seq<char>) -> Option<(usize, Seq<char>)> {
    let trimmed = trim(line);
    let candidate = match rfind(trimmed, "] ["@) {
        Some(m) => Some(trimmed.skip(m + 2)),
        None => if trimmed.len() > 0 && trimmed[0] == '[' {
            Some(trimmed)
        } else {
            None
        },
    };
    match candidate {
        None => None,
        Some(c) => if !(c.len() > 0 && c[0] == '[') {
            None
        } else {
            match find(c, seq![']']) {
                None => None,
                Some(end) => match parse_usize(c.subrange(1, end)) {
                    None => None,
                    Some(index) => {
                        let name = trim(c.skip(end + 1));
                        if name.len() == 0 {
                            None
                        } else {
                            Some((index, name))
                        }
                    },
                },
            }
        },
    }
}

fn parse_device_line_chars(line: &Vec<char>) -> (r: Option<(usize, Vec<char>)>)
    ensures
        match spec_parse_avfoundation_device_line(line@) {
            None => r is None,
            Some((i, n)) => r matches Some((ri, rn)) && ri == i && rn@ == n,
        },
{
    let trimmed = trim_chars(line);
    let sep = str_chars("] [");
    proof {
        reveal_strlit("] [");
    }
    let candidate = match rfind_exec(&trimmed, &sep) {
        Some(m) => {
            proof {
                lemma_rfind_props(trimmed@, sep@);
            }
            let c = sub_chars(&trimmed, m + 2, trimmed.len());
            proof {
                assert(c@ =~= trimmed@.skip(m + 2));
            }
            c
        },
        None => {
            if trimmed.len() > 0 && trimmed[0] == '[' {
                trimmed
            } else {
                return None;
            }
        },
    };
    if !(candidate.len() > 0 && candidate[0] == '[') {
        return None;
    }
    let close = vec![']'];
    assert(close@ =~= seq![']']);
    let end = match find_exec(&candidate, &close) {
        Some(e) => e,
        None => {
            return None;
        },
    };
    proof {
        lemma_find_from_props(candidate@, close@, 0);
        assert(close@ =~= seq![']']);
    }
    if end < 1 {
        proof {
            assert(candidate@[0] == ']');
        }
        return None;
    }
    let index = match parse_usize_range(&candidate, 1, end) {
        Some(i) => i,
        None => {
            return None;
        },
    };
    let rest = sub_chars(&candidate, end + 1, candidate.len());
    proof {
        assert(rest@ =~= candidate@.skip(end + 1));
    }
    let name = trim_chars(&rest);
    if name.len() == 0 {
        return None;
    }
    Some((index, name))
}

/// One line of the AVFoundation device listing as `(index, name)`.
pub fn parse_avfoundation_device_line(line: &str) -> (r: Option<(usize, String)>)
    ensures
        match spec_parse_avfoundation_device_line(line@) {
            None => r is None,
            Some((i, n)) => r matches Some((ri, rn)) && ri == i && rn@ == n,
        },
{
    match parse_device_line_chars(&str_chars(line)) {
        None => None,
        Some((i, n)) => Some((i, chars_to_string(&n))),
    }
}

/// A device name that reads as a screen and not as a camera.
pub open spec fn is_screen_device_name(name: Seq<char>) -> bool {
    let lw = lower(name);
    (contains(lw, "capture screen"@) || contains(lw, "screen"@) || contains(lw, "display"@)
        || contains(lw, "monitor"@)) && !(contains(lw, "camera"@) || contains(lw, "facetime"@)
        || contains(lw, "continuity"@) || contains(lw, "webcam"@) || contains(lw, "iphone"@))
}

/// Scans listing lines for a screen device inside the video-device section.
pub open spec fn screen_device_scan(ls: Seq<Seq<char>>, in_video: bool) -> bool
    decreases ls.len(),
{
    if ls.len() == 0 {
        false
    } else {
        let l = ls[0];
        let rest = ls.drop_first();
        if contains(l, "AVFoundation video devices"@) {
            screen_device_scan(rest, true)
        } else if contains(l, "AVFoundation audio devices"@) {
            screen_device_scan(rest, false)
        } else if !in_video {
            screen_device_scan(rest, in_video)
        } else {
            match spec_parse_avfoundation_device_line(l) {
                Some((_, name)) => is_screen_device_name(name) || screen_device_scan(rest, in_video),
                None => screen_device_scan(rest, in_video),
            }
        }
    }
}

fn screen_device_name_exec(name: &Vec<char>) -> (r: bool)
    ensures
        r == is_screen_device_name(name@),
{
    let lw = lower_chars(name);
    let screen = contains_str(&lw, "capture screen") || contains_str(&lw, "screen")
        || contains_str(&lw, "display") || contains_str(&lw, "monitor");
    let camera = contains_str(&lw, "camera") || contains_str(&lw, "facetime") || contains_str(
        &lw,
        "continuity",
    ) || contains_str(&lw, "webcam") || contains_str(&lw, "iphone");
    screen && !camera
}

/// Whether ffmpeg's AVFoundation device listing (its stderr) offers a screen
/// to capture: a device in the video-device section whose name reads as a
/// screen and not as a camera.
pub fn has_screen_capture_device(stderr: &str) -> (r: bool)
    ensures
        r == screen_device_scan(lines(stderr@), false),
{
    let ls = split_lines(&str_chars(stderr));
    let ghost l = lines(stderr@);
    let mut in_video = false;
    let mut i: usize = 0;
    assert(l.skip(0) =~= l);
    while i < ls.len()
        invariant
            i <= ls.len(),
            views(ls@) == l,
            l == lines(stderr@),
            screen_device_scan(l.skip(i as int), in_video) == screen_device_scan(l, false),
        decreases ls.len() - i,
    {
        let line = &ls[i];
        proof {
            assert(line@ == l[i as int]);
            assert(l.skip(i as int)[0] == l[i as int]);
            assert(l.skip(i as int).drop_first() =~= l.skip(i + 1));
        }
        if contains_str(line, "AVFoundation video devices") {
            in_video = true;
        } else if contains_str(line, "AVFoundation audio devices") {
            in_video = false;
        } else if in_video {
            match parse_device_line_chars(line) {
                Some((_, name)) => {
                    if screen_device_name_exec(&name) {
                        return true;
                    }
                },
                None => {},
            }
        }
        i = i + 1;
    }
    proof {
        assert(l.skip(ls.len() as int).len() == 0);
    }
    false
}

} // verus!

verus! {

/// Permissions when Screen Recording is still not granted after asking.
pub fn screen_recording_denied_permissions(output_probe: &OutputDirAccessProbe) -> (r:
    PermissionStateDto)
    ensures
        !r.screen_recording_granted,
        !r.system_audio_granted,
        r.output_dir_writable == output_probe.writable,
        opt_string(r.output_dir_permission_error) == opt_string(output_probe.error),
        opt_string(r.reason) == Some(
            "Screen Recording permission is not granted. Enable Rewinder in System Settings > Privacy & Security > Screen Recording, then restart Rewinder."@,
        ),
{
    PermissionStateDto {
        screen_recording_granted: false,
        system_audio_granted: false,
        output_dir_writable: output_probe.writable,
        output_dir_permission_error: clone_opt_string(&output_probe.error),
        reason: Some(
            "Screen Recording permission is not granted. Enable Rewinder in System Settings > Privacy & Security > Screen Recording, then restart Rewinder.".to_string(),
        ),
    }
}

/// Permissions from the output folder probe and ffmpeg's device listing
/// (`Ok` with its stderr, or `Err` with why ffmpeg could not run): a screen
/// device grants screen and system-audio capture, and then the folder
/// decides the reason; no device, or no listing, denies capture.
pub fn permissions_from_device_listing(
    output_probe: &OutputDirAccessProbe,
    output_dir: &str,
    listing: Result<&str, &str>,
) -> (r: PermissionStateDto)
    ensures
        match listing {
            Ok(stderr) => if screen_device_scan(lines(stderr@), false) {
                &&& r.screen_recording_granted
                &&& r.system_audio_granted
                &&& r.output_dir_writable == output_probe.writable
                &&& if output_probe.writable {
                    r.output_dir_permission_error is None && r.reason is None
                } else {
                    &&& opt_string(r.output_dir_permission_error) == opt_string(
                        output_probe.error,
                    )
                    &&& opt_string(r.reason) == Some(
                        match output_probe.error {
                            Some(e) => e@,
                            None => spec_output_dir_denied_message(output_dir@),
                        },
                    )
                }
            } else {
                &&& !r.screen_recording_granted
                &&& !r.system_audio_granted
                &&& r.output_dir_writable == output_probe.writable
                &&& opt_string(r.output_dir_permission_error) == opt_string(output_probe.error)
                &&& opt_string(r.reason) == Some(
                    "No AVFoundation screen-capture device available. Ensure Screen Recording permission is granted and at least one display source is active."@,
                )
            },
            Err(err) => {
                &&& !r.screen_recording_granted
                &&& !r.system_audio_granted
                &&& r.output_dir_writable == output_probe.writable
                &&& opt_string(r.output_dir_permission_error) == opt_string(output_probe.error)
                &&& opt_string(r.reason) == Some(
                    "Failed to run ffmpeg for permission probe: "@ + err@,
                )
            },
        },
{
    match listing {
        Ok(stderr) => {
            if has_screen_capture_device(stderr) {
                if !output_probe.writable {
                    let reason = match &output_probe.error {
                        Some(e) => e.clone(),
                        None => output_dir_permission_denied_message(output_dir),
                    };
                    return PermissionStateDto {
                        screen_recording_granted: true,
                        system_audio_granted: true,
                        output_dir_writable: false,
                        output_dir_permission_error: clone_opt_string(&output_probe.error),
                        reason: Some(reason),
                    };
                }
                PermissionStateDto {
                    screen_recording_granted: true,
                    system_audio_granted: true,
                    output_dir_writable: true,
                    output_dir_permission_error: None,
                    reason: None,
                }
            } else {
                PermissionStateDto {
                    screen_recording_granted: false,
                    system_audio_granted: false,
                    output_dir_writable: output_probe.writable,
                    output_dir_permission_error: clone_opt_string(&output_probe.error),
                    reason: Some(
                        "No AVFoundation screen-capture device available. Ensure Screen Recording permission is granted and at least one display source is active.".to_string(),
                    ),
                }
            }
        },
        Err(err) => {
            let mut v: Vec<char> = Vec::new();
            append_str(&mut v, "Failed to run ffmpeg for permission probe: ");
            append_str(&mut v, err);
            PermissionStateDto {
                screen_recording_granted: false,
                system_audio_granted: false,
                output_dir_writable: output_probe.writable,
                output_dir_permission_error: clone_opt_string(&output_probe.error),
                reason: Some(chars_to_string(&v)),
            }
        },
    }
}

} // verus!
