//! Tracking system-audio readiness while capture runs, and the other
//! readings taken from the running pipeline on every tick.
use vstd::prelude::*;
use crate::startup::LiveQueueProfile;
use crate::engine_policy::{derive_mic_attach_state, spec_mic_attach_state};
use crate::log_parsers::MicAttachRuntimeState;
use crate::projection::{derive_capture_load_state, spec_capture_load_state, LoadReadings};
use crate::state::{CaptureHealthDto, ClipperState};
use crate::text::str_eq;

verus! {

pub const SYSTEM_AUDIO_HARD_FAIL_AFTER_MS: u64 = 8_000;

/// When system audio stopped being ready (monotonic milliseconds), when it
/// last was, and whether its loss was already reported.
pub struct SystemAudioReadiness {
    pub not_ready_since_ms: Option<u64>,
    pub last_ready_at_ms: Option<u64>,
    pub hard_unavailable_logged: bool,
}

/// What a readiness check records.
#[derive(Debug, Clone, Copy, PartialEq, Eq, Structural)]
pub enum ReadinessNote {
    /// System audio is ready again after a gap.
    SystemAudioRecovered,
    /// System audio stopped being ready.
    SystemAudioNotReadyStart,
    /// System audio has not been ready for the hard-fail time.
    SystemAudioHardUnavailable { elapsed_ms: u64 },
}

pub open spec fn elapsed_ms(now: u64, since: u64) -> u64 {
    if now >= since {
        (now - since) as u64
    } else {
        0
    }
}

pub open spec fn health_settling(h: CaptureHealthDto) -> bool {
    h == CaptureHealthDto::Starting || h == CaptureHealthDto::Restarting || h
        == CaptureHealthDto::Stopped
}

/// One readiness check: the new (not-ready-since, last-ready, reported)
/// state and the notes.
pub open spec fn spec_readiness_step(
    not_ready_since: Option<u64>,
    last_ready: Option<u64>,
    logged: bool,
    requires_system_audio: bool,
    ready: bool,
    health: CaptureHealthDto,
    now: u64,
) -> (Option<u64>, Option<u64>, bool, Seq<ReadinessNote>) {
    if !requires_system_audio {
        (None, None, false, Seq::empty())
    } else if ready {
        (
            None,
            Some(now),
            false,
            if not_ready_since is Some {
                seq![ReadinessNote::SystemAudioRecovered]
            } else {
                Seq::empty()
            },
        )
    } else {
        let started = match not_ready_since {
            Some(s) => s,
            None => now,
        };
        let logged1 = if not_ready_since is None {
            false
        } else {
            logged
        };
        let n1 = if not_ready_since is None {
            seq![ReadinessNote::SystemAudioNotReadyStart]
        } else {
            Seq::empty()
        };
        let el = elapsed_ms(now, started);
        if el >= SYSTEM_AUDIO_HARD_FAIL_AFTER_MS && !logged1 && !health_settling(health) {
            (
                Some(started),
                last_ready,
                true,
                n1.push(ReadinessNote::SystemAudioHardUnavailable { elapsed_ms: el }),
            )
        } else {
            (Some(started), last_ready, logged1, n1)
        }
    }
}

impl SystemAudioReadiness {
    pub fn new() -> (r: Self)
        ensures
            r.not_ready_since_ms is None,
            r.last_ready_at_ms is None,
            !r.hard_unavailable_logged,
    {
        SystemAudioReadiness {
            not_ready_since_ms: None,
            last_ready_at_ms: None,
            hard_unavailable_logged: false,
        }
    }

    /// Forgets all readiness history.
    pub fn reset(&mut self)
        ensures
            final(self).not_ready_since_ms is None,
            final(self).last_ready_at_ms is None,
            !final(self).hard_unavailable_logged,
    {
        self.not_ready_since_ms = None;
        self.last_ready_at_ms = None;
        self.hard_unavailable_logged = false;
    }

    /// Tracks one reading of system-audio readiness at `now_ms`.
    pub fn observe(
        &mut self,
        requires_system_audio: bool,
        system_audio_path_ready: bool,
        capture_health: CaptureHealthDto,
        now_ms: u64,
    ) -> (r: Vec<ReadinessNote>)
        ensures
            ({
                let (s, l, g, n) = spec_readiness_step(
                    old(self).not_ready_since_ms,
                    old(self).last_ready_at_ms,
                    old(self).hard_unavailable_logged,
                    requires_system_audio,
                    system_audio_path_ready,
                    capture_health,
                    now_ms,
                );
                &&& final(self).not_ready_since_ms == s
                &&& final(self).last_ready_at_ms == l
                &&& final(self).hard_unavailable_logged == g
                &&& r@ == n
            }),
    {
        let mut notes: Vec<ReadinessNote> = Vec::new();
        if !requires_system_audio {
            self.reset();
            assert(notes@ =~= Seq::<ReadinessNote>::empty());
            return notes;
        }
        if system_audio_path_ready {
            let recovered = self.not_ready_since_ms.is_some();
            self.not_ready_since_ms = None;
            self.last_ready_at_ms = Some(now_ms);
            self.hard_unavailable_logged = false;
            if recovered {
                notes.push(ReadinessNote::SystemAudioRecovered);
            }
            assert(notes@ =~= spec_readiness_step(
                old(self).not_ready_since_ms,
                old(self).last_ready_at_ms,
                old(self).hard_unavailable_logged,
                requires_system_audio,
                system_audio_path_ready,
                capture_health,
                now_ms,
            ).3);
            return notes;
        }
        if self.not_ready_since_ms.is_none() {
            self.not_ready_since_ms = Some(now_ms);
            self.hard_unavailable_logged = false;
            notes.push(ReadinessNote::SystemAudioNotReadyStart);
        }
        let started = match self.not_ready_since_ms {
            Some(s) => s,
            None => now_ms,
        };
        let el = if now_ms >= started {
            now_ms - started
        } else {
            0
        };
        let settling = capture_health == CaptureHealthDto::Starting || capture_health
            == CaptureHealthDto::Restarting || capture_health == CaptureHealthDto::Stopped;
        if el >= SYSTEM_AUDIO_HARD_FAIL_AFTER_MS && !self.hard_unavailable_logged && !settling {
            self.hard_unavailable_logged = true;
            notes.push(ReadinessNote::SystemAudioHardUnavailable { elapsed_ms: el });
        }
        assert(notes@ =~= spec_readiness_step(
            old(self).not_ready_since_ms,
            old(self).last_ready_at_ms,
            old(self).hard_unavailable_logged,
            requires_system_audio,
            system_audio_path_ready,
            capture_health,
            now_ms,
        ).3);
        notes
    }

    /// The audio warm-up grace left, in milliseconds: none when system audio
    /// is not required or ready; otherwise the hard-fail time less the time
    /// it has not been ready.
    pub fn audio_warmup_grace_ms(
        &self,
        requires_system_audio: bool,
        system_audio_path_ready: bool,
        now_ms: u64,
    ) -> (r: Option<u32>)
        ensures
            !requires_system_audio || system_audio_path_ready ==> r is None,
            requires_system_audio && !system_audio_path_ready ==> r == Some(
                (match self.not_ready_since_ms {
                    None => SYSTEM_AUDIO_HARD_FAIL_AFTER_MS as int,
                    Some(s) => if elapsed_ms(now_ms, s) >= SYSTEM_AUDIO_HARD_FAIL_AFTER_MS {
                        0
                    } else {
                        SYSTEM_AUDIO_HARD_FAIL_AFTER_MS - elapsed_ms(now_ms, s)
                    },
                }) as u32,
            ),
    {
        if !requires_system_audio || system_audio_path_ready {
            return None;
        }
        let remaining = match self.not_ready_since_ms {
            None => SYSTEM_AUDIO_HARD_FAIL_AFTER_MS,
            Some(s) => {
                let el = if now_ms >= s {
                    now_ms - s
                } else {
                    0
                };
                if el >= SYSTEM_AUDIO_HARD_FAIL_AFTER_MS {
                    0
                } else {
                    SYSTEM_AUDIO_HARD_FAIL_AFTER_MS - el
                }
            },
        };
        Some(remaining as u32)
    }
}

/// The loss of system audio is reported once per gap: after a report, later
/// checks in the same gap report nothing more.
pub proof fn hard_loss_reported_once_per_gap(
    not_ready_since: Option<u64>,
    last_ready: Option<u64>,
    health: CaptureHealthDto,
    now: u64,
)
    requires
        not_ready_since is Some,
    ensures
        ({
            let (s, l, g, n) = spec_readiness_step(
                not_ready_since,
                last_ready,
                true,
                true,
                false,
                health,
                now,
            );
            n.len() == 0 && g
        }),
{
}

/// The live queue profile for the next start: elevated once the small
/// queues starved.
pub fn next_queue_profile(
    queue_starvation_detected: bool,
    live_queue_profile: &str,
    next: LiveQueueProfile,
) -> (r: (LiveQueueProfile, bool))
    ensures
        queue_starvation_detected && live_queue_profile@ == "small"@ && next
            != LiveQueueProfile::Elevated ==> r == (LiveQueueProfile::Elevated, true),
        !(queue_starvation_detected && live_queue_profile@ == "small"@ && next
            != LiveQueueProfile::Elevated) ==> r == (next, false),
{
    if queue_starvation_detected && str_eq(live_queue_profile, "small") && next
        != LiveQueueProfile::Elevated {
        (LiveQueueProfile::Elevated, true)
    } else {
        (next, false)
    }
}

/// A newly seen number of concurrent capture sessions above one is worth a
/// note.
pub fn concurrent_sessions_to_report(previous: Option<u8>, current: Option<u8>) -> (r: Option<u8>)
    ensures
        r == match current {
            Some(c) => if c > 1 && previous != Some(c) {
                Some(c)
            } else {
                None
            },
            None => None,
        },
{
    match current {
        Some(c) => {
            if c > 1 && previous != Some(c) {
                Some(c)
            } else {
                None
            }
        },
        None => None,
    }
}

/// What the running pipeline reports on a tick.
pub struct RuntimeReadings {
    pub load: LoadReadings,
    pub save_ready: bool,
    pub system_audio_path_ready: bool,
    pub mic_path_ready: bool,
    pub mic_frames_seen: bool,
    pub mic_capture_session_running: bool,
    pub mic_samples_per_sec: Option<u32>,
    pub mic_attach_runtime_state: Option<MicAttachRuntimeState>,
    pub audio_path_ready: bool,
    pub first_audio_frame_seen: bool,
    pub live_queue_profile: LiveQueueProfile,
    pub capture_dropped_frames: u64,
    pub capture_queue_overflows: u64,
    pub concurrent_session_count: Option<u8>,
    pub capture_owner_pid: Option<u32>,
}

impl ClipperState {
    /// Records a tick's readings: the paths, counters and sessions as
    /// reported, the microphone attach state and the load state derived
    /// from them; returns a newly seen number of concurrent sessions above
    /// one, to be noted.
    #[verifier::rlimit(60)]
    pub fn refresh_runtime_readings(&mut self, rd: RuntimeReadings) -> (r: Option<u8>)
        ensures
            r == match rd.concurrent_session_count {
                Some(c) => if c > 1 && old(self).concurrent_session_count != Some(c) {
                    Some(c)
                } else {
                    None
                },
                None => None,
            },
            final(self).save_ready == rd.save_ready,
            final(self).system_audio_path_ready == rd.system_audio_path_ready,
            final(self).mic_path_ready == rd.mic_path_ready,
            final(self).mic_frames_seen == rd.mic_frames_seen,
            final(self).mic_capture_session_running == rd.mic_capture_session_running,
            final(self).mic_samples_per_sec == rd.mic_samples_per_sec,
            final(self).mic_attach_state == spec_mic_attach_state(
                old(self).settings,
                old(self).active_audio_mode@,
                rd.mic_path_ready,
                rd.mic_frames_seen,
                rd.mic_attach_runtime_state,
                old(self).mic_attach_state,
            ),
            final(self).audio_path_ready == rd.audio_path_ready,
            final(self).first_audio_frame_seen == rd.first_audio_frame_seen,
            final(self).live_queue_profile@ == match rd.live_queue_profile {
                LiveQueueProfile::Small => "small"@,
                LiveQueueProfile::Elevated => "elevated"@,
            },
            final(self).capture_dropped_frames == rd.capture_dropped_frames,
            final(self).capture_queue_overflows == rd.capture_queue_overflows,
            final(self).concurrent_session_count == rd.concurrent_session_count,
            final(self).capture_owner_pid == rd.capture_owner_pid,
            final(self).capture_load_state@ == spec_capture_load_state(
                rd.load,
                old(self).capture_load_state@,
                old(self).effective_video_resolution,
                old(self).requested_video_resolution,
                old(self).effective_fps,
                old(self).requested_fps,
            ),
            final(self).settings == old(self).settings,
            final(self).lifecycle_state == old(self).lifecycle_state,
            final(self).capture_health == old(self).capture_health,
            final(self).last_error == old(self).last_error,
            *final(self) == (ClipperState {
                audio_path_ready: final(self).audio_path_ready,
                capture_dropped_frames: final(self).capture_dropped_frames,
                capture_load_state: final(self).capture_load_state,
                capture_owner_pid: final(self).capture_owner_pid,
                capture_queue_overflows: final(self).capture_queue_overflows,
                concurrent_session_count: final(self).concurrent_session_count,
                first_audio_frame_seen: final(self).first_audio_frame_seen,
                live_queue_profile: final(self).live_queue_profile,
                mic_attach_state: final(self).mic_attach_state,
                mic_capture_session_running: final(self).mic_capture_session_running,
                mic_frames_seen: final(self).mic_frames_seen,
                mic_path_ready: final(self).mic_path_ready,
                mic_samples_per_sec: final(self).mic_samples_per_sec,
                save_ready: final(self).save_ready,
                system_audio_path_ready: final(self).system_audio_path_ready,
                ..*old(self)
            }),
    {
        let report = concurrent_sessions_to_report(self.concurrent_session_count, rd.concurrent_session_count);
        let attach = derive_mic_attach_state(
            &self.settings,
            self.active_audio_mode.as_str(),
            rd.mic_path_ready,
            rd.mic_frames_seen,
            rd.mic_attach_runtime_state,
            self.mic_attach_state,
        );
        let load = derive_capture_load_state(
            &rd.load,
            self.capture_load_state.as_str(),
            self.effective_video_resolution,
            self.requested_video_resolution,
            self.effective_fps,
            self.requested_fps,
        );
        self.save_ready = rd.save_ready;
        self.system_audio_path_ready = rd.system_audio_path_ready;
        self.mic_path_ready = rd.mic_path_ready;
        self.mic_frames_seen = rd.mic_frames_seen;
        self.mic_capture_session_running = rd.mic_capture_session_running;
        self.mic_samples_per_sec = rd.mic_samples_per_sec;
        self.mic_attach_state = attach;
        self.audio_path_ready = rd.audio_path_ready;
        self.first_audio_frame_seen = rd.first_audio_frame_seen;
        self.live_queue_profile = rd.live_queue_profile.as_str().to_string();
        self.capture_dropped_frames = rd.capture_dropped_frames;
        self.capture_queue_overflows = rd.capture_queue_overflows;
        self.concurrent_session_count = rd.concurrent_session_count;
        self.capture_owner_pid = rd.capture_owner_pid;
        self.capture_load_state = load.to_string();
        report
    }
}

} // verus!
