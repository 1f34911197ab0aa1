//! Watching the microphone of a mixed capture: a near-silent signal held
//! for a while, and a microphone path that stays offline despite retries.
//! Each is reported once per episode.
use vstd::prelude::*;
use crate::text::str_eq;

verus! {

pub const MIC_SIGNAL_SILENCE_HOLD_MS: u64 = 5_000;

pub const MIC_OFFLINE_WATCHDOG_MULTIPLIER: u64 = 3;

/// When the current silence and offline episodes began (monotonic
/// milliseconds), and whether each was reported.
#[derive(Debug, Clone, Copy, PartialEq, Eq, Structural)]
pub struct MicSignalObserver {
    pub silence_since_ms: Option<u64>,
    pub silence_warned: bool,
    pub offline_since_ms: Option<u64>,
    pub offline_warned: bool,
}

/// What one look at the signal decided: the silent flag to show (none to
/// leave it), and whether to warn now.
#[derive(Debug, Clone, Copy, PartialEq, Eq, Structural)]
pub struct SignalVerdict {
    pub silent: Option<bool>,
    pub warn: bool,
}

pub open spec fn elapsed(now: u64, since: u64) -> u64 {
    if now >= since {
        (now - since) as u64
    } else {
        0
    }
}

/// One look at the microphone signal: outside an observed mixed capture
/// with live frames everything is reset and the flag cleared; without a
/// level nothing changes; a level above the threshold (`level_silent` is
/// false) ends the episode; a silent level starts or continues it, and once
/// it has held for the hold time it is reported, once.
pub open spec fn spec_observe_signal(
    o: MicSignalObserver,
    should_observe: bool,
    path_ready: bool,
    frames_seen: bool,
    level_silent: Option<bool>,
    now: u64,
) -> (MicSignalObserver, SignalVerdict) {
    let reset = MicSignalObserver {
        silence_since_ms: None,
        silence_warned: false,
        offline_since_ms: None,
        offline_warned: false,
    };
    if !should_observe || !path_ready || !frames_seen {
        (reset, SignalVerdict { silent: Some(false), warn: false })
    } else {
        match level_silent {
            None => (o, SignalVerdict { silent: None, warn: false }),
            Some(false) => (reset, SignalVerdict { silent: Some(false), warn: false }),
            Some(true) => {
                let since = match o.silence_since_ms {
                    Some(s) => s,
                    None => now,
                };
                let o1 = MicSignalObserver { silence_since_ms: Some(since), ..o };
                if elapsed(now, since) < MIC_SIGNAL_SILENCE_HOLD_MS || o.silence_warned {
                    (o1, SignalVerdict { silent: None, warn: false })
                } else {
                    (
                        MicSignalObserver { silence_warned: true, ..o1 },
                        SignalVerdict { silent: Some(true), warn: true },
                    )
                }
            },
        }
    }
}

/// The offline watchdog's limit: three retry intervals, each at least five
/// seconds, in milliseconds.
pub open spec fn offline_limit_ms(retry_interval_secs: u32) -> int {
    let secs: int = if retry_interval_secs < 5 {
        5
    } else {
        retry_interval_secs as int
    };
    secs * MIC_OFFLINE_WATCHDOG_MULTIPLIER * 1000
}

/// One look at the microphone path: when no microphone is expected or the
/// path is up, the episode ends; otherwise it starts or continues, and once
/// it has lasted the limit it is reported once, with its length in whole
/// seconds.
pub open spec fn spec_observe_offline(
    o: MicSignalObserver,
    mic_expected: bool,
    path_ready: bool,
    retry_interval_secs: u32,
    now: u64,
) -> (MicSignalObserver, Option<u64>) {
    if !mic_expected || path_ready {
        (MicSignalObserver { offline_since_ms: None, offline_warned: false, ..o }, None)
    } else {
        let since = match o.offline_since_ms {
            Some(s) => s,
            None => now,
        };
        let o1 = MicSignalObserver { offline_since_ms: Some(since), ..o };
        if elapsed(now, since) < offline_limit_ms(retry_interval_secs) || o.offline_warned {
            (o1, None)
        } else {
            (
                MicSignalObserver { offline_warned: true, ..o1 },
                Some((elapsed(now, since) / 1000) as u64),
            )
        }
    }
}

impl MicSignalObserver {
    pub fn new() -> (r: Self)
        ensures
            r.silence_since_ms is None,
            !r.silence_warned,
            r.offline_since_ms is None,
            !r.offline_warned,
    {
        MicSignalObserver {
            silence_since_ms: None,
            silence_warned: false,
            offline_since_ms: None,
            offline_warned: false,
        }
    }

    /// See `spec_observe_signal`.
    pub fn observe_signal(
        &mut self,
        should_observe: bool,
        path_ready: bool,
        frames_seen: bool,
        level_silent: Option<bool>,
        now_ms: u64,
    ) -> (r: SignalVerdict)
        ensures
            (*final(self), r) == spec_observe_signal(
                *old(self),
                should_observe,
                path_ready,
                frames_seen,
                level_silent,
                now_ms,
            ),
    {
        if !should_observe || !path_ready || !frames_seen {
            *self = MicSignalObserver::new();
            return SignalVerdict { silent: Some(false), warn: false };
        }
        match level_silent {
            None => SignalVerdict { silent: None, warn: false },
            Some(false) => {
                *self = MicSignalObserver::new();
                SignalVerdict { silent: Some(false), warn: false }
            },
            Some(true) => {
                let since = match self.silence_since_ms {
                    Some(s) => s,
                    None => now_ms,
                };
                self.silence_since_ms = Some(since);
                let el = if now_ms >= since {
                    now_ms - since
                } else {
                    0
                };
                if el < MIC_SIGNAL_SILENCE_HOLD_MS || self.silence_warned {
                    SignalVerdict { silent: None, warn: false }
                } else {
                    self.silence_warned = true;
                    SignalVerdict { silent: Some(true), warn: true }
                }
            },
        }
    }

    /// See `spec_observe_offline`.
    pub fn observe_offline(
        &mut self,
        mic_expected: bool,
        path_ready: bool,
        retry_interval_secs: u32,
        now_ms: u64,
    ) -> (r: Option<u64>)
        ensures
            (*final(self), r) == spec_observe_offline(
                *old(self),
                mic_expected,
                path_ready,
                retry_interval_secs,
                now_ms,
            ),
    {
        if !mic_expected || path_ready {
            self.offline_since_ms = None;
            self.offline_warned = false;
            return None;
        }
        let since = match self.offline_since_ms {
            Some(s) => s,
            None => now_ms,
        };
        self.offline_since_ms = Some(since);
        let el = if now_ms >= since {
            now_ms - since
        } else {
            0
        };
        let secs: u64 = if retry_interval_secs < 5 {
            5
        } else {
            retry_interval_secs as u64
        };
        let limit = secs * MIC_OFFLINE_WATCHDOG_MULTIPLIER * 1000;
        if el < limit || self.offline_warned {
            None
        } else {
            self.offline_warned = true;
            Some(el / 1000)
        }
    }
}

/// The microphone is watched only in a mixed capture that runs mixed.
pub fn mic_observed(mic_enabled: bool, audio_mode: &str, active_audio_mode: &str) -> (r: bool)
    ensures
        r == (mic_enabled && audio_mode@ == "system_plus_mic"@ && active_audio_mode@
            == "system_plus_mic"@),
{
    mic_enabled && str_eq(audio_mode, "system_plus_mic") && str_eq(active_audio_mode, "system_plus_mic")
}

/// The advice given with a near-silent microphone.
pub fn mic_silence_action(mic_failure_policy: &str) -> (r: &'static str)
    ensures
        r@ == if mic_failure_policy@ == "required"@ {
            "Unmute or raise mic input level, or switch mic policy to best_effort."@
        } else {
            "Unmute or raise mic input level in macOS Sound settings."@
        },
{
    if str_eq(mic_failure_policy, "required") {
        "Unmute or raise mic input level, or switch mic policy to best_effort."
    } else {
        "Unmute or raise mic input level in macOS Sound settings."
    }
}

/// A silence episode is reported at most once: after a report, a look that
/// stays in the episode reports nothing.
pub proof fn silence_reported_once(
    o: MicSignalObserver,
    should_observe: bool,
    path_ready: bool,
    frames_seen: bool,
    level_silent: Option<bool>,
    now: u64,
)
    requires
        o.silence_warned,
    ensures
        !spec_observe_signal(o, should_observe, path_ready, frames_seen, level_silent, now).1.warn,
{
}

/// An offline episode is reported at most once.
pub proof fn offline_reported_once(
    o: MicSignalObserver,
    mic_expected: bool,
    path_ready: bool,
    retry_interval_secs: u32,
    now: u64,
)
    requires
        o.offline_warned,
    ensures
        spec_observe_offline(o, mic_expected, path_ready, retry_interval_secs, now).1 is None,
{
}

} // verus!
