//! Work that follows a save: smoothing, of which only the latest request
//! is kept, and integrity checks of fast saves, run one at a time in the
//! order they were asked for.
use vstd::prelude::*;
use std::collections::VecDeque;
use crate::settings::SettingsDto;
use crate::state::TriggerSourceDto;

verus! {

/// A saved clip waiting for background work.
pub struct PostSaveJob {
    pub save_id: u64,
    pub source: TriggerSourceDto,
    pub clip_path: String,
    pub settings: SettingsDto,
    /// How the save wrote its audio (integrity checks only).
    pub save_audio_strategy: Option<String>,
}

/// Smoothing jobs: a new one replaces whatever waits.
pub struct SmoothJobQueue {
    pub jobs: Vec<PostSaveJob>,
}

impl SmoothJobQueue {
    pub fn new() -> (r: Self)
        ensures
            r.jobs@.len() == 0,
    {
        SmoothJobQueue { jobs: Vec::new() }
    }

    /// Queues `job` as the only waiting one; says whether it replaced one.
    pub fn enqueue_smooth_postprocess(&mut self, job: PostSaveJob) -> (r: bool)
        ensures
            final(self).jobs@ == seq![job],
            r == (old(self).jobs@.len() > 0),
    {
        let replaced = self.jobs.len() > 0;
        self.jobs = Vec::new();
        self.jobs.push(job);
        replaced
    }

    /// Drops every waiting job.
    pub fn clear(&mut self)
        ensures
            final(self).jobs@.len() == 0,
    {
        self.jobs = Vec::new();
    }
}

/// Integrity checks of fast saves, first asked first served, one at a
/// time.
pub struct FastVerifyQueue {
    pub jobs: VecDeque<PostSaveJob>,
    pub inflight: bool,
}

impl FastVerifyQueue {
    pub fn new() -> (r: Self)
        ensures
            r.jobs@.len() == 0,
            !r.inflight,
    {
        FastVerifyQueue { jobs: VecDeque::new(), inflight: false }
    }

    pub fn enqueue_fast_integrity_check(&mut self, job: PostSaveJob)
        ensures
            final(self).jobs@ == old(self).jobs@.push(job),
            final(self).inflight == old(self).inflight,
    {
        self.jobs.push_back(job);
    }

    /// The next check to run: none while one runs or none waits; otherwise
    /// the oldest, which now runs.
    pub fn start_next(&mut self) -> (r: Option<PostSaveJob>)
        ensures
            old(self).inflight || old(self).jobs@.len() == 0 ==> r is None && final(self).jobs@
                == old(self).jobs@ && final(self).inflight == old(self).inflight,
            !old(self).inflight && old(self).jobs@.len() > 0 ==> r == Some(old(self).jobs@[0])
                && final(self).jobs@ == old(self).jobs@.drop_first() && final(self).inflight,
    {
        if self.inflight || self.jobs.len() == 0 {
            return None;
        }
        let job = self.jobs.pop_front();
        self.inflight = true;
        job
    }

    /// The running check is over.
    pub fn finish(&mut self)
        ensures
            !final(self).inflight,
            final(self).jobs@ == old(self).jobs@,
    {
        self.inflight = false;
    }

    /// Drops every waiting check and forgets the running one.
    pub fn clear(&mut self)
        ensures
            final(self).jobs@.len() == 0,
            !final(self).inflight,
    {
        self.jobs = VecDeque::new();
        self.inflight = false;
    }
}

} // verus!
