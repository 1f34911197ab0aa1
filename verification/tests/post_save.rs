use rewinder::post_save::{FastVerifyQueue, PostSaveJob, SmoothJobQueue};
use rewinder::settings::SettingsDto;
use rewinder::state::TriggerSourceDto;

fn job(save_id: u64, source: TriggerSourceDto, path: &str) -> PostSaveJob {
    PostSaveJob {
        save_id,
        source,
        clip_path: path.to_string(),
        settings: SettingsDto::default(),
        save_audio_strategy: Some("fast".to_string()),
    }
}

#[test]
fn smooth_postprocess_queue_is_capped_to_latest_single_job() {
    let mut queue = SmoothJobQueue::new();
    assert!(!queue.enqueue_smooth_postprocess(job(1, TriggerSourceDto::Hotkey, "/tmp/a.mp4")));
    assert!(queue.enqueue_smooth_postprocess(job(2, TriggerSourceDto::Manual, "/tmp/b.mp4")));

    assert_eq!(queue.jobs.len(), 1);
    let latest = queue.jobs.first().expect("latest smooth job should exist");
    assert_eq!(latest.save_id, 2);
    assert_eq!(latest.clip_path, "/tmp/b.mp4");
}

#[test]
fn integrity_checks_run_one_at_a_time_in_order() {
    let mut queue = FastVerifyQueue::new();
    assert!(queue.start_next().is_none());
    queue.enqueue_fast_integrity_check(job(1, TriggerSourceDto::Hotkey, "/tmp/a.mp4"));
    queue.enqueue_fast_integrity_check(job(2, TriggerSourceDto::Manual, "/tmp/b.mp4"));
    assert_eq!(queue.start_next().map(|j| j.save_id), Some(1));
    assert!(queue.start_next().is_none());
    queue.finish();
    assert_eq!(queue.start_next().map(|j| j.save_id), Some(2));
    queue.clear();
    assert!(queue.jobs.is_empty());
    assert!(!queue.inflight);
}
