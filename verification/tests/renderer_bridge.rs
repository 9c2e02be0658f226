use weasel::message::{Candidate, KeyEventResponse, RenderRect, RenderSnapshot};
use weasel::renderer_bridge::{preedit_capability, render_snapshot, RendererPublisher};

#[test]
fn clones_share_sequence_independent_of_context_and_input_revision() {
    let mut publisher = RendererPublisher::channel();
    for index in 0..3u64 {
        publisher.publish(RenderSnapshot {
            sequence: 999,
            session_id: index + 1,
            revision: 7,
            visible: index != 2,
            ..Default::default()
        });
        let latest = publisher.latest().unwrap();
        assert_eq!(latest.sequence, index + 1);
        assert_eq!(latest.revision, 7);
    }
}

#[test]
fn the_latest_snapshot_has_the_newest_number() {
    let mut publisher = RendererPublisher::channel();
    for _ in 0..4 {
        for _ in 0..100 {
            publisher.publish(RenderSnapshot::default());
        }
    }
    assert_eq!(publisher.latest().unwrap().sequence, 400);
}

#[test]
fn stalled_renderer_retains_only_latest_snapshot_including_hide() {
    let mut publisher = RendererPublisher::channel();
    for revision in 1..=10000 {
        publisher.publish(RenderSnapshot {
            revision,
            visible: true,
            ..Default::default()
        });
    }
    assert_eq!(publisher.latest().unwrap().revision, 10000);
    publisher.publish(RenderSnapshot {
        revision: 10001,
        visible: false,
        ..Default::default()
    });
    let latest = publisher.latest().unwrap();
    assert_eq!(latest.revision, 10001);
    assert!(!latest.visible);
}

#[test]
fn snapshot_preserves_engine_page_and_all_candidates() {
    let response = KeyEventResponse {
        page_start: 7,
        can_page_previous: true,
        can_page_next: true,
        selected_candidate: 5,
        candidates: (0..7)
            .map(|i| Candidate {
                text: format!("{i}"),
                comment: String::new(),
            })
            .collect(),
        ..Default::default()
    };
    let snapshot = render_snapshot(
        42,
        3,
        &response,
        &RenderRect {
            valid: true,
            ..Default::default()
        },
    );
    assert_eq!(snapshot.items.len(), 7);
    assert_eq!(snapshot.page_start, 7);
    assert_eq!(snapshot.selected_index, 5);
    assert!(snapshot.can_page_previous && snapshot.can_page_next);
    assert_eq!(snapshot.total_item_count, None);
    assert_eq!(snapshot.sequence, 0);
}

#[test]
fn only_the_answer_true_says_that_compositions_are_shown() {
    assert!(preedit_capability(&Some("true".to_owned())));
    assert!(!preedit_capability(&Some("True".to_owned())));
    assert!(!preedit_capability(&None));
    let mut publisher = RendererPublisher::channel();
    assert!(!publisher.supports_preedit());
    publisher.set_preedit(true);
    assert!(publisher.supports_preedit());
}
