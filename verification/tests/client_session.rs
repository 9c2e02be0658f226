use weasel::client_session::{
    host_response, layout_matches_pending, reset_anchor_for_new_composition,
    InputModeIndicatorPolicy,
};
use weasel::message::{KeyEventResponse, RenderRect};
use weasel::renderer_bridge::render_snapshot;

#[test]
fn new_composition_waits_for_its_own_layout() {
    let old = KeyEventResponse::default();
    let next = KeyEventResponse {
        composing: true,
        state_updated: true,
        external_preedit: true,
        composition: "nihao".into(),
        ..Default::default()
    };
    let mut anchor = RenderRect {
        left: 10,
        right: 11,
        top: 20,
        bottom: 40,
        valid: true,
    };
    assert!(reset_anchor_for_new_composition(&old, &next, &mut anchor));
    assert!(!anchor.valid);
    assert!(!render_snapshot(1, 1, &next, &anchor).visible);
    anchor.valid = true;
    assert!(!reset_anchor_for_new_composition(&next, &next, &mut anchor));
    assert!(anchor.valid);
    assert!(render_snapshot(1, 1, &next, &anchor).visible);
}

#[test]
fn layout_revision_rejects_old_probes_but_accepts_legacy_tip() {
    assert!(!layout_matches_pending(Some(0), Some(5), Some(3)));
    assert!(!layout_matches_pending(Some(4), Some(5), Some(3)));
    assert!(!layout_matches_pending(Some(2), None, Some(3)));
    assert!(layout_matches_pending(Some(5), Some(5), Some(3)));
    assert!(layout_matches_pending(None, Some(5), Some(3)));
}

#[test]
fn external_preedit_keeps_host_composition_and_commit_but_routes_text_to_renderer() {
    let response = KeyEventResponse {
        external_preedit: true,
        composing: true,
        state_updated: true,
        composition: "nihao".into(),
        composition_cursor: 2,
        commit_text: "前文".into(),
        ..Default::default()
    };
    let anchor = RenderRect {
        left: 10,
        right: 10,
        top: 20,
        bottom: 40,
        valid: true,
    };
    let snapshot = render_snapshot(1, 2, &response, &anchor);
    assert!(snapshot.visible);
    assert_eq!(snapshot.preedit.unwrap().text, "nihao");
    let host = host_response(response.clone());
    assert!(host.composition.is_empty());
    assert_eq!(host.composition_cursor, 0);
    assert!(host.composing && host.state_updated);
    assert_eq!(host.commit_text, "前文");
    let inline = KeyEventResponse {
        external_preedit: false,
        ..response
    };
    assert_eq!(host_response(inline.clone()), inline);
    assert!(render_snapshot(1, 3, &inline, &anchor).preedit.is_none());
}

#[test]
fn unknown_indicator_policies_count_as_switch_only() {
    assert_eq!(
        InputModeIndicatorPolicy::from_settings(Some("focus_and_switch")),
        InputModeIndicatorPolicy::FocusAndSwitch
    );
    assert_eq!(
        InputModeIndicatorPolicy::from_settings(Some("never")),
        InputModeIndicatorPolicy::Never
    );
    for other in [None, Some("switch_only"), Some("always")] {
        assert_eq!(
            InputModeIndicatorPolicy::from_settings(other),
            InputModeIndicatorPolicy::SwitchOnly
        );
    }
}
