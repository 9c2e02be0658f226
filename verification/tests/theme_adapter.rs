use weasel::message::{ContextToken, RenderItem, RenderSnapshot};
use weasel::theme_adapter::{events, view};
use weasel::theme_api::{same_content, Anchor, UiAction};

#[test]
fn callbacks_keep_original_identity_and_reject_disabled_actions() {
    let mut snapshot = RenderSnapshot {
        session_id: 42,
        revision: 7,
        token: Some(ContextToken {
            context_id: 3,
            ..Default::default()
        }),
        items: vec![
            RenderItem {
                enabled: true,
                ..Default::default()
            },
            RenderItem::default(),
        ],
        ..Default::default()
    };
    let old = events(1, &snapshot);
    snapshot.session_id = 43;
    snapshot.revision = 8;
    snapshot.token.as_mut().unwrap().context_id = 4;
    let new = events(2, &snapshot);
    for refused in [
        UiAction::ItemInvoked(1),
        UiAction::ItemInvoked(2),
        UiAction::NavigateNext,
        UiAction::NavigatePrevious,
    ] {
        assert!(old.send(refused).is_none());
    }
    let (owner, event) = old.send(UiAction::ItemInvoked(0)).unwrap();
    assert_eq!((owner, event.session_id, event.revision), (1, 42, 7));
    assert_eq!(event.token.unwrap().context_id, 3);
    let (owner, event) = new.send(UiAction::ItemInvoked(0)).unwrap();
    assert_eq!((owner, event.session_id, event.revision), (2, 43, 8));
    assert_eq!(event.token.unwrap().context_id, 4);
}

#[test]
fn geometry_changes_do_not_change_content_but_identity_changes_do() {
    let snapshot = RenderSnapshot {
        items: vec![RenderItem::default()],
        ..Default::default()
    };
    let first = view(&snapshot, 1);
    let mut moved = first.clone();
    moved.anchor = Some(Anchor {
        left: 100,
        valid: true,
        ..Default::default()
    });
    assert!(same_content(&first, &moved));
    moved.content_id = 2;
    assert!(!same_content(&first, &moved));
    moved.content_id = 1;
    moved.items[0].primary_text = "changed".into();
    assert!(!same_content(&first, &moved));
}
