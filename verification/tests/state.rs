use weasel::message::{ContextToken, RenderItem, RenderPreedit, RenderRect, RenderSnapshot};
use weasel::state::{same_content, validate, Mailbox};

fn snapshot() -> RenderSnapshot {
    RenderSnapshot {
        visible: true,
        sequence: 1,
        ..Default::default()
    }
}

fn versioned(
    sequence: u64,
    session: u64,
    context: u64,
    generation: u64,
    revision: u64,
) -> RenderSnapshot {
    RenderSnapshot {
        sequence,
        session_id: session,
        token: Some(ContextToken {
            context_id: context,
            connection_epoch: 1,
            generation,
        }),
        revision,
        ..snapshot()
    }
}

#[test]
fn consumed_snapshots_still_reject_lower_or_equal_sequence() {
    let mut mailbox = Mailbox::default();
    assert!(mailbox.render(1, versioned(10, 1, 1, 3, 10)));
    mailbox.take_pending();
    assert!(!mailbox.render(1, versioned(9, 2, 2, 100, 100)));
    assert!(!mailbox.render(1, versioned(10, 1, 1, 4, 100)));
    assert!(!mailbox.render(1, versioned(0, 1, 1, 4, 100)));
    assert!(mailbox.pending.is_none());
    assert!(mailbox.render(1, versioned(11, 1, 1, 3, 10))); // Layout-only update.
    assert!(mailbox.render(1, versioned(12, 1, 1, 1, 1))); // Publisher is authoritative.
}

#[test]
fn show_a_hide_b_and_reenter_a_with_unchanged_generation() {
    let mut mailbox = Mailbox::default();
    assert!(mailbox.render(1, versioned(1, 1, 1, 1, 5)));
    let mut hidden = versioned(2, 2, 2, 1, 1);
    hidden.visible = false;
    assert!(mailbox.render(1, hidden.clone()));
    assert!(!mailbox.take_pending().unwrap().1.unwrap().visible);
    assert!(mailbox.render(1, versioned(3, 1, 1, 1, 6)));
    assert!(!mailbox.render(1, hidden));
    let current = mailbox.take_pending().unwrap().1.unwrap();
    assert!(current.visible);
    assert_eq!(current.session_id, 1);
    assert_eq!(current.token.unwrap().generation, 1);
}

#[test]
fn cancel_hide_accepts_new_generation_and_rejects_replayed_show() {
    let mut mailbox = Mailbox::default();
    assert!(mailbox.render(1, versioned(1, 1, 1, 3, 10)));
    let mut hidden = versioned(2, 1, 1, 4, 11);
    hidden.visible = false;
    assert!(mailbox.render(1, hidden));
    assert!(!mailbox.render(1, versioned(1, 1, 1, 3, 10)));
    assert!(!mailbox.render(1, versioned(2, 1, 1, 4, 12)));
    assert!(
        !mailbox
            .pending
            .as_ref()
            .unwrap()
            .1
            .as_ref()
            .unwrap()
            .visible
    );
    assert!(mailbox.disconnect(1));
}

#[test]
fn new_owner_resets_sequence_and_can_start_with_hide() {
    let mut mailbox = Mailbox::default();
    assert!(!mailbox.render(1, versioned(0, 1, 1, 1, 1)));
    assert!(mailbox.render(1, versioned(u64::MAX, 1, 1, 1, 1)));
    let hidden = RenderSnapshot {
        visible: false,
        ..snapshot()
    };
    assert!(mailbox.render(2, hidden));
    assert_eq!(mailbox.latest_sequence(), 1);
    assert!(!mailbox.disconnect(1));
    assert!(!mailbox.render(1, versioned(u64::MAX, 1, 1, 1, 1)));
    assert!(mailbox.disconnect(2));
    assert!(!mailbox.render(2, versioned(2, 1, 1, 1, 1)));
}

#[test]
fn ownership_and_disconnect_are_ordered() {
    let mut mailbox = Mailbox::default();
    assert!(mailbox.render(1, snapshot()));
    assert!(mailbox.render(2, snapshot()));
    assert!(!mailbox.disconnect(1));
    assert!(!mailbox.render(1, RenderSnapshot::default()));
    assert!(!mailbox.render(1, snapshot()));
    assert_eq!(mailbox.owner, Some(2));
    assert!(mailbox.disconnect(2));
    assert!(mailbox.pending.as_ref().unwrap().1.is_none());
}

#[test]
fn latest_snapshot_replaces_backlog() {
    let mut mailbox = Mailbox::default();
    let mut wakes = 0;
    for revision in 0..10000 {
        mailbox.render(
            1,
            RenderSnapshot {
                revision,
                sequence: revision + 1,
                ..snapshot()
            },
        );
        wakes += usize::from(mailbox.schedule_wake());
    }
    assert_eq!(wakes, 1);
    assert_eq!(mailbox.take_pending().unwrap().1.unwrap().revision, 9999);
    assert!(mailbox.pending.is_none());
    assert!(mailbox.render(
        1,
        RenderSnapshot {
            revision: 10000,
            sequence: 10001,
            ..snapshot()
        }
    ));
    assert!(mailbox.schedule_wake());
}

#[test]
fn disconnect_hide_is_replaced_by_new_owner_and_close_is_terminal() {
    let mut mailbox = Mailbox::default();
    mailbox.render(1, snapshot());
    mailbox.disconnect(1);
    mailbox.render(2, snapshot());
    let (owner, pending) = mailbox.take_pending().unwrap();
    assert_eq!(owner, 2);
    assert!(pending.unwrap().visible);
    mailbox.closed = true;
    assert!(!mailbox.render(3, snapshot()));
    assert!(!mailbox.disconnect(2));
}

#[test]
fn aggregate_text_and_page_bounds_are_checked() {
    let mut s = snapshot();
    s.items = vec![
        RenderItem {
            primary_text: "x".repeat(4096),
            ..Default::default()
        };
        17
    ];
    assert!(validate(&s, None).is_err());
    s.items.truncate(1);
    s.page_start = u32::MAX;
    assert!(validate(&s, None).is_err());
    s.page_start = 10;
    s.total_item_count = Some(10);
    assert!(validate(&s, None).is_err());
    s.total_item_count = Some(11);
    assert!(validate(&s, None).is_ok());
}

#[test]
fn rejects_bad_payloads() {
    let mut s = snapshot();
    s.items = vec![RenderItem::default(); 257];
    assert!(validate(&s, None).is_err());
    s.items.truncate(1);
    s.items[0].primary_text = "x".repeat(4097);
    assert!(validate(&s, None).is_err());
    s.items[0].primary_text = "\0".into();
    assert!(validate(&s, None).is_err());
    s.items[0].primary_text.clear();
    s.selected_index = 1;
    assert!(validate(&s, None).is_err());
    s.selected_index = 0;
    s.anchor = Some(RenderRect {
        valid: true,
        left: i32::MIN,
        ..Default::default()
    });
    assert!(validate(&s, None).is_err());
    s.anchor = None;
    assert!(validate(&s, None).is_ok());
}

#[test]
fn layout_only_retains_content_but_identity_changes_do_not() {
    let a = snapshot();
    let mut b = a.clone();
    b.anchor = Some(Default::default());
    b.sequence += 1;
    assert!(same_content(&a, &b));
    b.revision += 1;
    assert!(!same_content(&a, &b));
}

#[test]
fn accepts_256_candidates_and_last_selection_but_rejects_257() {
    let mut s = snapshot();
    s.items = vec![RenderItem::default(); 256];
    s.selected_index = 255;
    s.total_item_count = Some(256);
    assert!(validate(&s, None).is_ok());
    s.selected_index = 256;
    assert!(validate(&s, None).is_err());
    s.selected_index = 255;
    s.items.push(Default::default());
    s.total_item_count = Some(257);
    assert!(validate(&s, None).is_err());
}

#[test]
fn unknown_total_is_preserved_and_distinct_from_known_zero() {
    let mut s = snapshot();
    s.items.push(Default::default());
    s.page_start = 10;
    assert_eq!(s.total_item_count, None);
    assert!(validate(&s, None).is_ok());
    let mut mailbox = Mailbox::default();
    assert!(mailbox.render(1, s.clone()));
    assert_eq!(
        mailbox.take_pending().unwrap().1.unwrap().total_item_count,
        None
    );
    s.total_item_count = Some(0);
    assert!(validate(&s, None).is_err());
    s.items.clear();
    assert!(validate(&s, None).is_err());
    s.page_start = 0;
    assert!(validate(&s, None).is_ok());
}

#[test]
fn each_fault_of_a_frame_has_its_own_text() {
    let mut s = snapshot();
    s.items = vec![RenderItem::default(); 257];
    let many = validate(&s, None).unwrap_err();
    s.items.truncate(1);
    s.items[0].primary_text = "\0".into();
    let nul = validate(&s, None).unwrap_err();
    assert_ne!(many, nul);
    s.items[0].primary_text = "ok".into();
    assert_eq!(validate(&s, None), Ok(()));
}

#[test]
fn a_refused_preedit_is_the_first_fault_of_a_frame() {
    let refused = Some("invalid preedit".to_owned());
    let mut s = snapshot();
    s.preedit = Some(RenderPreedit { text: "ni".into(), cursor_utf16: 3 });
    assert_eq!(
        validate(&s, refused.clone()),
        Err("invalid preedit".into())
    );
    s.items = vec![RenderItem::default(); 257];
    assert_eq!(
        validate(&s, refused.clone()),
        Err("invalid preedit".into())
    );
    s.preedit = None;
    assert_eq!(
        validate(&s, refused.clone()),
        Err("snapshot exceeds 256 items".into())
    );
    s.items.clear();
    assert_eq!(validate(&s, refused), Ok(()));
}

#[test]
fn a_sealed_mailbox_keeps_what_waits_and_takes_nothing_more() {
    let mut mailbox = Mailbox::default();
    assert!(mailbox.render(1, snapshot()));
    assert!(mailbox.is_owner(1));
    assert_eq!(mailbox.shown_owner(), Some(1));
    mailbox.seal();
    assert!(!mailbox.is_owner(1));
    assert!(!mailbox.render(2, snapshot()));
    assert!(mailbox.take_pending().is_some());
    mailbox.close();
    assert!(mailbox.take_pending().is_none());
}

#[test]
fn a_disconnected_connection_cannot_reclaim_the_window() {
    let mut mailbox = Mailbox::default();
    assert!(mailbox.render(3, versioned(1, 1, 1, 1, 1)));
    assert!(mailbox.disconnect(3));
    assert!(!mailbox.render(3, versioned(9, 1, 1, 1, 2)));
    mailbox.take_pending();
    mailbox.schedule_wake();
    assert!(!mailbox.render(3, versioned(10, 1, 1, 1, 3)));
    assert!(mailbox.render(4, versioned(1, 1, 1, 1, 1)));
    assert!(!mailbox.is_closed());
    mailbox.seal();
    assert!(mailbox.is_closed());
    assert!(mailbox.pending.is_some());
    assert!(!mailbox.disconnect(4));
    assert!(!mailbox.render(5, versioned(1, 1, 1, 1, 1)));
}
