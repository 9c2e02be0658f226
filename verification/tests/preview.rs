use weasel::preview::{parse_args, synthetic_snapshot};
use weasel::presentation::{is_view_visible, is_visible};
use weasel::state::validate;
use weasel::theme_adapter::view;
use weasel::theme_api::UiMode;

#[test]
fn arguments_are_strict() {
    let parse = |args: &[&str]| parse_args(&args.iter().map(|arg| (*arg).to_owned()).collect());
    assert_eq!(parse(&[]).unwrap(), UiMode::Live);
    assert_eq!(parse(&["--preview"]).unwrap(), UiMode::Preview);
    assert!(parse(&["--preview", "--preedit"]).is_err());
    assert!(parse(&["--preedit"]).is_err());
    assert!(parse(&["--preview", "--preview"]).is_err());
    assert!(parse(&["--preveiw"]).is_err());
    assert!(parse(&["--preview", "ten"]).is_err());
}

#[test]
fn synthetic_snapshot_is_valid_and_visible() {
    let snapshot = synthetic_snapshot();
    validate(&snapshot, None).unwrap();
    assert!(is_view_visible(&view(&snapshot, 1)));
    assert!(is_visible(&snapshot));
    assert!(snapshot.can_page_previous && snapshot.can_page_next);
    assert_eq!(snapshot.selected_index, 0);
    assert!((snapshot.selected_index as usize) < snapshot.items.len());
}

#[test]
fn wrong_arguments_are_answered_with_the_usage() {
    assert_eq!(
        parse_args(&vec!["-h".to_owned()]),
        Err("usage: weasel-renderer.exe [--preview]".to_owned())
    );
}
