use weasel::librime::api::{
    struct_data_size, table_bytes, RimeFunction, RimeLibraryApi, RimeTable, TableEntry,
};
use weasel::librime::{
    candidate_count, context_action, deployed, finish, new_session, process_key,
    process_renderer_event, read_response, resume, ContextReading, Exchange, LibraryLoad, Readings,
    RimeLibrary, SessionCall, SessionStep, StatusReading, MAX_CANDIDATES,
};
use weasel::message::{
    Candidate, ContextAction, KeyEvent, RendererEvent, RendererEventAction,
};

const FUNCTIONS: [RimeFunction; 20] = [
    RimeFunction::Setup,
    RimeFunction::Initialize,
    RimeFunction::Finalize,
    RimeFunction::DeployerInitialize,
    RimeFunction::Deploy,
    RimeFunction::CreateSession,
    RimeFunction::DestroySession,
    RimeFunction::ProcessKey,
    RimeFunction::CommitComposition,
    RimeFunction::ClearComposition,
    RimeFunction::GetCommit,
    RimeFunction::FreeCommit,
    RimeFunction::GetContext,
    RimeFunction::FreeContext,
    RimeFunction::GetStatus,
    RimeFunction::FreeStatus,
    RimeFunction::GetOption,
    RimeFunction::SetOption,
    RimeFunction::SelectCandidateOnCurrentPage,
    RimeFunction::ChangePage,
];

/// The table: a size of four bytes, four unused, and then eight for each function.
const TABLE_SIZE: usize = 8 + 8 * 20;

fn end_of(function: RimeFunction) -> usize {
    let place = FUNCTIONS.iter().position(|f| *f == function).unwrap();
    8 + 8 * (place + 1)
}

fn table(set: &[RimeFunction]) -> RimeTable {
    RimeTable {
        data_size: struct_data_size(TABLE_SIZE),
        entries: FUNCTIONS
            .iter()
            .map(|function| TableEntry {
                function: *function,
                end: end_of(*function),
                set: set.contains(function),
            })
            .collect(),
    }
}

fn deploy_table() -> RimeTable {
    table(&[
        RimeFunction::Setup,
        RimeFunction::DeployerInitialize,
        RimeFunction::Finalize,
        RimeFunction::Deploy,
        RimeFunction::ChangePage,
    ])
}

#[test]
fn older_table_does_not_expose_fields_beyond_its_version() {
    let mut table = deploy_table();
    table.data_size = (end_of(RimeFunction::ChangePage) - 8 - 4) as i32;
    let api = RimeLibraryApi::load(Some(table), true).unwrap();
    assert!(api.has(RimeFunction::Deploy));
    assert!(!api.has(RimeFunction::ChangePage));
}

#[test]
fn future_table_versions_are_accepted() {
    let mut table = deploy_table();
    table.data_size += 128;
    let api = RimeLibraryApi::load(Some(table), true).unwrap();
    assert!(api.has(RimeFunction::ChangePage));
}

#[test]
fn missing_finalize_or_initialize_is_rejected_upfront() {
    let without = table(&[
        RimeFunction::Setup,
        RimeFunction::DeployerInitialize,
        RimeFunction::Deploy,
        RimeFunction::ChangePage,
    ]);
    let error = RimeLibraryApi::load(Some(without), true).err().unwrap();
    assert!(error.contains("finalize"));
    let error = RimeLibraryApi::load(Some(deploy_table()), false)
        .err()
        .unwrap();
    assert!(error.contains("initialize"));
}

#[test]
fn header_only_and_negative_sizes_are_rejected_without_reading_fields() {
    for size in [-1i32, 0, 1] {
        let mut all = table(&FUNCTIONS);
        all.data_size = size;
        assert!(RimeLibraryApi::load(Some(all), false).is_err());
    }
    assert_eq!(
        RimeLibraryApi::load(None, false).unwrap_err(),
        "librime returned a null API table"
    );
    assert_eq!(table_bytes(-1).unwrap_err(), "invalid librime API data_size");
    assert_eq!(table_bytes(12), Ok(16));
}

#[test]
fn partial_function_pointer_is_not_available() {
    let mut all = table(&FUNCTIONS);
    all.data_size = (end_of(RimeFunction::Setup) - 4 - 1) as i32;
    let error = RimeLibraryApi::load(Some(all), false).err().unwrap();
    assert!(error.contains("setup"));
}

#[test]
fn loading_reports_where_it_stopped() {
    let failed = RimeLibrary::load(LibraryLoad::NoSymbol {
        path: "rime.dll".into(),
        module: 7,
    })
    .unwrap_err();
    assert_eq!(failed.message, "rime_get_api was not found in rime.dll");
    assert_eq!(failed.unload, Some(7));
    let failed = RimeLibrary::load(LibraryLoad::NotLoaded {
        path: "rime.dll".into(),
        error: "126".into(),
    })
    .unwrap_err();
    assert_eq!(failed.message, "LoadLibraryExW(rime.dll) failed: 126");
    let library = RimeLibrary::load(LibraryLoad::Loaded { module: 1, api: 2 }).unwrap();
    assert_eq!((library.module(), library.api()), (1, 2));
    assert_eq!(deployed(1), Ok(()));
    assert_eq!(deployed(0).unwrap_err(), "librime deploy returned failure");
    assert_eq!(new_session(5), Ok(5));
    assert_eq!(
        new_session(0).unwrap_err(),
        "librime create_session returned zero"
    );
}

fn context() -> ContextReading {
    ContextReading {
        page_no: 2,
        page_size: 5,
        is_last_page: 0,
        num_candidates: 2,
        highlighted_candidate_index: 1,
        composition_length: 4,
        preedit: Some("你a🙂b".to_owned()),
        cursor_pos: 8,
        candidates: Some(vec![
            Candidate {
                text: "你".into(),
                comment: "ni".into(),
            },
            Candidate {
                text: "泥".into(),
                comment: String::new(),
            },
        ]),
    }
}

#[test]
fn malformed_count_shows_no_candidates() {
    let mut invalid = context();
    invalid.num_candidates = i32::MAX;
    let response = read_response(
        false,
        Readings {
            commit: Some("committed".into()),
            context: Some(invalid),
            status: Some(StatusReading {
                is_composing: 0,
                is_ascii_mode: 0,
            }),
        },
    );
    assert_eq!(response.commit_text, "committed");
    assert!(response.candidates.is_empty());
}

#[test]
fn failed_getters_update_nothing() {
    let response = read_response(
        false,
        Readings {
            commit: None,
            context: None,
            status: None,
        },
    );
    assert!(!response.state_updated);
}

#[test]
fn a_page_is_read_with_its_cursor_in_utf16() {
    let response = read_response(
        true,
        Readings {
            commit: None,
            context: Some(context()),
            status: Some(StatusReading {
                is_composing: 1,
                is_ascii_mode: 1,
            }),
        },
    );
    assert!(response.eaten && response.state_updated && response.composing);
    assert_eq!(response.page_start, 10);
    assert!(response.can_page_previous && response.can_page_next);
    assert_eq!(response.selected_candidate, 1);
    assert_eq!(response.candidates[1].text, "泥");
    assert_eq!(response.composition, "你a🙂b");
    assert_eq!(response.composition_cursor, 4);
    assert_eq!(response.ascii_mode, Some(true));
    let mut within = context();
    within.cursor_pos = 6;
    within.highlighted_candidate_index = 2;
    let response = read_response(
        true,
        Readings {
            commit: None,
            context: Some(within),
            status: None,
        },
    );
    assert_eq!(response.composition_cursor, 2);
    assert_eq!(response.selected_candidate, 0);
}

#[test]
fn candidate_count_has_explicit_bounds() {
    assert_eq!(candidate_count(-1), None);
    assert_eq!(candidate_count(0), Some(0));
    assert_eq!(candidate_count(MAX_CANDIDATES as i32), Some(MAX_CANDIDATES));
    assert_eq!(candidate_count(MAX_CANDIDATES as i32 + 1), None);
}

fn api(functions: &[RimeFunction]) -> RimeLibraryApi {
    RimeLibraryApi {
        functions: functions.to_vec(),
    }
}

#[test]
fn untranslated_and_test_keys_never_enter_librime() {
    let api = api(&[RimeFunction::ProcessKey]);
    let untranslated = process_key(
        &api,
        &KeyEvent {
            virtual_key: 0x41,
            ..Default::default()
        },
    );
    assert!(matches!(untranslated, SessionStep::Done(ref r) if !r.eaten));
    let tried = process_key(
        &api,
        &KeyEvent {
            keycode: Some(97),
            test: true,
            ..Default::default()
        },
    );
    assert!(matches!(tried, SessionStep::Done(ref r) if !r.eaten));
    match process_key(
        &api,
        &KeyEvent {
            keycode: Some(97),
            ..Default::default()
        },
    ) {
        SessionStep::Call(SessionCall::ProcessKey { keycode, .. }, exchange) => {
            assert_eq!(keycode, 97);
            assert!(matches!(
                resume(exchange, 1),
                SessionStep::Read { eaten: true, .. }
            ));
        }
        _ => panic!("the key enters librime"),
    }
}

#[test]
fn toggle_finishes_preedit_before_switch_and_reports_engine_mode() {
    let api = api(&[
        RimeFunction::GetOption,
        RimeFunction::SetOption,
        RimeFunction::CommitComposition,
    ]);
    let mut ascii = false;
    let mut calls = Vec::new();
    let mut run = |action| {
        let mut step = context_action(&api, action);
        loop {
            step = match step {
                SessionStep::Call(call, exchange) => {
                    let returned = match call {
                        SessionCall::CommitComposition => {
                            calls.push("commit");
                            1
                        }
                        SessionCall::GetAscii => ascii as i32,
                        SessionCall::SetAscii(value) => {
                            calls.push("set");
                            ascii = value;
                            1
                        }
                        _ => 0,
                    };
                    resume(exchange, returned)
                }
                SessionStep::Read { eaten, keep_commit } => SessionStep::Done(finish(
                    eaten,
                    keep_commit,
                    Readings {
                        commit: None,
                        context: None,
                        status: Some(StatusReading {
                            is_composing: 0,
                            is_ascii_mode: ascii as i32,
                        }),
                    },
                )),
                SessionStep::Done(response) => return response,
            }
        }
    };
    let focus = run(ContextAction::Focus);
    assert_eq!(focus.ascii_mode, Some(false));
    assert!(!focus.state_updated);
    assert!(focus.commit_text.is_empty());
    assert_eq!(run(ContextAction::ToggleAscii).ascii_mode, Some(true));
    assert_eq!(run(ContextAction::ToggleAscii).ascii_mode, Some(false));
    assert_eq!(calls, ["commit", "set", "commit", "set"]);
}

#[test]
fn clicks_become_calls() {
    let api = api(&[
        RimeFunction::SelectCandidateOnCurrentPage,
        RimeFunction::ChangePage,
        RimeFunction::ClearComposition,
    ]);
    let event = |action, item_index| RendererEvent {
        action,
        item_index,
        ..Default::default()
    };
    assert!(matches!(
        process_renderer_event(&api, &event(RendererEventAction::ItemInvoked, 3)),
        SessionStep::Call(SessionCall::SelectCandidate(3), Exchange::Acted)
    ));
    assert!(matches!(
        process_renderer_event(&api, &event(RendererEventAction::ItemInvoked, 256)),
        SessionStep::Read { eaten: false, .. }
    ));
    assert!(matches!(
        process_renderer_event(&api, &event(RendererEventAction::NavigatePrevious, 0)),
        SessionStep::Call(SessionCall::ChangePage { backward: true }, Exchange::Acted)
    ));
    match process_renderer_event(&api, &event(RendererEventAction::OpenEmojiPanel, 0)) {
        SessionStep::Call(SessionCall::ClearComposition, exchange) => {
            assert!(
                matches!(resume(exchange, 1), SessionStep::Done(ref r) if r.open_emoji_panel)
            );
        }
        _ => panic!("the composition goes before the panel opens"),
    }
}
