use lexi::engine::{
    candidates_from_raw, shared_data_dir, user_data_dir, Call, KeyResult, Outcome, Reply, RimeApi, RimeCandidate, RimeCommit, RimeContext, RimeEngine,
    RimeLibrary, RimeStatus, Step,
};

fn all_fns() -> RimeApi {
    RimeApi {
        setup: true,
        initialize: true,
        finalize: true,
        create_session: true,
        destroy_session: true,
        process_key: true,
        clear_composition: true,
        get_commit: true,
        free_commit: true,
        get_context: true,
        free_context: true,
        select_candidate: true,
        get_status: true,
        free_status: true,
    }
}

fn expect_call(step: Step, expected: Call) {
    match step {
        Step::Call(c) => assert_eq!(c, expected),
        Step::Finish(_) => panic!("expected {:?}", expected),
    }
}

fn expect_error(step: Step, message: &str) {
    match step {
        Step::Finish(Err(e)) => assert_eq!(e, message),
        Step::Finish(Ok(_)) => panic!("expected error {}", message),
        Step::Call(c) => panic!("expected error {}, got call {:?}", message, c),
    }
}

fn started_engine(api: RimeApi) -> RimeEngine {
    let mut e = RimeEngine::new();
    expect_call(e.initialize(), Call::LoadLibrary);
    expect_call(e.resume(Reply::Library(Some(RimeLibrary { api: Some(api) }))), Call::ResolveDirs);
    expect_call(
        e.resume(Reply::Dirs(Ok((r"C:\Program Files\Lexi".to_string(), r"C:\Users\u\AppData\Local".to_string())))),
        Call::CreateDir(r"C:\Users\u\AppData\Local\Lexi\rime".to_string()),
    );
    expect_call(
        e.resume(Reply::DataDirs(Ok(()))),
        Call::Start {
            setup: api.setup,
            initialize: api.initialize,
            shared_data_dir: r"C:\Program Files\Lexi\rime".to_string(),
            user_data_dir: r"C:\Users\u\AppData\Local\Lexi\rime".to_string(),
            app_name: "Lexi".to_string(),
        },
    );
    assert!(matches!(e.resume(Reply::Done), Step::Finish(Ok(Outcome::Initialized))));
    assert!(e.is_initialized());
    e
}

fn context(num: i32) -> RimeContext {
    RimeContext {
        preedit: Some(b"ni hao".to_vec()),
        candidates: Some(vec![
            RimeCandidate { text: Some("你好".as_bytes().to_vec()), comment: None },
            RimeCandidate { text: None, comment: Some(b"skipped".to_vec()) },
            RimeCandidate { text: Some(b"\xff".to_vec()), comment: Some(b"c".to_vec()) },
        ]),
        num_candidates: num,
        page_no: 1,
        is_last_page: 0,
        highlighted_index: 2,
    }
}

#[test]
fn initialize_is_idempotent() {
    let mut e = started_engine(all_fns());
    assert!(matches!(e.initialize(), Step::Finish(Ok(Outcome::Initialized))));
}

#[test]
fn initialize_reports_missing_library() {
    let mut e = RimeEngine::new();
    expect_call(e.initialize(), Call::LoadLibrary);
    expect_error(e.resume(Reply::Library(None)), "Failed to load librime.dll");
    assert!(!e.is_initialized());
    expect_call(e.initialize(), Call::LoadLibrary);
    expect_error(e.resume(Reply::Library(Some(RimeLibrary { api: None }))), "RIME API not available");
    expect_call(e.initialize(), Call::LoadLibrary);
    expect_call(e.resume(Reply::Library(Some(RimeLibrary { api: Some(all_fns()) }))), Call::ResolveDirs);
    expect_error(e.resume(Reply::Dirs(Err("LOCALAPPDATA not set".to_string()))), "LOCALAPPDATA not set");
    assert!(!e.is_initialized());
    expect_call(e.initialize(), Call::LoadLibrary);
    expect_call(e.resume(Reply::Library(Some(RimeLibrary { api: Some(all_fns()) }))), Call::ResolveDirs);
    expect_call(e.resume(Reply::Dirs(Ok((r"D:\app\".to_string(), "E:".to_string())))), Call::CreateDir(r"E:\Lexi\rime".to_string()));
    expect_error(e.resume(Reply::DataDirs(Err("Failed to create user data dir: denied".to_string()))), "Failed to create user data dir: denied");
    assert!(!e.is_initialized());
}

#[test]
fn commands_need_an_initialized_engine() {
    let mut e = RimeEngine::new();
    expect_error(e.process_key(97, 0), "RIME not initialized");
    expect_error(e.get_status(), "RIME not initialized");
}

#[test]
fn session_is_created_once() {
    let mut e = started_engine(all_fns());
    expect_call(e.clear_composition(), Call::CreateSession);
    expect_call(e.resume(Reply::Session(7)), Call::ClearComposition { session: 7 });
    assert!(matches!(e.resume(Reply::Done), Step::Finish(Ok(Outcome::Cleared))));
    assert_eq!(e.session(), Some(7));
    expect_call(e.clear_composition(), Call::ClearComposition { session: 7 });
    assert!(matches!(e.resume(Reply::Done), Step::Finish(Ok(Outcome::Cleared))));
}

#[test]
fn failed_session_creation() {
    let mut e = started_engine(all_fns());
    expect_call(e.process_key(97, 0), Call::CreateSession);
    expect_error(e.resume(Reply::Session(0)), "Failed to create RIME session");
    assert_eq!(e.session(), None);
}

#[test]
fn unprocessed_key_is_not_handled() {
    let mut e = started_engine(all_fns());
    expect_call(e.process_key(97, 4), Call::CreateSession);
    expect_call(e.resume(Reply::Session(3)), Call::ProcessKey { session: 3, keycode: 97, modifiers: 4 });
    assert!(matches!(e.resume(Reply::Flag(false)), Step::Finish(Ok(Outcome::Key(KeyResult::NotHandled)))));
}

#[test]
fn processed_key_reports_context_and_commit() {
    let mut e = started_engine(all_fns());
    expect_call(e.process_key(97, 0), Call::CreateSession);
    expect_call(e.resume(Reply::Session(3)), Call::ProcessKey { session: 3, keycode: 97, modifiers: 0 });
    expect_call(e.resume(Reply::Flag(true)), Call::GetContext { session: 3 });
    expect_call(e.resume(Reply::Context(Some(context(3)))), Call::GetCommit { session: 3 });
    expect_call(e.resume(Reply::Commit(Some(RimeCommit { text: Some(b"ok\xff".to_vec()) }))), Call::FreeContext);
    match e.resume(Reply::Done) {
        Step::Finish(Ok(Outcome::Key(KeyResult::Handled(c)))) => {
            assert_eq!(c.preedit, "ni hao");
            assert_eq!(c.candidates.len(), 2);
            assert_eq!(c.candidates[0].text, "你好");
            assert_eq!(c.candidates[0].comment, "");
            assert_eq!(c.candidates[1].text, "");
            assert_eq!(c.candidates[1].comment, "c");
            assert_eq!(c.page_no, 1);
            assert!(!c.is_last_page);
            assert_eq!(c.highlighted_index, 2);
            assert_eq!(c.commit_text, "ok\u{FFFD}");
        }
        _ => panic!("expected a handled key"),
    }
}

#[test]
fn processed_key_without_context_is_empty() {
    let mut e = started_engine(all_fns());
    expect_call(e.process_key(13, 0), Call::CreateSession);
    expect_call(e.resume(Reply::Session(1)), Call::ProcessKey { session: 1, keycode: 13, modifiers: 0 });
    expect_call(e.resume(Reply::Flag(true)), Call::GetContext { session: 1 });
    match e.resume(Reply::Context(None)) {
        Step::Finish(Ok(Outcome::Key(KeyResult::Handled(c)))) => {
            assert_eq!(c.preedit, "");
            assert!(c.candidates.is_empty());
            assert_eq!(c.page_no, 0);
            assert!(c.is_last_page);
            assert_eq!(c.highlighted_index, 0);
            assert_eq!(c.commit_text, "");
        }
        _ => panic!("expected an empty handled context"),
    }
}

#[test]
fn missing_functions_are_reported() {
    let mut api = all_fns();
    api.process_key = false;
    let mut e = started_engine(api);
    expect_call(e.process_key(97, 0), Call::CreateSession);
    expect_error(e.resume(Reply::Session(2)), "process_key not available");
    let mut api = all_fns();
    api.create_session = false;
    let mut e = started_engine(api);
    expect_error(e.get_status(), "create_session not available");
    let mut api = all_fns();
    api.get_commit = false;
    let mut e = started_engine(api);
    expect_call(e.process_key(97, 0), Call::CreateSession);
    expect_call(e.resume(Reply::Session(2)), Call::ProcessKey { session: 2, keycode: 97, modifiers: 0 });
    expect_call(e.resume(Reply::Flag(true)), Call::GetContext { session: 2 });
    expect_error(e.resume(Reply::Context(Some(context(3)))), "get_commit not available");
}

#[test]
fn selection_rejects_index_off_page() {
    let mut e = started_engine(all_fns());
    expect_call(e.select_candidate(5), Call::CreateSession);
    expect_call(e.resume(Reply::Session(9)), Call::GetContext { session: 9 });
    expect_call(e.resume(Reply::Context(Some(context(3)))), Call::FreeContext);
    expect_error(e.resume(Reply::Done), "Invalid candidate index: 5 (max: 2)");
    expect_call(e.select_candidate(-1), Call::GetContext { session: 9 });
    expect_call(e.resume(Reply::Context(Some(context(0)))), Call::FreeContext);
    expect_error(e.resume(Reply::Done), "Invalid candidate index: -1 (max: -1)");
}

#[test]
fn selection_without_context_fails() {
    let mut e = started_engine(all_fns());
    expect_call(e.select_candidate(0), Call::CreateSession);
    expect_call(e.resume(Reply::Session(9)), Call::GetContext { session: 9 });
    expect_error(e.resume(Reply::Context(None)), "No context available");
}

#[test]
fn selection_reads_the_new_context() {
    let mut e = started_engine(all_fns());
    expect_call(e.select_candidate(1), Call::CreateSession);
    expect_call(e.resume(Reply::Session(9)), Call::GetContext { session: 9 });
    expect_call(e.resume(Reply::Context(Some(context(3)))), Call::FreeContext);
    expect_call(e.resume(Reply::Done), Call::SelectCandidate { session: 9, index: 1 });
    expect_call(e.resume(Reply::Flag(true)), Call::GetContext { session: 9 });
    assert!(matches!(e.resume(Reply::Context(None)), Step::Finish(Ok(Outcome::Selection(None)))));
    expect_call(e.select_candidate(1), Call::GetContext { session: 9 });
    expect_call(e.resume(Reply::Context(Some(context(3)))), Call::FreeContext);
    expect_call(e.resume(Reply::Done), Call::SelectCandidate { session: 9, index: 1 });
    expect_error(e.resume(Reply::Flag(false)), "RIME select_candidate failed");
}

#[test]
fn status_reads_c_booleans() {
    let mut e = started_engine(all_fns());
    expect_call(e.get_status(), Call::CreateSession);
    expect_call(e.resume(Reply::Session(4)), Call::GetStatus { session: 4 });
    expect_call(e.resume(Reply::Status(Some(RimeStatus { is_composing: 1, is_ascii_mode: 0 }))), Call::FreeStatus);
    match e.resume(Reply::Done) {
        Step::Finish(Ok(Outcome::Status(s))) => {
            assert!(s.is_composing);
            assert!(!s.is_ascii_mode);
        }
        _ => panic!("expected a status"),
    }
    expect_call(e.get_status(), Call::GetStatus { session: 4 });
    expect_error(e.resume(Reply::Status(None)), "Failed to get RIME status");
}

#[test]
fn shutdown_destroys_finalizes_and_forgets() {
    let mut e = started_engine(all_fns());
    expect_call(e.clear_composition(), Call::CreateSession);
    expect_call(e.resume(Reply::Session(5)), Call::ClearComposition { session: 5 });
    assert!(matches!(e.resume(Reply::Done), Step::Finish(Ok(Outcome::Cleared))));
    expect_call(e.shutdown(), Call::DestroySession { session: 5 });
    expect_call(e.resume(Reply::Done), Call::Finalize);
    assert!(matches!(e.resume(Reply::Done), Step::Finish(Ok(Outcome::ShutDown))));
    assert!(!e.is_initialized());
    assert_eq!(e.session(), None);
    expect_error(e.clear_composition(), "RIME not initialized");
    let mut fresh = RimeEngine::new();
    assert!(matches!(fresh.shutdown(), Step::Finish(Ok(Outcome::ShutDown))));
}

#[test]
fn raw_context_accessors() {
    let c = context(3);
    assert_eq!(c.preedit(), "ni hao");
    assert_eq!(c.candidates(), vec![("你好".to_string(), String::new()), (String::new(), "c".to_string())]);
    assert_eq!(c.page_no(), 1);
    assert!(!c.is_last_page());
    assert_eq!(c.highlighted_index(), 2);
    let empty = RimeContext { preedit: None, candidates: None, num_candidates: 0, page_no: 0, is_last_page: 1, highlighted_index: 0 };
    assert_eq!(empty.preedit(), "");
    assert!(empty.candidates().is_empty());
    assert!(empty.is_last_page());
    assert_eq!(RimeCommit { text: Some(b"\xffa".to_vec()) }.text(), "");
    assert_eq!(RimeCommit { text: Some(b"abc".to_vec()) }.text(), "abc");
    assert_eq!(RimeCommit { text: None }.text(), "");
}

#[test]
fn key_result_into_context() {
    assert!(KeyResult::NotHandled.into_context().is_none());
}

#[test]
fn failed_command_keeps_the_engine_started() {
    let mut api = all_fns();
    api.process_key = false;
    let mut e = started_engine(api);
    expect_call(e.process_key(97, 0), Call::CreateSession);
    expect_error(e.resume(Reply::Session(5)), "process_key not available");
    assert!(e.is_initialized());
    assert_eq!(e.session(), Some(5));
}

#[test]
fn menu_count_limits_the_candidates() {
    assert!(context(-1).candidates().is_empty());
    assert!(context(0).candidates().is_empty());
    assert_eq!(context(1).candidates(), vec![("你好".to_string(), String::new())]);
    assert_eq!(context(2).candidates(), vec![("你好".to_string(), String::new())]);
    assert_eq!(context(9).candidates().len(), 2);
    let one = RimeContext {
        preedit: None,
        candidates: Some(vec![RimeCandidate { text: Some(b"a".to_vec()), comment: None }]),
        num_candidates: -1,
        page_no: 0,
        is_last_page: 1,
        highlighted_index: 0,
    };
    assert!(one.candidates().is_empty());
    assert!(candidates_from_raw(&one.candidates, -1).is_empty());
}

#[test]
fn data_directories() {
    assert_eq!(shared_data_dir(r"C:\Lexi"), r"C:\Lexi\rime");
    assert_eq!(shared_data_dir(r"C:\Lexi\"), r"C:\Lexi\rime");
    assert_eq!(shared_data_dir("C:/Lexi/"), "C:/Lexi/rime");
    assert_eq!(shared_data_dir(""), "rime");
    assert_eq!(user_data_dir(r"C:\Users\u\AppData\Local"), r"C:\Users\u\AppData\Local\Lexi\rime");
}

#[test]
fn selection_message_for_the_lowest_count() {
    let mut e = started_engine(all_fns());
    expect_call(e.select_candidate(0), Call::CreateSession);
    expect_call(e.resume(Reply::Session(9)), Call::GetContext { session: 9 });
    expect_call(e.resume(Reply::Context(Some(context(i32::MIN)))), Call::FreeContext);
    expect_error(e.resume(Reply::Done), "Invalid candidate index: 0 (max: -2147483649)");
}
