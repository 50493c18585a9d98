use chunirichpresence::logging::{
    candidate_log_paths, crash_log_path, debug_logging_enabled, dll_module_handle, log_file_path,
    log_message, module_path_step, open_append_file_with_fallback, parse_debug_env, runtime_base_dir,
    select_opened_path, timestamp_string, write_crash_log, LocalTime, ModulePathStep, MODULE_PATH_BUFFER_LEN,
};
use std::path::PathBuf;

#[test]
fn words_turn_the_log_on() {
    for word in ["1", "true", " TRUE\n", "Yes", "on"] {
        assert!(parse_debug_env(word), "{:?}", word);
    }
    for word in ["", "0", "11", "off", "t", "o n"] {
        assert!(!parse_debug_env(word), "{:?}", word);
    }
    assert!(debug_logging_enabled(Some("on")));
    assert!(!debug_logging_enabled(Some("no")));
    assert!(!debug_logging_enabled(None));
}

#[test]
fn zero_is_no_module() {
    assert_eq!(dll_module_handle(0), None);
    assert_eq!(dll_module_handle(-5), Some(-5));
}

#[test]
fn buffer_for_a_module_path_grows_to_its_limit() {
    assert_eq!(module_path_step(0, 260), ModulePathStep::Unknown);
    assert_eq!(module_path_step(258, 260), ModulePathStep::Found { len: 258 });
    assert_eq!(module_path_step(259, 260), ModulePathStep::Grow { buffer_len: 520 });
    let mut len = MODULE_PATH_BUFFER_LEN;
    let mut steps = 0;
    while let ModulePathStep::Grow { buffer_len } = module_path_step(len, len) {
        len = buffer_len;
        steps += 1;
    }
    assert_eq!((len, steps), (33280, 7));
}

#[test]
fn base_directory_has_an_order() {
    let a = || Some(PathBuf::from("a"));
    let b = || Some(PathBuf::from("b"));
    let c = || Some(PathBuf::from("c"));
    assert_eq!(runtime_base_dir(a(), b(), c()), PathBuf::from("a"));
    assert_eq!(runtime_base_dir(None, b(), c()), PathBuf::from("b"));
    assert_eq!(runtime_base_dir(None, None, c()), PathBuf::from("c"));
    assert_eq!(runtime_base_dir(None, None, None), PathBuf::from("."));
}

#[test]
fn log_is_in_the_base_directory_unless_selected() {
    let base = PathBuf::from("base");
    assert_eq!(log_file_path(None, &base), PathBuf::from("base/chunirichpresence.log"));
    assert_eq!(crash_log_path(None, &base), PathBuf::from("base/chunirichpresence_crash.log"));
    let deep = PathBuf::from("/games/chunithm/bin/");
    assert_eq!(log_file_path(None, &deep), PathBuf::from("/games/chunithm/bin/chunirichpresence.log"));
    assert_eq!(log_file_path(Some(PathBuf::from("x.log")), &base), PathBuf::from("x.log"));
    assert_eq!(crash_log_path(Some(PathBuf::from("y.log")), &base), PathBuf::from("y.log"));
}

#[test]
fn log_starts_in_the_first_known_directory() {
    let dir = |name: &str| Some(PathBuf::from(name));
    let log = |base: PathBuf| log_file_path(None, &base);
    assert_eq!(
        log(runtime_base_dir(dir("dll"), dir("exe"), dir("cwd"))),
        PathBuf::from("dll/chunirichpresence.log")
    );
    assert_eq!(
        log(runtime_base_dir(None, dir("exe"), dir("cwd"))),
        PathBuf::from("exe/chunirichpresence.log")
    );
    assert_eq!(
        log(runtime_base_dir(None, None, dir("cwd"))),
        PathBuf::from("cwd/chunirichpresence.log")
    );
    assert_eq!(
        log(runtime_base_dir(None, None, None)),
        PathBuf::from("./chunirichpresence.log")
    );
}

#[test]
fn each_candidate_is_tried_once() {
    let dirs = vec![
        Some(PathBuf::from("game")),
        None,
        Some(PathBuf::from("game/./")),
        Some(PathBuf::from("tmp")),
    ];
    assert_eq!(
        candidate_log_paths(dirs, "a.log"),
        vec![PathBuf::from("game/a.log"), PathBuf::from("tmp/a.log")]
    );
    assert_eq!(candidate_log_paths(vec![None, None], "a.log"), vec![PathBuf::from("a.log")]);
}

#[test]
fn selected_file_has_no_fallback() {
    let candidates = vec![PathBuf::from("a"), PathBuf::from("b")];
    let selected = PathBuf::from("s");
    assert_eq!(open_append_file_with_fallback(Some(&selected), &candidates, 0), Some(&selected));
    assert_eq!(open_append_file_with_fallback(Some(&selected), &candidates, 1), None);
    assert_eq!(open_append_file_with_fallback(None, &candidates, 1), Some(&candidates[1]));
    assert_eq!(open_append_file_with_fallback(None, &candidates, 2), None);
}

#[test]
fn first_opened_file_stays_selected() {
    let base = PathBuf::from("base");
    let mut selected = None;
    assert_eq!(log_file_path(selected.clone(), &base), PathBuf::from("base/chunirichpresence.log"));
    for opened in ["first.log", "second.log", "third.log"] {
        selected = select_opened_path(selected, PathBuf::from(opened));
        assert_eq!(log_file_path(selected.clone(), &base), PathBuf::from("first.log"));
        assert_eq!(
            log_file_path(selected.clone(), &PathBuf::from("elsewhere")),
            PathBuf::from("first.log")
        );
    }
}

#[test]
fn log_lines_carry_the_time() {
    let time = LocalTime {
        year: 2026,
        month: 3,
        day: 9,
        hour: 4,
        minute: 5,
        second: 59,
        milliseconds: 7,
    };
    assert_eq!(timestamp_string(&time), "2026-03-09 04:05:59.007");
    assert_eq!(
        log_message(true, &time, "hello").as_deref(),
        Some("[2026-03-09 04:05:59.007][ChuniRichPresence] hello")
    );
    assert_eq!(
        write_crash_log(true, &time, "boom").as_deref(),
        Some("[2026-03-09 04:05:59.007][ChuniRichPresence] boom")
    );
    assert_eq!(log_message(false, &time, "hello"), None);
    assert_eq!(write_crash_log(false, &time, "boom"), None);
}
