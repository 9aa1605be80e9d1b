use file_per_thread_logger::naming::{sanitized, sink_file_name};
use file_per_thread_logger::render::{banner_text, level_name, render_line, Level};

#[test]
fn sanitizing_keeps_only_safe_characters() {
    assert_eq!(sanitized("worker"), "worker");
    assert_eq!(sanitized("pool:worker{3}"), "poolworker3");
    assert_eq!(sanitized("ThreadId(7)"), "ThreadId7");
    assert_eq!(sanitized("a-b_c"), "a-b_c");
    assert_eq!(sanitized("::{}()"), "");
    assert_eq!(sanitized(""), "");
}

#[test]
fn sink_names_prefer_the_thread_name() {
    assert_eq!(sink_file_name("p-", Some("main"), "ThreadId(1)"), "p-main");
    assert_eq!(sink_file_name("p-", None, "ThreadId(1)"), "p-ThreadId1");
    assert_eq!(sink_file_name("", Some("a:b"), "ThreadId(1)"), "ab");
}

#[test]
fn level_names_are_upper_case() {
    assert_eq!(level_name(Level::Error), "ERROR");
    assert_eq!(level_name(Level::Warn), "WARN");
    assert_eq!(level_name(Level::Info), "INFO");
    assert_eq!(level_name(Level::Debug), "DEBUG");
    assert_eq!(level_name(Level::Trace), "TRACE");
}

#[test]
fn rendered_lines_have_the_canonical_shape() {
    assert_eq!(render_line(Level::Warn, "low disk"), "WARN - low disk\n");
    assert_eq!(render_line(Level::Info, ""), "INFO - \n");
}

#[test]
fn banner_announces_the_prefix() {
    assert_eq!(
        banner_text("my_log_test-"),
        "Set up logging; filename prefix is my_log_test-"
    );
}
