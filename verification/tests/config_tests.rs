use ccw::config::{load, Args, Config};
use ccw::error::Error;
use ccw::file::{allowed_extension, read, read_files, FileEntry};
use ccw::mode::Mode;

fn no_args() -> Args {
    Args {
        dir: None,
        end_line: None,
        file: None,
        keep_alive: None,
        max_attempts: None,
        mode: None,
        model: None,
        question: None,
        skip_larger: None,
        start_line: None,
        timeout: None,
    }
}

fn with_range(start_line: Option<u32>, end_line: Option<u32>) -> Config {
    let mut args = no_args();
    args.start_line = start_line;
    args.end_line = end_line;
    load(args, Some("http://h".to_string())).unwrap()
}

#[test]
fn new_keeps_every_part() {
    let c = Config::new(
        Some("src".to_string()),
        Some(20),
        Some("main.rs".to_string()),
        60,
        5,
        Mode::Explain,
        Some("llama3".to_string()),
        "http://localhost:11434".to_string(),
        Some("why?".to_string()),
        Some(8192),
        Some(10),
        45,
    );
    assert_eq!(c.dir.as_deref(), Some("src"));
    assert_eq!(c.end_line, Some(20));
    assert_eq!(c.file.as_deref(), Some("main.rs"));
    assert_eq!(c.keep_alive, 60);
    assert_eq!(c.max_attempts, 5);
    assert_eq!(c.mode, Mode::Explain);
    assert_eq!(c.model.as_deref(), Some("llama3"));
    assert_eq!(c.ollama_host, "http://localhost:11434");
    assert_eq!(c.question.as_deref(), Some("why?"));
    assert_eq!(c.skip_larger, Some(8192));
    assert_eq!(c.start_line, Some(10));
    assert_eq!(c.timeout, 45);
}

#[test]
fn load_fills_in_the_defaults() {
    let c = load(no_args(), Some("http://localhost:11434".to_string())).unwrap();
    assert_eq!(c.dir, None);
    assert_eq!(c.end_line, None);
    assert_eq!(c.file, None);
    assert_eq!(c.keep_alive, 0);
    assert_eq!(c.max_attempts, 3);
    assert_eq!(c.mode, Mode::Checker);
    assert_eq!(c.model, None);
    assert_eq!(c.ollama_host, "http://localhost:11434");
    assert_eq!(c.question, None);
    assert_eq!(c.skip_larger, None);
    assert_eq!(c.start_line, None);
    assert_eq!(c.timeout, 300);
}

#[test]
fn load_keeps_what_the_operator_gave() {
    let args = Args {
        dir: Some("lib".to_string()),
        end_line: Some(9),
        file: Some("a.rs".to_string()),
        keep_alive: Some(600),
        max_attempts: Some(0),
        mode: Some("Commit_Summary".to_string()),
        model: Some("m".to_string()),
        question: Some("q".to_string()),
        skip_larger: Some(5000),
        start_line: Some(3),
        timeout: Some(1),
    };
    let c = load(args, Some("h".to_string())).unwrap();
    assert_eq!(c.dir.as_deref(), Some("lib"));
    assert_eq!(c.end_line, Some(9));
    assert_eq!(c.file.as_deref(), Some("a.rs"));
    assert_eq!(c.keep_alive, 600);
    assert_eq!(c.max_attempts, 0);
    assert_eq!(c.mode, Mode::CommitSummary);
    assert_eq!(c.model.as_deref(), Some("m"));
    assert_eq!(c.ollama_host, "h");
    assert_eq!(c.question.as_deref(), Some("q"));
    assert_eq!(c.skip_larger, Some(5000));
    assert_eq!(c.start_line, Some(3));
    assert_eq!(c.timeout, 1);
}

#[test]
fn load_resolves_an_unknown_mode_to_the_default() {
    let mut args = no_args();
    args.mode = Some("nonsense".to_string());
    assert_eq!(load(args, Some("h".to_string())).unwrap().mode, Mode::Checker);
}

#[test]
fn load_without_a_host_fails() {
    assert_eq!(load(no_args(), None).err(), Some(Error::OllamaHostAddresMissing));
    let mut args = no_args();
    args.mode = Some("ask".to_string());
    args.question = Some("q".to_string());
    assert_eq!(load(args, None).err(), Some(Error::OllamaHostAddresMissing));
}

#[test]
fn read_without_a_full_range_returns_the_content() {
    let text = "one\r\ntwo\nthree";
    assert_eq!(read(&with_range(None, None), text.to_string()), text);
    assert_eq!(read(&with_range(Some(2), None), text.to_string()), text);
    assert_eq!(read(&with_range(None, Some(2)), text.to_string()), text);
    assert_eq!(read(&with_range(None, None), String::new()), "");
}

#[test]
fn read_keeps_the_lines_of_the_range() {
    let text = "one\ntwo\nthree\nfour\n";
    assert_eq!(read(&with_range(Some(2), Some(3)), text.to_string()), "two\nthree\n");
    assert_eq!(read(&with_range(Some(1), Some(1)), text.to_string()), "one\n");
    assert_eq!(read(&with_range(Some(4), Some(4)), text.to_string()), "four\n");
    assert_eq!(read(&with_range(Some(1), Some(4)), text.to_string()), text);
    assert_eq!(read(&with_range(Some(0), Some(u32::MAX)), text.to_string()), text);
}

#[test]
fn read_outside_the_file_or_backwards_keeps_nothing() {
    let text = "one\ntwo\nthree\n";
    assert_eq!(read(&with_range(Some(4), Some(9)), text.to_string()), "");
    assert_eq!(read(&with_range(Some(3), Some(2)), text.to_string()), "");
    assert_eq!(read(&with_range(Some(0), Some(0)), text.to_string()), "");
    assert_eq!(read(&with_range(Some(1), Some(5)), String::new()), "");
    assert_eq!(read(&with_range(Some(3), Some(9)), text.to_string()), "three\n");
}

#[test]
fn read_ends_every_kept_line_with_a_line_feed() {
    assert_eq!(read(&with_range(Some(1), Some(2)), "a\nb".to_string()), "a\nb\n");
    assert_eq!(read(&with_range(Some(2), Some(2)), "a\nb".to_string()), "b\n");
}

#[test]
fn read_drops_carriage_returns_before_line_feeds_only() {
    assert_eq!(read(&with_range(Some(1), Some(9)), "a\r\nb\r\n".to_string()), "a\nb\n");
    assert_eq!(read(&with_range(Some(1), Some(9)), "a\r\r\nb".to_string()), "a\r\nb\n");
    assert_eq!(read(&with_range(Some(1), Some(9)), "a\rb\nc\r".to_string()), "a\rb\nc\r\n");
    assert_eq!(read(&with_range(Some(1), Some(9)), "\r".to_string()), "\r\n");
}

#[test]
fn read_counts_empty_lines() {
    assert_eq!(read(&with_range(Some(2), Some(3)), "a\n\nb\n".to_string()), "\nb\n");
    assert_eq!(read(&with_range(Some(1), Some(9)), "\n".to_string()), "\n");
    assert_eq!(read(&with_range(Some(1), Some(9)), "\n\n".to_string()), "\n\n");
    assert_eq!(read(&with_range(Some(1), Some(9)), "\r\n".to_string()), "\n");
}

#[test]
fn allowed_extensions() {
    for e in ["c", "h", "cpp", "hpp", "cc", "hh", "cxx", "hxx", "cs", "go", "java", "js", "py", "rs", "ts"] {
        assert!(allowed_extension(e), "{}", e);
    }
    for e in ["", "RS", "Rs", "txt", "md", "toml", "rss", "r", "jsx", "tsx", "cp", ".rs", "rs "] {
        assert!(!allowed_extension(e), "{}", e);
    }
}

fn entry(path: &str, extension: Option<&str>) -> FileEntry {
    FileEntry { path: path.to_string(), extension: extension.map(|e| e.to_string()) }
}

fn listing() -> Vec<FileEntry> {
    vec![
        entry("src", None),
        entry("src/main.rs", Some("rs")),
        entry("src/notes.txt", Some("txt")),
        entry("src/Makefile", None),
        entry("src/util.py", Some("py")),
        entry("src/.hidden", None),
        entry("src/a.tar.gz", Some("gz")),
        entry("src/lib/x.hpp", Some("hpp")),
    ]
}

fn with_files(dir: Option<&str>, file: Option<&str>) -> Config {
    let mut args = no_args();
    args.dir = dir.map(|d| d.to_string());
    args.file = file.map(|f| f.to_string());
    load(args, Some("h".to_string())).unwrap()
}

#[test]
fn read_files_keeps_the_source_files_in_order() {
    let files = read_files(&with_files(Some("src"), None), &listing(), None);
    assert_eq!(files, vec!["src/main.rs", "src/util.py", "src/lib/x.hpp"]);
}

#[test]
fn read_files_puts_the_single_file_last() {
    let files = read_files(&with_files(Some("src"), Some("extra.go")), &listing(), Some("go"));
    assert_eq!(files, vec!["src/main.rs", "src/util.py", "src/lib/x.hpp", "extra.go"]);
}

#[test]
fn read_files_without_a_directory_takes_only_the_single_file() {
    let files = read_files(&with_files(None, Some("one.c")), &listing(), Some("c"));
    assert_eq!(files, vec!["one.c"]);
    let files = read_files(&with_files(None, None), &listing(), Some("c"));
    assert!(files.is_empty());
}

#[test]
fn read_files_leaves_out_a_single_file_that_is_no_source() {
    let none: Vec<String> = vec![];
    assert_eq!(read_files(&with_files(None, Some("notes.txt")), &vec![], Some("txt")), none);
    assert_eq!(read_files(&with_files(None, Some("Makefile")), &vec![], None), none);
    assert_eq!(read_files(&with_files(Some("d"), None), &vec![], None), none);
}

#[test]
fn a_cloned_configuration_is_the_same() {
    let c = Config::new(
        Some("src".to_string()),
        Some(20),
        None,
        60,
        5,
        Mode::Explain,
        Some("llama3".to_string()),
        "http://localhost:11434".to_string(),
        Some("why?".to_string()),
        Some(8192),
        Some(10),
        45,
    );
    let d = c.clone();
    assert_eq!(d.dir, c.dir);
    assert_eq!(d.end_line, c.end_line);
    assert_eq!(d.file, c.file);
    assert_eq!(d.keep_alive, c.keep_alive);
    assert_eq!(d.max_attempts, c.max_attempts);
    assert_eq!(d.mode, c.mode);
    assert_eq!(d.model, c.model);
    assert_eq!(d.ollama_host, c.ollama_host);
    assert_eq!(d.question, c.question);
    assert_eq!(d.skip_larger, c.skip_larger);
    assert_eq!(d.start_line, c.start_line);
    assert_eq!(d.timeout, c.timeout);
}
