use terminal_viewer::buffer::{split_lines, Buffer, FileProbe, LoadError};

fn lines_of(text: &str) -> Vec<String> {
    split_lines(text)
}

fn std_lines(text: &str) -> Vec<String> {
    text.lines().map(String::from).collect()
}

#[test]
fn split_unterminated_lines() {
    assert_eq!(lines_of("abc\nde"), vec!["abc".to_string(), "de".to_string()]);
}

#[test]
fn split_terminated_lines() {
    assert_eq!(lines_of("abc\nde\n"), vec!["abc".to_string(), "de".to_string()]);
}

#[test]
fn split_single_line_keeps_every_character() {
    assert_eq!(lines_of("abc"), vec!["abc".to_string()]);
}

#[test]
fn split_empty_text_has_no_line() {
    assert_eq!(lines_of(""), Vec::<String>::new());
}

#[test]
fn split_lone_line_feed_is_one_empty_line() {
    assert_eq!(lines_of("\n"), vec![String::new()]);
}

#[test]
fn split_keeps_empty_lines_between() {
    assert_eq!(
        lines_of("a\n\n\nb\n"),
        vec!["a".to_string(), String::new(), String::new(), "b".to_string()]
    );
}

#[test]
fn split_carriage_return_line_feed() {
    assert_eq!(lines_of("one\r\ntwo\r\n"), vec!["one".to_string(), "two".to_string()]);
}

#[test]
fn split_mixed_line_endings() {
    assert_eq!(
        lines_of("one\r\ntwo\nthree"),
        vec!["one".to_string(), "two".to_string(), "three".to_string()]
    );
}

#[test]
fn split_keeps_carriage_return_inside_a_line() {
    assert_eq!(lines_of("a\rb\n"), vec!["a\rb".to_string()]);
}

#[test]
fn split_keeps_carriage_return_at_the_end_of_the_text() {
    assert_eq!(lines_of("ab\r"), vec!["ab\r".to_string()]);
    assert_eq!(lines_of("\r"), vec!["\r".to_string()]);
}

#[test]
fn split_drops_one_carriage_return_only() {
    assert_eq!(lines_of("a\r\r\nb"), vec!["a\r".to_string(), "b".to_string()]);
}

#[test]
fn split_does_not_trim_blanks() {
    assert_eq!(
        lines_of("  lead\ntrail  \n\tboth\t"),
        vec!["  lead".to_string(), "trail  ".to_string(), "\tboth\t".to_string()]
    );
}

#[test]
fn split_keeps_characters_outside_ascii() {
    assert_eq!(
        lines_of("héllo wörld\n日本語\n🙂"),
        vec!["héllo wörld".to_string(), "日本語".to_string(), "🙂".to_string()]
    );
}

#[test]
fn split_agrees_with_std_lines() {
    let texts = [
        "",
        "\n",
        "\r",
        "\r\n",
        "\n\n",
        "a",
        "a\n",
        "a\nb",
        "a\r\nb\r\n",
        "a\rb",
        "a\r\r\n",
        "\r\r",
        "a\n\rb\r",
        "x\r\n\r\ny",
        "tab\there\n  spaces  \n",
        "überlang\r\nça va\n€",
    ];
    for text in texts {
        assert_eq!(lines_of(text), std_lines(text), "text {:?}", text);
    }
}

#[test]
fn split_many_lines_in_order() {
    let mut text = String::new();
    let mut expected = Vec::new();
    for i in 0..500 {
        let line = format!("line {}", i);
        text.push_str(&line);
        text.push('\n');
        expected.push(line);
    }
    assert_eq!(lines_of(&text), expected);
}

#[test]
fn load_file_reads_text_into_lines() {
    let buffer = Buffer::load_file("notes.txt", FileProbe::Text("abc\nde\n".to_string())).unwrap();
    assert_eq!(buffer.lines, vec!["abc".to_string(), "de".to_string()]);
}

#[test]
fn load_file_of_empty_text_is_an_empty_buffer() {
    let buffer = Buffer::load_file("empty", FileProbe::Text(String::new())).unwrap();
    assert!(buffer.lines.is_empty());
}

#[test]
fn load_file_refuses_a_directory() {
    let error = Buffer::load_file("src", FileProbe::Directory).unwrap_err();
    assert_eq!(error, LoadError::Directory("src".to_string()));
    assert!(error.is_directory());
    assert_eq!(error.message(), "src is a directory. Logic not yet implemented\r\n");
}

#[test]
fn load_file_directory_error_names_the_path() {
    for path in ["", ".", "/tmp", "a b/c", "日本"] {
        let error = Buffer::load_file(path, FileProbe::Directory).unwrap_err();
        assert!(error.is_directory());
        assert_eq!(
            error.message(),
            format!("{} is a directory. Logic not yet implemented\r\n", path)
        );
    }
}

#[test]
fn load_file_passes_on_why_a_file_was_unreadable() {
    let reason = "No such file or directory (os error 2)";
    let error = Buffer::load_file("gone", FileProbe::Unreadable(reason.to_string())).unwrap_err();
    assert_eq!(error, LoadError::Io(reason.to_string()));
    assert!(!error.is_directory());
    assert_eq!(error.message(), reason);
}

#[test]
fn default_buffer_is_empty() {
    assert!(Buffer::default().lines.is_empty());
}
