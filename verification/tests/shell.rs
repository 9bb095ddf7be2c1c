use audiovert::out::{Level, Line, Out};
use audiovert::shell::{escape_in_bash, escape_str, FormatCommand};

#[test]
fn escape_in_bash_special_characters() {
    for c in " \"'\\$`&|;<>!()[]".chars() {
        assert_eq!(escape_in_bash(c), Some(format!("\\{c}").as_str()), "{c:?}");
    }
    for c in "aZ09-_./~*?{}#%^=+,:@\n\t".chars() {
        assert_eq!(escape_in_bash(c), None, "{c:?}");
    }
}

#[test]
fn escape_str_words() {
    assert_eq!(escape_str("plain/path.mp3"), "plain/path.mp3");
    assert_eq!(escape_str(""), "");
    assert_eq!(escape_str("my song (live).mp3"), "my\\ song\\ \\(live\\).mp3");
    assert_eq!(escape_str("a$b`c"), "a\\$b\\`c");
    assert_eq!(escape_str("it's"), "it\\'s");
    assert_eq!(escape_str("x\\y"), "x\\\\y");
}

#[test]
fn format_command_escapes_and_replaces() {
    let args = vec!["-i".to_string(), "in file.flac".to_string(), "out.mp3.part".to_string()];
    let mut cmd = FormatCommand::new("/usr/bin/ffmpeg", args);
    assert_eq!(cmd.render(), "/usr/bin/ffmpeg -i in\\ file.flac out.mp3.part");
    cmd.replace("/usr/bin/ffmpeg", "<ffmpeg>");
    cmd.replace("in file.flac", "<from>");
    cmd.replace("out.mp3.part", "<to>.part");
    assert_eq!(cmd.render(), "<ffmpeg> -i <from> <to>.part");
    cmd.replace("in file.flac", "<input>");
    assert_eq!(cmd.render(), "<ffmpeg> -i <input> <to>.part");
}

#[test]
fn format_command_without_arguments() {
    let cmd = FormatCommand::new("a b", Vec::new());
    assert_eq!(cmd.render(), "a\\ b");
}

#[test]
fn out_collects_lines_with_indentation() {
    let mut o = Out::new();
    o.info("Task");
    o.indent(1);
    o.blank("from");
    o.indent(2);
    o.error("deep");
    o.leave(2);
    o.warn("back");
    o.leave(1);
    o.line(Level::Blank, "top");
    let got: Vec<(usize, Level, &str)> = o.lines.iter().map(|l| (l.indent, l.level, l.text.as_str())).collect();
    assert_eq!(
        got,
        vec![
            (0, Level::Info, "Task"),
            (1, Level::Blank, "from"),
            (3, Level::Error, "deep"),
            (1, Level::Warn, "back"),
            (0, Level::Blank, "top"),
        ]
    );
    assert_eq!(o.indent, 0);
}

#[test]
fn out_indentation_saturates() {
    let mut o = Out::new();
    o.indent(-1);
    assert_eq!(o.indent, 0);
    o.leave(-1);
    assert_eq!(o.indent, 1);
    o.leave(5);
    assert_eq!(o.indent, 0);
    o.indent(isize::MAX);
    o.indent(isize::MAX);
    o.indent(isize::MAX);
    assert_eq!(o.indent, usize::MAX);
    o.indent(isize::MIN);
    assert_eq!(o.indent, usize::MAX - (isize::MAX as usize) - 1);
    assert_eq!(0usize.saturating_add_signed(isize::MIN), 0);
    let mut o = Out::new();
    o.leave(isize::MIN);
    assert_eq!(o.indent, (isize::MAX as usize) + 1);
}

#[test]
fn line_prefix_is_two_blanks_per_step() {
    let line = |indent| Line { indent, level: Level::Blank, text: String::new() };
    assert_eq!(line(0).prefix(), "");
    assert_eq!(line(1).prefix(), "  ");
    assert_eq!(line(3).prefix(), "      ");
}
