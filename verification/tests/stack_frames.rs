use appsignal::stack::{
    capture_frames, encode_backtrace, encode_backtrace_lossy, frame_lines, frames_in,
    push_decimal, render_frames, Frame,
};
use backtrace::Backtrace;
use appsignal::EncodeError;
use rustc_serialize::json::Json;

fn frame(name: Option<&str>, file: Option<&str>, line: Option<u32>) -> Frame {
    Frame { name: name.map(str::to_owned), file: file.map(str::to_owned), line }
}

fn decimal(n: u32) -> String {
    let mut text = String::new();
    push_decimal(&mut text, n);
    text
}

#[test]
fn decimal_of_small_and_large_numbers() {
    assert_eq!(decimal(0), "0");
    assert_eq!(decimal(7), "7");
    assert_eq!(decimal(10), "10");
    assert_eq!(decimal(99), "99");
    assert_eq!(decimal(100), "100");
    assert_eq!(decimal(1_000_000), "1000000");
    assert_eq!(decimal(u32::MAX), "4294967295");
}

#[test]
fn decimal_appends_to_what_is_there() {
    let mut text = String::from("line ");
    push_decimal(&mut text, 42);
    assert_eq!(text, "line 42");
}

#[test]
fn decimal_agrees_with_display() {
    let mut n: u32 = 1;
    for _ in 0..64 {
        assert_eq!(decimal(n), n.to_string());
        assert_eq!(decimal(n - 1), (n - 1).to_string());
        n = n.wrapping_mul(7).wrapping_add(3);
        if n == 0 {
            n = 1;
        }
    }
}

#[test]
fn frame_renders_as_name_file_and_line() {
    let line = frame(Some("app::main"), Some("src/main.rs"), Some(10)).render();
    assert_eq!(line, Ok("app::main src/main.rs:10".to_owned()));
}

#[test]
fn frame_without_file_reads_no_file() {
    let line = frame(Some("app::main"), None, Some(10)).render();
    assert_eq!(line, Ok("app::main no file:10".to_owned()));
}

#[test]
fn frame_without_line_reads_zero() {
    let line = frame(Some("app::main"), Some("src/main.rs"), None).render();
    assert_eq!(line, Ok("app::main src/main.rs:0".to_owned()));
}

#[test]
fn frame_with_name_alone() {
    let line = frame(Some("start"), None, None).render();
    assert_eq!(line, Ok("start no file:0".to_owned()));
}

#[test]
fn frame_without_name_has_no_line() {
    let line = frame(None, Some("src/main.rs"), Some(10)).render();
    assert_eq!(line, Err(EncodeError::MissingSymbolName));
}

#[test]
fn frames_render_in_their_order() {
    let frames = vec![
        frame(Some("inner"), Some("a.rs"), Some(1)),
        frame(Some("middle"), None, Some(2)),
        frame(Some("outer"), Some("c.rs"), None),
    ];
    assert_eq!(
        render_frames(&frames),
        Ok(vec![
            "inner a.rs:1".to_owned(),
            "middle no file:2".to_owned(),
            "outer c.rs:0".to_owned(),
        ])
    );
}

#[test]
fn frames_fail_as_a_whole_on_one_without_name() {
    let frames = vec![
        frame(Some("inner"), Some("a.rs"), Some(1)),
        frame(None, None, None),
        frame(Some("outer"), Some("c.rs"), None),
    ];
    assert_eq!(render_frames(&frames), Err(EncodeError::MissingSymbolName));
    assert_eq!(encode_backtrace(&frames), Err(EncodeError::MissingSymbolName));
}

#[test]
fn no_frames_render_to_no_lines() {
    assert_eq!(render_frames(&Vec::new()), Ok(Vec::new()));
}

#[test]
fn backtrace_is_a_json_array_of_lines() {
    let frames = vec![
        frame(Some("inner"), Some("a.rs"), Some(1)),
        frame(Some("outer"), None, None),
    ];
    assert_eq!(
        encode_backtrace(&frames),
        Ok("[\"inner a.rs:1\",\"outer no file:0\"]".to_owned())
    );
}

#[test]
fn backtrace_of_no_frames_is_the_empty_array() {
    assert_eq!(encode_backtrace(&Vec::new()), Ok("[]".to_owned()));
}

#[test]
fn backtrace_escapes_what_json_cannot_hold() {
    let frames = vec![frame(Some("f\"q\\b"), Some("dir\tname\u{0}.rs"), Some(3))];
    assert_eq!(
        encode_backtrace(&frames),
        Ok("[\"f\\\"q\\\\b dir\\tname\\u0000.rs:3\"]".to_owned())
    );
}

#[test]
fn backtrace_parses_back_to_the_lines() {
    let frames = vec![
        frame(Some("core::ops::FnOnce<()>::call_once"), Some("/rustc/ops/function.rs"), Some(250)),
        frame(Some("caf\u{e9}::\u{1f980}"), None, Some(0)),
        frame(Some("quote\"d"), Some("back\\slash"), None),
    ];
    let lines = render_frames(&frames).unwrap();
    let text = encode_backtrace(&frames).unwrap();
    let parsed = Json::from_str(&text).unwrap();
    let expected = Json::Array(lines.into_iter().map(Json::String).collect());
    assert_eq!(parsed, expected);
}

#[test]
fn captured_frames_render_or_lack_a_name() {
    let frames = capture_frames();
    for frame in &frames {
        match frame.render() {
            Ok(line) => {
                let name = frame.name.as_ref().unwrap();
                assert!(line.starts_with(name.as_str()));
                assert!(line.len() > name.len());
            }
            Err(e) => {
                assert_eq!(e, EncodeError::MissingSymbolName);
                assert!(frame.name.is_none());
            }
        }
    }
}

fn symbols_by_hand(trace: &Backtrace) -> Vec<Frame> {
    let mut expected = Vec::new();
    for frame in trace.frames() {
        for symbol in frame.symbols() {
            expected.push(Frame {
                name: symbol.name().map(|name| format!("{}", name)),
                file: symbol.filename().map(|file| file.to_string_lossy().to_string()),
                line: symbol.lineno(),
            });
        }
    }
    expected
}

#[test]
fn frames_in_a_trace_are_its_symbols_in_order() {
    let trace = Backtrace::new();
    let expected = symbols_by_hand(&trace);
    assert!(!expected.is_empty());
    assert_eq!(frames_in(&trace), expected);
}

#[test]
fn frames_in_a_trace_are_the_same_each_time() {
    let trace = Backtrace::new();
    assert_eq!(frames_in(&trace), frames_in(&trace));
}

#[test]
fn frames_in_an_unresolved_trace_are_none() {
    let trace = Backtrace::new_unresolved();
    assert_eq!(frames_in(&trace), Vec::new());
}

#[test]
fn frames_in_an_empty_trace_are_none() {
    let trace = Backtrace::from(Vec::new());
    assert_eq!(frames_in(&trace), Vec::new());
}

#[test]
fn captured_frames_end_where_a_trace_taken_here_ends() {
    let frames = capture_frames();
    let by_hand = symbols_by_hand(&Backtrace::new());
    assert!(!frames.is_empty());
    assert_eq!(frames.last().unwrap().name, by_hand.last().unwrap().name);
}

#[test]
fn line_of_a_frame_without_name_reads_no_symbol() {
    assert_eq!(frame(None, Some("src/main.rs"), Some(10)).line(), "no symbol src/main.rs:10");
    assert_eq!(frame(None, None, None).line(), "no symbol no file:0");
}

#[test]
fn line_of_a_named_frame_is_its_rendering() {
    let named = frame(Some("app::main"), Some("src/main.rs"), Some(10));
    assert_eq!(Ok(named.line()), named.render());
    assert_eq!(named.line(), "app::main src/main.rs:10");
}

#[test]
fn frame_lines_keep_every_frame_in_order() {
    let frames = vec![
        frame(Some("inner"), Some("a.rs"), Some(1)),
        frame(None, None, Some(2)),
        frame(Some("outer"), Some("c.rs"), None),
    ];
    assert_eq!(
        frame_lines(&frames),
        vec![
            "inner a.rs:1".to_owned(),
            "no symbol no file:2".to_owned(),
            "outer c.rs:0".to_owned(),
        ]
    );
    assert_eq!(frame_lines(&Vec::new()), Vec::<String>::new());
}

#[test]
fn lossy_backtrace_is_a_json_array_of_all_lines() {
    let frames = vec![frame(None, Some("a.rs"), Some(1)), frame(Some("outer"), None, None)];
    assert_eq!(
        encode_backtrace_lossy(&frames),
        "[\"no symbol a.rs:1\",\"outer no file:0\"]"
    );
    assert_eq!(encode_backtrace_lossy(&Vec::new()), "[]");
}

#[test]
fn lossy_backtrace_of_named_frames_is_the_strict_one() {
    let frames = vec![
        frame(Some("inner"), Some("a.rs"), Some(1)),
        frame(Some("quote\"d"), Some("nul\u{0}"), None),
    ];
    assert_eq!(Ok(encode_backtrace_lossy(&frames)), encode_backtrace(&frames));
}

#[test]
fn backtrace_text_holds_no_nul() {
    let frames = vec![frame(Some("\u{0}a\u{0}"), Some("\u{0}"), Some(3))];
    let text = encode_backtrace(&frames).unwrap();
    assert!(!text.contains('\u{0}'));
    assert_eq!(text, "[\"\\u0000a\\u0000 \\u0000:3\"]");
}
