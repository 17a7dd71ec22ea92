use twig::tmux_control::classify;
use twig::tmux_control::command_line;
use twig::tmux_control::connect_args;
use twig::tmux_control::connect_with_socket_path_args;
use twig::tmux_control::new_window_command;
use twig::tmux_control::parse_command_id;
use twig::tmux_control::quote_tmux_arg;
use twig::tmux_control::read_reply;
use twig::tmux_control::ControlClient;
use twig::tmux_control::ControlError;
use twig::tmux_control::LineKind;
use twig::tmux_control::ReplyState;
use twig::tmux_control::ReplyStep;

fn strings(items: &[&str]) -> Vec<String> {
    items.iter().map(|s| s.to_string()).collect()
}

fn collecting(id: u64, output: &[&str]) -> ReplyState {
    ReplyState::Collecting { id, output: strings(output) }
}

#[test]
fn quote_wraps_plain_text_in_double_quotes() {
    assert_eq!(quote_tmux_arg("main"), "\"main\"");
    assert_eq!(quote_tmux_arg(""), "\"\"");
    assert_eq!(quote_tmux_arg("two words"), "\"two words\"");
}

#[test]
fn quote_escapes_backslash_and_double_quote() {
    assert_eq!(quote_tmux_arg("a\"b"), "\"a\\\"b\"");
    assert_eq!(quote_tmux_arg("a\\b"), "\"a\\\\b\"");
    assert_eq!(quote_tmux_arg("\\\""), "\"\\\\\\\"\"");
    assert_eq!(quote_tmux_arg("caf\u{e9} $HOME"), "\"caf\u{e9} $HOME\"");
}

#[test]
fn quote_matches_two_replacements_in_turn() {
    for value in ["", "x", "\\", "\"", "\\\\\"\"", "a\\\"b\\", "tab\there"] {
        let escaped = value.replace('\\', "\\\\").replace('"', "\\\"");
        assert_eq!(quote_tmux_arg(value), format!("\"{}\"", escaped));
    }
}

#[test]
fn test_control_new_window() {
    let session = "twig_test_session";
    let window = "extra";

    let mut client = ControlClient::connect(Some("twig-test-1-2"));
    assert_eq!(client.args(), &strings(&["-L", "twig-test-1-2", "-C"]));
    assert!(!client.awaiting());

    let sent = client.command(&format!("new-session -d -s {}", session));
    assert_eq!(sent, "new-session -d -s twig_test_session\n");
    assert!(client.awaiting());
    assert_eq!(client.receive(Some("%begin 1700000000 1 1\n")), None);
    assert_eq!(client.receive(Some("%end 1700000000 1 1\n")), Some(Ok(Vec::new())));
    assert!(!client.awaiting());

    let sent = client.new_window(session, window, "/");
    assert_eq!(sent, "new-window -d -t \"twig_test_session\" -n \"extra\" -c \"/\"\n");
    assert_eq!(client.receive(Some("%window-add @1\n")), None);
    assert_eq!(client.receive(Some("%begin 1700000000 2 1\n")), None);
    assert_eq!(client.receive(Some("%end 1700000000 2 1\n")), Some(Ok(Vec::new())));

    let sent = client.command("list-windows -t twig_test_session -F #{window_name}");
    assert_eq!(sent, "list-windows -t twig_test_session -F #{window_name}\n");
    assert_eq!(client.receive(Some("%begin 1700000000 3 1\n")), None);
    assert_eq!(client.receive(Some("zsh\n")), None);
    assert_eq!(client.receive(Some("extra\n")), None);
    let windows = client.receive(Some("%end 1700000000 3 1\n")).unwrap().unwrap();
    assert!(
        windows.iter().any(|name| name == window),
        "expected window '{}' in {:?}",
        window,
        windows
    );
}

#[test]
fn client_has_one_command_in_flight() {
    let mut client = ControlClient::connect(None);
    assert_eq!(client.args(), &strings(&["-C"]));
    assert_eq!(client.receive(Some("%begin 1 1 1\n")), None);
    assert_eq!(client.receive(Some("%exit\n")), None);
    assert_eq!(client.receive(None), None);
    assert!(!client.awaiting());

    assert_eq!(client.command("first"), "first\n");
    assert_eq!(client.receive(Some("%begin 1 1 1\n")), None);
    assert_eq!(client.receive(Some("of the first\n")), None);
    assert_eq!(client.command("second"), "second\n");
    assert_eq!(client.receive(Some("stray\n")), None);
    assert_eq!(client.receive(Some("%end 1 1 1\n")), None);
    assert_eq!(client.receive(Some("%begin 2 2 1\n")), None);
    assert_eq!(client.receive(Some("of the second\n")), None);
    assert_eq!(client.receive(Some("%end 2 2 1\n")), Some(Ok(strings(&["of the second"]))));
    assert_eq!(client.receive(Some("of nothing\n")), None);
}

#[test]
fn client_reports_a_failure_once() {
    let mut client = ControlClient::connect_with_socket_path("/tmp/tmux.sock");
    assert_eq!(client.args(), &strings(&["-S", "/tmp/tmux.sock", "-C"]));
    client.command("kill-server");
    assert_eq!(client.receive(Some("%begin 1 1 1\n")), None);
    assert_eq!(
        client.receive(Some("%error 1 1 1\n")),
        Some(Err(ControlError::Command("%error 1 1 1".to_string())))
    );
    assert!(!client.awaiting());
    assert_eq!(client.receive(None), None);
    client.command("list-sessions");
    assert_eq!(client.receive(None), Some(Err(ControlError::Closed)));
    client.command("list-sessions");
    assert_eq!(client.receive(Some("%exit\r\n")), Some(Err(ControlError::Exited)));
}

#[test]
fn new_window_command_quotes_each_argument() {
    assert_eq!(
        new_window_command("my \"s\"", "w\\1", "/tmp/a b"),
        "new-window -d -t \"my \\\"s\\\"\" -n \"w\\\\1\" -c \"/tmp/a b\""
    );
}

#[test]
fn command_line_ends_with_one_line_feed() {
    assert_eq!(command_line("list-windows"), "list-windows\n");
    assert_eq!(command_line(""), "\n");
}

#[test]
fn connect_args_name_the_server() {
    assert_eq!(connect_args(None), strings(&["-C"]));
    assert_eq!(connect_args(Some("work")), strings(&["-L", "work", "-C"]));
    assert_eq!(
        connect_with_socket_path_args("/tmp/tmux-1000/default"),
        strings(&["-S", "/tmp/tmux-1000/default", "-C"])
    );
}

#[test]
fn classify_goes_by_the_leading_marker() {
    let kind = |s: &str| classify(&s.chars().collect());
    assert_eq!(kind("%exit"), LineKind::Exit);
    assert_eq!(kind("%exit detached"), LineKind::Exit);
    assert_eq!(kind("%error 1 2 0"), LineKind::Error);
    assert_eq!(kind("%begin 1 2 0"), LineKind::Begin);
    assert_eq!(kind("%end 1 2 0"), LineKind::End);
    assert_eq!(kind("%session-changed $1 main"), LineKind::Notification);
    assert_eq!(kind("%"), LineKind::Notification);
    assert_eq!(kind("0: zsh* (1 panes)"), LineKind::Output);
    assert_eq!(kind(""), LineKind::Output);
    assert_eq!(kind(" %begin 1 2 0"), LineKind::Output);
}

#[test]
fn parse_command_id_reads_the_third_field() {
    assert_eq!(parse_command_id("%begin 1700000000 42 1"), Ok(42));
    assert_eq!(parse_command_id("%end 1700000000 0 1"), Ok(0));
    assert_eq!(parse_command_id("%error 5 6"), Ok(6));
    assert_eq!(parse_command_id("  %begin \t 1 \u{3000} 9  "), Ok(9));
    assert_eq!(parse_command_id("%begin x +17"), Ok(17));
    assert_eq!(parse_command_id("%begin x 007"), Ok(7));
    assert_eq!(parse_command_id("%begin 1 18446744073709551615"), Ok(u64::MAX));
}

#[test]
fn parse_command_id_rejects_lines_with_too_few_fields() {
    for line in ["", "   ", "%begin", "%begin 1700000000", "begin 1 2", "x%begin 1 2"] {
        assert_eq!(
            parse_command_id(line),
            Err(ControlError::Malformed(line.to_string())),
            "{:?}",
            line
        );
    }
}

#[test]
fn parse_command_id_rejects_what_is_no_number() {
    for line in [
        "%begin 1 abc",
        "%begin 1 -3",
        "%begin 1 +",
        "%begin 1 1.5",
        "%begin 1 0x10",
        "%begin 1 18446744073709551616",
        "%begin 1 99999999999999999999999",
        "%begin 1 \u{664}",
    ] {
        assert_eq!(
            parse_command_id(line),
            Err(ControlError::InvalidId(line.to_string())),
            "{:?}",
            line
        );
    }
}

#[test]
fn parse_command_id_agrees_with_std_on_the_number() {
    for id in ["0", "1", "+1", "00", "-0", "", "+", "++1", "12a", "18446744073709551615",
        "18446744073709551616", "000000000000000000000000000001"]
    {
        let line = format!("%begin 0 {} tail", id);
        let expected = id.parse::<u64>().ok();
        if id.is_empty() {
            assert_eq!(parse_command_id(&line), Err(ControlError::InvalidId(line.clone())));
        } else {
            assert_eq!(parse_command_id(&line).ok(), expected, "{:?}", id);
        }
    }
}

#[test]
fn step_discards_lines_before_begin() {
    let state = ReplyState::new();
    assert_eq!(state, ReplyState::AwaitingBegin);
    assert_eq!(
        ReplyState::AwaitingBegin.step(Some("stray output\n")),
        ReplyStep::Continue(ReplyState::AwaitingBegin)
    );
    assert_eq!(
        ReplyState::AwaitingBegin.step(Some("%window-add @3\n")),
        ReplyStep::Continue(ReplyState::AwaitingBegin)
    );
    assert_eq!(
        ReplyState::AwaitingBegin.step(Some("%end 1 2 0\n")),
        ReplyStep::Continue(ReplyState::AwaitingBegin)
    );
    assert_eq!(
        ReplyState::AwaitingBegin.step(Some("%end\n")),
        ReplyStep::Continue(ReplyState::AwaitingBegin)
    );
}

#[test]
fn step_begin_captures_the_identifier() {
    assert_eq!(
        ReplyState::AwaitingBegin.step(Some("%begin 1700000000 12 1\r\n")),
        ReplyStep::Continue(collecting(12, &[]))
    );
    assert_eq!(
        ReplyState::AwaitingBegin.step(Some("%begin 1700000000\n")),
        ReplyStep::Fail(ControlError::Malformed("%begin 1700000000".to_string()))
    );
    assert_eq!(
        ReplyState::AwaitingBegin.step(Some("%begin now twelve\n")),
        ReplyStep::Fail(ControlError::InvalidId("%begin now twelve".to_string()))
    );
}

#[test]
fn step_collects_plain_lines_in_order() {
    let next = collecting(3, &["one"]).step(Some("two\n"));
    assert_eq!(next, ReplyStep::Continue(collecting(3, &["one", "two"])));
    let next = collecting(3, &["one"]).step(Some("  spaced \r\n"));
    assert_eq!(next, ReplyStep::Continue(collecting(3, &["one", "  spaced "])));
    let next = collecting(3, &["one"]).step(Some("\n"));
    assert_eq!(next, ReplyStep::Continue(collecting(3, &["one", ""])));
    let next = collecting(3, &[]).step(Some("no line ending"));
    assert_eq!(next, ReplyStep::Continue(collecting(3, &["no line ending"])));
}

#[test]
fn step_skips_notifications_inside_a_reply() {
    let next = collecting(3, &["one"]).step(Some("%output %1 hello\n"));
    assert_eq!(next, ReplyStep::Continue(collecting(3, &["one"])));
    let next = collecting(3, &["one"]).step(Some("%begin 1700000000 4 1\n"));
    assert_eq!(next, ReplyStep::Continue(collecting(3, &["one"])));
    let next = collecting(3, &["one"]).step(Some("%begin\n"));
    assert_eq!(next, ReplyStep::Continue(collecting(3, &["one"])));
}

#[test]
fn step_matching_end_completes_the_reply() {
    let next = collecting(3, &["one", "two"]).step(Some("%end 1700000000 3 1\n"));
    assert_eq!(next, ReplyStep::Complete(strings(&["one", "two"])));
}

#[test]
fn step_mismatched_end_reads_on() {
    let next = collecting(3, &["one"]).step(Some("%end 1700000000 4 1\n"));
    assert_eq!(next, ReplyStep::Continue(collecting(3, &["one"])));
    let next = collecting(3, &["one"]).step(Some("%end 1700000000 30 1\n"));
    assert_eq!(next, ReplyStep::Continue(collecting(3, &["one"])));
}

#[test]
fn step_end_without_a_number_is_a_fault() {
    let next = collecting(3, &["one"]).step(Some("%end 1700000000\n"));
    assert_eq!(next, ReplyStep::Fail(ControlError::Malformed("%end 1700000000".to_string())));
    let next = collecting(3, &["one"]).step(Some("%end 1700000000 three\n"));
    assert_eq!(
        next,
        ReplyStep::Fail(ControlError::InvalidId("%end 1700000000 three".to_string()))
    );
}

#[test]
fn step_error_line_fails_with_the_line() {
    let line = "%error 1700000000 3 1";
    let expected = ReplyStep::Fail(ControlError::Command(line.to_string()));
    assert_eq!(collecting(3, &["one"]).step(Some("%error 1700000000 3 1\n")), expected);
    assert_eq!(ReplyState::AwaitingBegin.step(Some("%error 1700000000 3 1\r\n")), expected);
    let message = ControlError::Command(line.to_string()).message();
    assert_eq!(message, "tmux control error: %error 1700000000 3 1");
    assert!(message.contains(line));
}

#[test]
fn step_exit_and_end_of_transport_fail() {
    assert_eq!(
        collecting(3, &[]).step(Some("%exit\n")),
        ReplyStep::Fail(ControlError::Exited)
    );
    assert_eq!(
        ReplyState::AwaitingBegin.step(Some("%exit server exited\n")),
        ReplyStep::Fail(ControlError::Exited)
    );
    assert_eq!(collecting(3, &["x"]).step(None), ReplyStep::Fail(ControlError::Closed));
    assert_eq!(ReplyState::AwaitingBegin.step(None), ReplyStep::Fail(ControlError::Closed));
}

#[test]
fn messages_name_the_fault() {
    assert_eq!(ControlError::Closed.message(), "tmux control mode closed unexpectedly");
    assert_eq!(ControlError::Exited.message(), "tmux control mode exited unexpectedly");
    assert_eq!(
        ControlError::Malformed("%begin".to_string()).message(),
        "Malformed tmux control line: %begin"
    );
    assert_eq!(
        ControlError::InvalidId("%begin 1 x".to_string()).message(),
        "Invalid tmux command id: %begin 1 x"
    );
}

#[test]
fn read_reply_gives_the_lines_between_the_markers() {
    let server = strings(&[
        "%session-changed $0 main\n",
        "noise before the reply\n",
        "%begin 1700000000 21 1\n",
        "0: editor* (1 panes)\n",
        "%output %0 typed\n",
        "1: shell- (2 panes)\r\n",
        "%end 1700000000 20 1\n",
        "\n",
        "%end 1700000000 21 1\n",
        "after the reply\n",
    ]);
    let (reply, next) = read_reply(&server, 0);
    assert_eq!(reply, Ok(strings(&["0: editor* (1 panes)", "1: shell- (2 panes)", ""])));
    assert_eq!(next, 9);
}

#[test]
fn read_reply_keeps_two_commands_apart() {
    let server = strings(&[
        "%begin 1 1 1\n",
        "first\n",
        "%end 1 1 1\n",
        "%window-add @1\n",
        "%begin 2 2 1\n",
        "second\n",
        "%end 2 2 1\n",
    ]);
    let (first, next) = read_reply(&server, 0);
    assert_eq!(first, Ok(strings(&["first"])));
    assert_eq!(next, 3);
    let (second, end) = read_reply(&server, next);
    assert_eq!(second, Ok(strings(&["second"])));
    assert_eq!(end, 7);

    let only_first = server[..3].to_vec();
    assert_eq!(read_reply(&only_first, 0), (Ok(strings(&["first"])), 3));
}

#[test]
fn read_reply_fails_where_the_transport_ends_early() {
    let server = strings(&["%begin 1 1 1\n", "first\n", "%end 1 2 1\n"]);
    assert_eq!(read_reply(&server, 0), (Err(ControlError::Closed), 3));
    assert_eq!(read_reply(&Vec::new(), 0), (Err(ControlError::Closed), 0));
    assert_eq!(read_reply(&server, 5), (Err(ControlError::Closed), 5));
}

#[test]
fn read_reply_stops_at_the_line_that_fails() {
    let server = strings(&["%begin 1 1 1\n", "first\n", "%error 1 1 1\n", "%end 1 1 1\n"]);
    assert_eq!(
        read_reply(&server, 0),
        (Err(ControlError::Command("%error 1 1 1".to_string())), 3)
    );
    let server = strings(&["%exit\n", "%begin 1 1 1\n", "%end 1 1 1\n"]);
    assert_eq!(read_reply(&server, 0), (Err(ControlError::Exited), 1));
}
