use subathon_timer::console::{parse_command, Command};

#[test]
fn console_commands() {
    assert!(matches!(parse_command("stop\n"), Command::Stop));
    assert!(matches!(parse_command("  PAUSE  \r\n"), Command::Pause));
    assert!(matches!(parse_command("AddTime 5\n"), Command::AddTime(m) if m == "5"));
    assert!(matches!(parse_command("add 10 minutes\n"), Command::AddTime(m) if m == "10"));
    assert!(matches!(parse_command("add  7\n"), Command::AddTime(m) if m.is_empty()));
    assert!(matches!(parse_command("add\n"), Command::AddTimeWithoutAmount));
    assert!(matches!(parse_command("Hello World\n"), Command::Unrecognized(l) if l == "hello world"));
    assert!(matches!(parse_command("\u{3000}\tstop\u{a0}"), Command::Stop));
    assert!(matches!(parse_command(""), Command::Unrecognized(l) if l.is_empty()));
    assert!(matches!(parse_command("stopp"), Command::Unrecognized(l) if l == "stopp"));
    assert!(matches!(parse_command("ÄDD 3"), Command::Unrecognized(l) if l == "Ädd 3"));
}

/// The command as read with std trimming and splitting.
fn oracle(input: &str) -> String {
    let input = input.trim().to_ascii_lowercase();
    let split = input.split(' ').collect::<Vec<_>>();
    match split[0] {
        "stop" => "stop".to_string(),
        "pause" => "pause".to_string(),
        "addtime" | "add" => {
            if split.len() < 2 {
                "skip".to_string()
            } else {
                format!("add {}", split[1])
            }
        }
        _ => format!("? {}", input),
    }
}

#[test]
fn console_agrees_with_split_reading() {
    for line in ["stop", " add 1 2", "ADDTIME", "addtime x", "\tpause\n", "x y", "add\u{2003}5", "  ", "add "] {
        let got = match parse_command(line) {
            Command::Stop => "stop".to_string(),
            Command::Pause => "pause".to_string(),
            Command::AddTime(m) => format!("add {}", m),
            Command::AddTimeWithoutAmount => "skip".to_string(),
            Command::Unrecognized(l) => format!("? {}", l),
        };
        assert_eq!(got, oracle(line), "line {:?}", line);
    }
}
