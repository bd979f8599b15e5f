use midi_transposer::ports::{
    choose_input_port, choose_output_port, choose_port, select_port, text_contains, PortChoice,
    PortError,
};

fn names(items: &[Option<&str>]) -> Vec<Option<String>> {
    items.iter().map(|n| n.map(|s| s.to_string())).collect()
}

fn contains(text: &str, pattern: &str) -> bool {
    let t: Vec<char> = text.chars().collect();
    let p: Vec<char> = pattern.chars().collect();
    text_contains(&t, &p)
}

#[test]
fn substring_search_matches_the_standard_library() {
    let texts = ["", "a", "ab", "MRCC", "MIDIOUT7 (MRCC)", "aaa", "abcabc", "xMRC", "\u{e9}t\u{e9}"];
    let patterns = ["", "a", "b", "ab", "bc", "MRCC", "(MRCC)", "aaaa", "cab", "t\u{e9}", "MRCCX"];
    for text in texts {
        for pattern in patterns {
            assert_eq!(contains(text, pattern), text.contains(pattern), "{:?} in {:?}", pattern, text);
        }
    }
}

#[test]
fn no_port_is_an_error() {
    assert_eq!(choose_input_port(&names(&[]), "MRCC"), Err(PortError::NoPorts));
    assert_eq!(choose_output_port(&names(&[]), "MRCC", "x"), Err(PortError::NoPorts));
}

#[test]
fn first_matching_input_port_is_chosen() {
    let ports = names(&[Some("Through"), Some("MRCC 1"), Some("MRCC 2")]);
    assert_eq!(choose_input_port(&ports, "MRCC"), Ok(PortChoice::Matched(1)));
    assert_eq!(choose_input_port(&ports, "MRCC 2"), Ok(PortChoice::Matched(2)));
    assert_eq!(choose_input_port(&ports, ""), Ok(PortChoice::Matched(0)));
    assert_eq!(choose_input_port(&ports, "mrcc"), Ok(PortChoice::Ask));
}

#[test]
fn unreadable_names_match_nothing() {
    let ports = names(&[None, Some("MRCC")]);
    assert_eq!(choose_input_port(&ports, ""), Ok(PortChoice::Matched(1)));
    assert_eq!(choose_input_port(&names(&[None]), ""), Ok(PortChoice::Only));
    assert_eq!(choose_input_port(&names(&[None, None]), ""), Ok(PortChoice::Ask));
}

#[test]
fn single_port_is_the_fallback() {
    assert_eq!(choose_input_port(&names(&[Some("Other")]), "MRCC"), Ok(PortChoice::Only));
    assert_eq!(choose_output_port(&names(&[Some("MRCC")]), "MRCC", "MRCC"), Ok(PortChoice::Only));
}

#[test]
fn output_port_avoids_the_input_port_name() {
    let ports = names(&[Some("MRCC"), Some("MIDIOUT7 (MRCC)"), Some("MRCC B")]);
    assert_eq!(choose_output_port(&ports, "MRCC", "MRCC"), Ok(PortChoice::Matched(1)));
    assert_eq!(choose_output_port(&ports, "MRCC", "nothing"), Ok(PortChoice::Matched(0)));
    assert_eq!(choose_output_port(&ports, "MRCC B", "MRCC B"), Ok(PortChoice::Ask));
    assert_eq!(choose_port(&ports, "MRCC", Some("MRCC")), Ok(PortChoice::Matched(1)));
    assert_eq!(choose_port(&ports, "MRCC", None), Ok(PortChoice::Matched(0)));
}

#[test]
fn answers_select_a_port_in_range() {
    assert_eq!(select_port("0\n", 3), Ok(0));
    assert_eq!(select_port(" 2 ", 3), Ok(2));
    assert_eq!(select_port("+1", 3), Ok(1));
    assert_eq!(select_port("007", 8), Ok(7));
    assert_eq!(select_port("3", 3), Err(PortError::InvalidPort));
    assert_eq!(select_port("18446744073709551615", 3), Err(PortError::InvalidPort));
    assert_eq!(select_port("18446744073709551616", 3), Err(PortError::InvalidNumber));
    assert_eq!(select_port("99999999999999999999999", 3), Err(PortError::InvalidNumber));
    for text in ["", " ", "-1", "-0", "+", "one", "1.0", "1 2", "0x1"] {
        assert_eq!(select_port(text, 3), Err(PortError::InvalidNumber), "answer {:?}", text);
    }
}

#[test]
fn answers_are_read_as_the_standard_library_reads_them() {
    for text in ["0", "5", "+5", "-5", "", "+", "00", "12345678901234567890", "184467440737095516150", " 7", "7a"] {
        let expected = match text.trim().parse::<usize>() {
            Ok(v) if v < 10 => Ok(v),
            Ok(_) => Err(PortError::InvalidPort),
            Err(_) => Err(PortError::InvalidNumber),
        };
        assert_eq!(select_port(text, 10), expected, "answer {:?}", text);
    }
}
