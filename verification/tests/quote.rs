use dwsh::quote::{format_quote, fortune_text, Quote, QuoteMsg, QuoteTask};

#[test]
fn short_quote_is_unchanged() {
    assert_eq!(format_quote("hello\nworld"), "hello\nworld");
    assert_eq!(format_quote(""), "");
    assert_eq!(format_quote("one line"), "one line");
}

#[test]
fn long_line_breaks_at_last_space() {
    let words = vec!["word"; 20].join(" ");
    let expected = format!("{}\n{}", vec!["word"; 15].join(" "), vec!["word"; 5].join(" "));
    assert_eq!(format_quote(&words), expected);
}

#[test]
fn long_line_without_space_breaks_at_width() {
    let solid = "x".repeat(100);
    assert_eq!(format_quote(&solid), format!("{}\n{}", "x".repeat(74), "x".repeat(26)));
}

#[test]
fn leading_space_gives_empty_first_line() {
    let line = format!(" {}", "x".repeat(100));
    assert_eq!(format_quote(&line), format!("\n{}\n{}", "x".repeat(74), "x".repeat(26)));
}

#[test]
fn width_counts_characters_not_bytes() {
    let line = "é".repeat(80);
    assert_eq!(format_quote(&line), format!("{}\n{}", "é".repeat(74), "é".repeat(6)));
    let fits = "é".repeat(74);
    assert_eq!(format_quote(&fits), fits);
}

#[test]
fn many_lines_are_cut_with_dots() {
    let seven = (0..7).map(|i| format!("l{i}")).collect::<Vec<_>>().join("\n");
    assert_eq!(format_quote(&seven), "l0\nl1\nl2\nl3\nl4\n......");
    let five = (0..5).map(|i| format!("l{i}")).collect::<Vec<_>>().join("\n");
    assert_eq!(format_quote(&five), five);
}

#[test]
fn wrapped_lines_count_towards_the_limit() {
    let text = vec!["abc"; 60].join(" ");
    let row = vec!["abc"; 18].join(" ");
    let last = vec!["abc"; 6].join(" ");
    assert_eq!(format_quote(&text), format!("{row}\n{row}\n{row}\n{last}"));
    let long = vec!["abc"; 200].join(" ");
    let shown = format_quote(&long);
    assert_eq!(shown.split('\n').count(), 6);
    assert!(shown.ends_with("\n......"));
    assert!(shown.split('\n').all(|l| l.chars().count() < 75));
}

#[test]
fn remainder_loses_leading_whitespace() {
    let line = format!("{}\t\u{2003} tail", "y".repeat(74));
    assert_eq!(format_quote(&line), format!("{}\ntail", "y".repeat(74)));
}

#[test]
fn fortune_output_is_decoded() {
    assert_eq!(fortune_text(Some(b"Be yourself.".to_vec())), "Be yourself.");
    assert_eq!(fortune_text(Some("caf\u{e9}".as_bytes().to_vec())), "café");
    assert_eq!(fortune_text(Some(vec![0xff, 0xfe])), "Error parsing quote from fortune");
    assert_eq!(fortune_text(None), "Error fetching quote from fortune");
}

#[test]
fn quote_panel_refreshes() {
    let mut quote = Quote::new(Some(b"first".to_vec()));
    assert_eq!(quote.tooltip(), "first");
    assert_eq!(quote.update(QuoteMsg::RefreshQuote), QuoteTask::FetchFortune);
    let long = "z".repeat(80);
    quote.fortune_arrived(Some(long.clone().into_bytes()));
    assert_eq!(quote.tooltip(), &long);
    assert_eq!(quote.label(), format!("{}\n{}", "z".repeat(74), "z".repeat(6)));
}

#[test]
fn formatting_twice_changes_nothing() {
    let samples = [
        vec!["abc"; 200].join(" "),
        "x".repeat(300),
        format!(" {}", "x".repeat(100)),
        (0..9).map(|i| format!("line {i}")).collect::<Vec<_>>().join("\n"),
        "short\nquote".to_string(),
    ];
    for s in samples {
        let once = format_quote(&s);
        assert_eq!(format_quote(&once), once);
    }
}
