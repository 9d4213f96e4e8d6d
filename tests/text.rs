use hn_views::raw_command::{ParseError, RawCommand};
use hn_views::story::Story;
use hn_views::styled::{get_story_text, numbered_story_text, push_decimal, push_elapsed_text, TextStyle};

fn story(url: &str, time: u64) -> Story {
    Story {
        id: 7,
        title: String::from("Rust 2.0"),
        url: String::from(url),
        author: String::from("alice"),
        points: 42,
        num_comments: 5,
        time,
    }
}

#[test]
fn decimal_digits() {
    let mut s = String::from("n=");
    push_decimal(&mut s, 0);
    assert_eq!(s, "n=0");
    let mut s = String::new();
    push_decimal(&mut s, 12345);
    assert_eq!(s, "12345");
    let mut s = String::new();
    push_decimal(&mut s, u64::MAX);
    assert_eq!(s, u64::MAX.to_string());
}

#[test]
fn elapsed_units() {
    let cases: [(u64, &str); 8] = [
        (0, "0 seconds"),
        (59, "59 seconds"),
        (60, "1 minutes"),
        (150, "2 minutes"),
        (3600, "1 hours"),
        (7300, "2 hours"),
        (86400, "1 days"),
        (3 * 86400 + 5, "3 days"),
    ];
    for (e, want) in cases {
        let mut s = String::new();
        push_elapsed_text(&mut s, e);
        assert_eq!(s, want);
    }
}

#[test]
fn story_text_with_link() {
    let t = get_story_text(&story("https://example.com", 1000), 1120);
    assert_eq!(t.spans.len(), 3);
    assert_eq!(t.spans[0].style, TextStyle::Plain);
    assert_eq!(t.spans[0].text, "Rust 2.0");
    assert_eq!(t.spans[1].style, TextStyle::Link);
    assert_eq!(t.spans[1].text, "\n(https://example.com)");
    assert_eq!(t.spans[2].style, TextStyle::Description);
    assert_eq!(t.spans[2].text, "\n42 points | by alice | 2 minutes ago | 5 comments");
}

#[test]
fn story_text_without_link() {
    let t = get_story_text(&story("", 1000), 1000 + 2 * 86400);
    assert_eq!(t.spans.len(), 2);
    assert_eq!(t.spans[0].text, "Rust 2.0");
    assert_eq!(t.spans[1].style, TextStyle::Description);
    assert_eq!(t.spans[1].text, "\n42 points | by alice | 2 days ago | 5 comments");
}

#[test]
fn story_text_from_the_future() {
    let t = get_story_text(&story("", 5000), 1000);
    assert_eq!(t.spans[1].text, "\n42 points | by alice | 0 seconds ago | 5 comments");
}

#[test]
fn numbered_line_counts_from_one() {
    let t = numbered_story_text(11, &story("", 0), 30);
    assert_eq!(t.spans.len(), 3);
    assert_eq!(t.spans[0].style, TextStyle::Plain);
    assert_eq!(t.spans[0].text, "12. ");
    assert_eq!(t.spans[1].text, "Rust 2.0");
}

#[test]
fn raw_command_reads_digits_in_order() {
    let mut b = RawCommand::new();
    assert_eq!(b.as_number(), Err(ParseError::Empty));
    for c in ['1', 'x', '2', ' ', '3'] {
        b.push_digit(c);
    }
    assert_eq!(b.as_number(), Ok(123));
    b.push_digit('0');
    assert_eq!(b.as_number(), Ok(1230));
    b.clear();
    assert!(b.is_empty());
    assert_eq!(b.as_number(), Err(ParseError::Empty));
}

#[test]
fn raw_command_leading_zero() {
    let mut b = RawCommand::new();
    b.push_digit('0');
    b.push_digit('7');
    assert_eq!(b.as_number(), Ok(7));
}

#[test]
fn raw_command_overflow() {
    let mut b = RawCommand::new();
    for _ in 0..30 {
        b.push_digit('9');
    }
    assert_eq!(b.as_number(), Err(ParseError::Overflow));
}
