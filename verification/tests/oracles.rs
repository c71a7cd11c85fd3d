use cabrillo::grammar::{cabrillo_email, cabrillo_grid_locator, cabrillo_operators};
use cabrillo::handlers::cabrillo_log_claimed_score;
use cabrillo::CabrilloLog;

/// Every text of up to `length` characters of `alphabet`.
fn words(alphabet: &[char], length: usize) -> Vec<String> {
    let mut all = vec![String::new()];
    let mut last = vec![String::new()];
    for _ in 0..length {
        let mut next = Vec::new();
        for text in &last {
            for c in alphabet {
                let mut longer = text.clone();
                longer.push(*c);
                next.push(longer);
            }
        }
        all.extend(next.iter().cloned());
        last = next;
    }
    all
}

fn email_part(c: char) -> bool {
    c.is_ascii_alphanumeric() || c == '_' || c == '.' || c == '-'
}

/// Whether `text` is, as a whole, a local part, an `@`, a domain, a dot and
/// a suffix of two to five letters and digits.
fn is_address(text: &[char]) -> bool {
    (0..text.len()).any(|at| {
        text[at] == '@' && at > 0 && text[..at].iter().all(|c| email_part(*c)) && {
            let tail = &text[at + 1..];
            (1..tail.len()).any(|dot| {
                let suffix = &tail[dot + 1..];
                tail[dot] == '.'
                    && tail[..dot].iter().all(|c| email_part(*c))
                    && (2..=5).contains(&suffix.len())
                    && suffix.iter().all(|c| c.is_ascii_alphanumeric())
            })
        }
    })
}

#[test]
fn email_is_the_longest_address_at_the_start() {
    let mut count = 0;
    for text in words(&['a', '7', '.', '-', '@', ' ', 'Z'], 7) {
        let chars: Vec<char> = text.chars().collect();
        let longest = (0..=chars.len()).rev().find(|end| is_address(&chars[..*end]));
        let expected = longest.map(|end| (&text[end..], &text[..end]));
        assert_eq!(cabrillo_email(&text), expected, "{:?}", text);
        count += expected.is_some() as usize;
    }
    assert!(count > 1000);
}

#[test]
fn email_suffix_is_cut_after_five() {
    assert_eq!(cabrillo_email("a@b.cdefgh"), Some(("h", "a@b.cdefg")));
    assert_eq!(cabrillo_email("a@b.cdefgh.ij"), Some(("", "a@b.cdefgh.ij")));
    assert_eq!(cabrillo_email("a@b.cdefgh.i"), Some(("h.i", "a@b.cdefg")));
    assert_eq!(cabrillo_email("a@b.c.defghij"), Some(("ij", "a@b.c.defgh")));
}

fn is_locator(text: &[char]) -> bool {
    let field = |c: &char| ('A'..='R').contains(c) || ('a'..='r').contains(c);
    let subsquare = |c: &char| ('a'..='x').contains(c);
    let digit = |c: &char| c.is_ascii_digit();
    let head = text.len() >= 4 && text[..2].iter().all(field) && text[2..4].iter().all(digit);
    let tail = if text.len() >= 4 { &text[4..] } else { &text[..0] };
    head && match tail.len() {
        0 => true,
        2 => tail.iter().all(subsquare) || tail.iter().all(digit),
        4 => tail[..2].iter().all(subsquare) && tail[2..].iter().all(digit),
        _ => false,
    }
}

#[test]
fn grid_locator_is_one_of_four_shapes() {
    let mut count = 0;
    let alphabet = ['A', 'R', 'S', 'r', 'x', 'y', '0', '9', ' '];
    for text in words(&alphabet, 6) {
        let chars: Vec<char> = text.chars().collect();
        let expected = if is_locator(&chars) { Some(("", text.as_str())) } else { None };
        assert_eq!(cabrillo_grid_locator(&text), expected, "{:?}", text);
        count += expected.is_some() as usize;
    }
    for head in ["AR09", "rA90", "AS00", "A000"] {
        for tail in words(&['r', 'x', 'y', 'X', '0', '9'], 5) {
            let text = format!("{}{}", head, tail);
            let chars: Vec<char> = text.chars().collect();
            let expected = if is_locator(&chars) { Some(("", text.as_str())) } else { None };
            assert_eq!(cabrillo_grid_locator(&text), expected, "{:?}", text);
            count += expected.is_some() as usize;
        }
    }
    assert!(count > 300);
}

#[test]
fn operators_are_what_splitting_and_trimming_gives() {
    let mut count = 0;
    for text in words(&['K', '3', ',', ' ', '\t', '@', '/', '\u{a0}', '\u{e9}'], 6) {
        let expected: Vec<&str> = text
            .split(|c| c == ',' || c == ' ')
            .map(|item| item.trim())
            .filter(|item| !item.is_empty())
            .collect();
        assert_eq!(cabrillo_operators(&text), expected, "{:?}", text);
        count += expected.len();
    }
    assert!(count > 1000);
}

#[test]
fn claimed_score_is_the_number_at_the_start() {
    let long = ["4294967295", "4294967296", "04294967295", "42949672950", "99999999999"];
    let short = words(&['0', '4', '9', ' ', 'x', '-', '+'], 5);
    for text in short.into_iter().chain(long.map(String::from))
    {
        let digits: String = text.chars().take_while(|c| c.is_ascii_digit()).collect();
        let expected = digits.parse::<u32>().ok();
        let mut log = CabrilloLog::new();
        assert!(cabrillo_log_claimed_score(&text, &mut log).is_ok());
        assert_eq!(log.claimed_score(), &expected, "{:?}", text);
    }
}

#[test]
fn bytes_read_as_their_lines_do() {
    let parts = [
        "CALLSIGN: K3AH",
        "CALLSIGN: K3",
        "NAME:  Zo\u{eb} ",
        "X-A: 1",
        "X-A: 2",
        "",
        "OPERATORS: K3AH, W1AW",
        "QSO: 7005 CW 2021-06-12 1345 K3AH 599 001 W1AW 599 002",
        "X-QSO: 7005 CW 2021-06-12 1345 K3AH 001 W1AW 002",
        "QSO: 7005",
        "END-OF-LOG",
        "junk",
        "ADDRESS: a",
        "SOAPBOX: b\r",
    ];
    let mut count = [0, 0];
    for first in parts {
        for second in parts {
            for third in parts {
                for fourth in ["", "ADDRESS-CITY: c", "CLAIMED-SCORE: x"] {
                    let lines = [first, second, third, fourth];
                    let from_lines = CabrilloLog::from_lines(&lines);
                    let from_bytes = CabrilloLog::from_buffer(lines.join("\n").as_bytes());
                    match (from_lines, from_bytes) {
                        (Ok(a), Ok(b)) => {
                            assert_eq!(format!("{:?}", a), format!("{:?}", b));
                            count[0] += 1;
                        },
                        (Err(a), Err(b)) => {
                            assert_eq!(a.to_string(), b.to_string());
                            assert_eq!(a.tag(), b.tag());
                            assert_eq!(a.line(), b.line());
                            count[1] += 1;
                        },
                        (a, b) => panic!("{:?} {:?}", a, b),
                    }
                }
            }
        }
    }
    assert!(count[0] > 1000 && count[1] > 1000);
}
