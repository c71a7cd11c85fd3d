use cabrillo::category::scan_mode;
use cabrillo::grammar::{
    cabrillo_callsign, cabrillo_datetime, cabrillo_frequency, cabrillo_offtime, cabrillo_tag,
};
use cabrillo::qso::cabrillo_qso;
use cabrillo::text::chars_of;
use cabrillo::{Frequency, Mode, Timestamp};
use chrono::{Datelike, NaiveDateTime, Timelike};
use nom::branch::alt;
use nom::bytes::complete::{tag, take_while_m_n};
use nom::character::complete::{
    alphanumeric1, char, digit1, not_line_ending, one_of, space0, space1,
};
use nom::combinator::{complete, map_res, opt, recognize, value};
use nom::multi::many1;
use nom::sequence::{preceded, separated_pair, terminated, tuple};
use nom::IResult;

// The grammars of the library once more, put together from nom's
// combinators: on every text of the lists below both must give the same.

fn tag_by_nom(input: &str) -> IResult<&str, (&str, &str)> {
    alt((
        complete(separated_pair(
            recognize(many1(one_of("ABCDEFGHIJKLMNOPQRSTUVWXYZ0123456789-' "))),
            tag(": "),
            not_line_ending,
        )),
        nom::combinator::map(tag("END-OF-LOG"), |name| (name, "")),
    ))(input)
}

fn callsign_by_nom(input: &str) -> IResult<&str, &str> {
    recognize(tuple((
        opt(tag("@")),
        take_while_m_n(3, 8, |c: char| c.is_ascii_alphanumeric()),
        opt(preceded(tag("/"), take_while_m_n(1, 8, |c: char| c.is_ascii_alphanumeric()))),
    )))(input)
}

fn frequency_by_nom(input: &str) -> IResult<&str, Frequency> {
    let number = map_res(digit1, |digits: &str| digits.parse::<u32>());
    nom::combinator::map(number, Frequency::Khz)(input)
}

fn stamp_of(time: NaiveDateTime) -> Timestamp {
    Timestamp {
        year: time.year(),
        month: time.month(),
        day: time.day(),
        hour: time.hour(),
        minute: time.minute(),
    }
}

fn datetime_by_nom(input: &str) -> IResult<&str, Timestamp> {
    nom::combinator::map(
        map_res(
            recognize(tuple((
                take_while_m_n(4, 4, |c: char| c.is_ascii_digit()),
                tag("-"),
                take_while_m_n(2, 2, |c: char| c.is_ascii_digit()),
                tag("-"),
                take_while_m_n(2, 2, |c: char| c.is_ascii_digit()),
                tag(" "),
                take_while_m_n(4, 4, |c: char| c.is_ascii_digit()),
            ))),
            |text: &str| NaiveDateTime::parse_from_str(text, "%Y-%m-%d %H%M"),
        ),
        stamp_of,
    )(input)
}

fn offtime_by_nom(input: &str) -> IResult<&str, (Timestamp, Timestamp)> {
    separated_pair(datetime_by_nom, char(' '), datetime_by_nom)(input)
}

fn mode_by_nom(input: &str) -> IResult<&str, Mode> {
    alt((
        value(Mode::Cw, tag("CW")),
        value(Mode::Fm, tag("FM")),
        value(Mode::Phone, alt((tag("PH"), tag("SSB")))),
        value(Mode::Rtty, alt((tag("RY"), tag("RTTY")))),
        value(Mode::Digital, alt((tag("DG"), tag("DIGI")))),
        value(Mode::Mixed, tag("MIXED")),
    ))(input)
}

type Head<'a> = (Frequency, Mode, Timestamp, &'a str);

fn head_by_nom(input: &str) -> IResult<&str, Head<'_>> {
    preceded(
        space0,
        tuple((
            terminated(frequency_by_nom, space1),
            terminated(mode_by_nom, space1),
            terminated(datetime_by_nom, space1),
            terminated(callsign_by_nom, space1),
        )),
    )(input)
}

type Contact<'a> = (Head<'a>, String, &'a str, String, bool);

fn long_layout_by_nom(input: &str) -> IResult<&str, Contact<'_>> {
    nom::combinator::map(
        tuple((
            head_by_nom,
            terminated(alphanumeric1, space1),
            terminated(alphanumeric1, space1),
            terminated(callsign_by_nom, space1),
            terminated(alphanumeric1, space1),
            terminated(alphanumeric1, space0),
        )),
        |(head, sent_1, sent_2, call, recvd_1, recvd_2): (Head<'_>, &str, &str, _, &str, &str)| {
            (head, format!("{} {}", sent_1, sent_2), call, format!("{} {}", recvd_1, recvd_2), true)
        },
    )(input)
}

fn short_layout_by_nom(input: &str) -> IResult<&str, Contact<'_>> {
    nom::combinator::map(
        tuple((
            head_by_nom,
            terminated(alphanumeric1, space1),
            terminated(callsign_by_nom, space1),
            terminated(alphanumeric1, space0),
        )),
        |(head, sent, call, recvd): (Head<'_>, &str, _, &str)| {
            (head, sent.to_string(), call, recvd.to_string(), false)
        },
    )(input)
}

fn qso_by_nom(input: &str) -> IResult<&str, Contact<'_>> {
    alt((long_layout_by_nom, short_layout_by_nom))(input)
}

/// Every text of up to `length` characters of `alphabet`.
fn texts(alphabet: &[&str], length: usize) -> Vec<String> {
    let mut all = vec![String::new()];
    let mut last = vec![String::new()];
    for _ in 0..length {
        let mut next = Vec::new();
        for text in &last {
            for part in alphabet {
                next.push(format!("{}{}", text, part));
            }
        }
        all.extend(next.iter().cloned());
        last = next;
    }
    all
}

#[test]
fn tag_agrees_with_combinators() {
    let mut count = 0;
    let parts = ["A", "9", "-", "'", " ", ":", ": ", "x", "\r", "\n", "END-OF-LOG", "\u{e9}"];
    for text in texts(&parts, 4) {
        assert_eq!(cabrillo_tag(&text), tag_by_nom(&text).ok(), "{:?}", text);
        count += cabrillo_tag(&text).is_some() as usize;
    }
    assert!(count > 1000);
}

#[test]
fn callsign_agrees_with_combinators() {
    let mut count = 0;
    for text in texts(&["@", "K", "3", "a", "/", " ", "ABC", "WXYZ1", "\u{e9}", "-"], 5) {
        assert_eq!(cabrillo_callsign(&text), callsign_by_nom(&text).ok(), "{:?}", text);
        count += cabrillo_callsign(&text).is_some() as usize;
    }
    assert!(count > 1000);
}

#[test]
fn frequency_agrees_with_combinators() {
    let mut count = 0;
    for text in texts(&["0", "4", "9", "29496", "7295", "7296", " ", "x", "-", "\u{663}"], 4) {
        assert_eq!(cabrillo_frequency(&text), frequency_by_nom(&text).ok(), "{:?}", text);
        count += cabrillo_frequency(&text).is_some() as usize;
    }
    assert!(count > 1000);
}

#[test]
fn datetime_agrees_with_combinators() {
    let mut count = 0;
    let years = ["0000", "1900", "2000", "2021", "2024", "9999", "20x1", "202"];
    let months = ["-00", "-01", "-02", "-04", "-12", "-13", "-1", "-1a", "02", "/02"];
    let days = ["-00", "-01", "-28", "-29", "-30", "-31", "-32", "-3", "30", "-\u{661}\u{662}"];
    let times = [
        " 0000", " 2359", " 2400", " 1260", " 12345", " 123", "1200", "  1200", "\t1200", " 12:00",
        " 1200 x",
    ];
    for year in years {
        for month in months {
            for day in days {
                for time in times {
                    let text = format!("{}{}{}{}", year, month, day, time);
                    assert_eq!(cabrillo_datetime(&text), datetime_by_nom(&text).ok(), "{:?}", text);
                    count += cabrillo_datetime(&text).is_some() as usize;
                }
            }
        }
    }
    assert!(count > 300);
}

#[test]
fn offtime_agrees_with_combinators() {
    let mut count = 0;
    let stamps = ["2021-06-12 1345", "2021-06-31 1345", "2021-06-12 134", "2020-02-29 0000", ""];
    let gaps = [" ", "  ", "", "\t", "-"];
    let tails = ["", " ", " x", "5"];
    for begin in stamps {
        for gap in gaps {
            for end in stamps {
                for tail in tails {
                    let text = format!("{}{}{}{}", begin, gap, end, tail);
                    let found = cabrillo_offtime(&text)
                        .map(|(rest, offtime)| (rest, (offtime.begin, offtime.end)));
                    assert_eq!(found, offtime_by_nom(&text).ok(), "{:?}", text);
                    count += found.is_some() as usize;
                }
            }
        }
    }
    assert!(count >= 16);
}

#[test]
fn mode_agrees_with_combinators() {
    let mut count = 0;
    let parts =
        ["C", "W", "F", "M", "P", "H", "S", "B", "R", "Y", "T", "D", "G", "I", "X", "E", " "];
    for text in texts(&parts, 4)
        .into_iter()
        .chain(["MIXED", "MIXED ", "MIXE", "MIXEDD", "xMIXED"].map(String::from))
    {
        let chars = chars_of(&text);
        for at in 0..=chars.len() + 1 {
            let rest: String = chars.iter().skip(at).collect();
            let expected = if at <= chars.len() {
                mode_by_nom(&rest).ok().map(|(left, mode)| (mode, chars.len() - left.len()))
            } else {
                None
            };
            assert_eq!(scan_mode(&chars, at), expected, "{:?} at {}", text, at);
            count += expected.is_some() as usize;
        }
    }
    assert!(count > 1000);
}

/// Every choice of one text from each of `lists`.
fn choices(lists: &[&[&'static str]]) -> Vec<Vec<&'static str>> {
    let mut all = vec![Vec::new()];
    for list in lists {
        let mut next = Vec::new();
        for chosen in &all {
            for text in *list {
                let mut longer = chosen.clone();
                longer.push(*text);
                next.push(longer);
            }
        }
        all = next;
    }
    all
}

#[test]
fn qso_agrees_with_combinators() {
    let mut count = [0, 0, 0];
    let calls = ["W1AW", "@K3AH/P", "W1"];
    let tokens = ["599", "Tree", "1", "5-9", ""];
    let lists: [&[&str]; 11] = [
        &[" ", "  \t", ""],
        &["14250", "x"],
        &["CW", "RTTY", "CWX"],
        &["2021-06-12 1345", "2021-06-31 1345"],
        &calls,
        &tokens,
        &tokens,
        &calls,
        &tokens,
        &["73"],
        &["", " ", " 0", "/"],
    ];
    for chosen in choices(&lists) {
        let gap = chosen[0];
        let fields: Vec<&str> =
            chosen[1..10].iter().filter(|field| !field.is_empty()).cloned().collect();
        let between = if gap.is_empty() { " " } else { gap };
        let text = format!("{}{}{}", gap, fields.join(between), chosen[10]);
        match (cabrillo_qso(&text), qso_by_nom(&text).ok()) {
            (None, None) => count[0] += 1,
            (Some((rest, qso)), Some((left, contact))) => {
                let ((frequency, mode, time, call), sent, other, recvd, long) = contact;
                assert_eq!(rest, left, "{:?}", text);
                assert_eq!(qso.frequency(), &frequency);
                assert_eq!(qso.mode(), &mode);
                assert_eq!(qso.datetime(), &time);
                assert_eq!(qso.call_sent(), call);
                assert_eq!(qso.exchange_sent(), &sent);
                assert_eq!(qso.call_received(), other);
                assert_eq!(qso.exchange_received(), &recvd);
                assert_eq!(qso.sent_report().is_some(), long && sent.starts_with("599 "));
                assert_eq!(qso.received_report().is_some(), long && recvd.starts_with("599 "));
                count[1 + long as usize] += 1;
            },
            _ => panic!("{:?}", text),
        }
    }
    assert!(count[0] > 1000 && count[1] > 100 && count[2] > 100, "{:?}", count);
}
