use cabrillo::grammar::{
    cabrillo_callsign, cabrillo_datetime, cabrillo_email, cabrillo_frequency,
    cabrillo_grid_locator, cabrillo_offtime, cabrillo_operators, cabrillo_signal_report,
    cabrillo_tag,
};
use cabrillo::{Frequency, Offtime, SignalReport, Timestamp};

#[test]
fn parse_tag() {
    let result = cabrillo_tag("VERSION: 2.0\n");
    assert_eq!(result, Some(("\n", ("VERSION", "2.0"))));
}

#[test]
fn parse_email() {
    let result = cabrillo_email("name@test.com");
    assert_eq!(result, Some(("", "name@test.com")));

    let result = cabrillo_email("fasdklfj@lakjsdf");
    assert!(result.is_none());

    let result = cabrillo_email("893u4f9834.com");
    assert!(result.is_none());
}

#[test]
fn parse_grid_locator() {
    let result = cabrillo_grid_locator("FN20ib");
    assert_eq!(result, Some(("", "FN20ib")));

    let result = cabrillo_grid_locator("AR34id11");
    assert_eq!(result, Some(("", "AR34id11")));

    let result = cabrillo_grid_locator("Az99xx");
    assert!(result.is_none());

    let result = cabrillo_grid_locator("asdf");
    assert!(result.is_none());

    let result = cabrillo_grid_locator("FN20id00xx");
    assert!(result.is_none());
}

#[test]
fn parse_callsign() {
    for call in ["K3AH", "VK2ABCD/M", "2E0ABC", "@W1AW/p"] {
        let _ = cabrillo_callsign(call).unwrap();
    }
}

#[test]
fn tag_takes_the_longest_run_of_tag_characters() {
    assert_eq!(cabrillo_tag("CATEGORY-BAND: 20M"), Some(("", ("CATEGORY-BAND", "20M"))));
    assert_eq!(cabrillo_tag("X-O'CLOCK 9: tea"), Some(("", ("X-O'CLOCK 9", "tea"))));
    assert_eq!(cabrillo_tag("SOAPBOX: a: b"), Some(("", ("SOAPBOX", "a: b"))));
    assert_eq!(cabrillo_tag("DEBUG: "), Some(("", ("DEBUG", ""))));
}

#[test]
fn tag_needs_a_colon_and_a_space() {
    assert_eq!(cabrillo_tag("CALLSIGN:K3AH"), None);
    assert_eq!(cabrillo_tag("CALLSIGN K3AH"), None);
    assert_eq!(cabrillo_tag(": K3AH"), None);
    assert_eq!(cabrillo_tag("callsign: K3AH"), None);
    assert_eq!(cabrillo_tag("DEBUG"), None);
    assert_eq!(cabrillo_tag(""), None);
}

#[test]
fn tag_value_ends_at_the_line_ending() {
    assert_eq!(cabrillo_tag("NAME: Ann\r\nrest"), Some(("\r\nrest", ("NAME", "Ann"))));
    assert_eq!(cabrillo_tag("NAME: Ann\nrest"), Some(("\nrest", ("NAME", "Ann"))));
    assert_eq!(cabrillo_tag("NAME: Ann\r"), None);
    assert_eq!(cabrillo_tag("NAME: An\rn"), None);
}

#[test]
fn tag_end_of_log_stands_alone() {
    assert_eq!(cabrillo_tag("END-OF-LOG"), Some(("", ("END-OF-LOG", ""))));
    assert_eq!(cabrillo_tag("END-OF-LOG:"), Some((":", ("END-OF-LOG", ""))));
    assert_eq!(cabrillo_tag("END-OF-LOG\r"), Some(("\r", ("END-OF-LOG", ""))));
    assert_eq!(cabrillo_tag("END-OF-LOG: "), Some(("", ("END-OF-LOG", ""))));
    assert_eq!(cabrillo_tag("END-OF-LO"), None);
}

#[test]
fn callsign_parts() {
    assert_eq!(cabrillo_callsign("K3AH"), Some(("", "K3AH")));
    assert_eq!(cabrillo_callsign("@W1AW/p rest"), Some((" rest", "@W1AW/p")));
    assert_eq!(cabrillo_callsign("W1AW/"), Some(("/", "W1AW")));
    assert_eq!(cabrillo_callsign("W1AW//P"), Some(("//P", "W1AW")));
    assert_eq!(cabrillo_callsign("ABCDEFGHIJ"), Some(("IJ", "ABCDEFGH")));
    assert_eq!(cabrillo_callsign("K3AH/ABCDEFGHIJ"), Some(("IJ", "K3AH/ABCDEFGH")));
    assert_eq!(cabrillo_callsign("ABC"), Some(("", "ABC")));
}

#[test]
fn callsign_needs_three_letters_or_digits() {
    assert_eq!(cabrillo_callsign("AB"), None);
    assert_eq!(cabrillo_callsign("@AB"), None);
    assert_eq!(cabrillo_callsign("AB/CDE"), None);
    assert_eq!(cabrillo_callsign(" K3AH"), None);
    assert_eq!(cabrillo_callsign("@@K3AH"), None);
    assert_eq!(cabrillo_callsign(""), None);
    assert_eq!(cabrillo_callsign("@"), None);
}

#[test]
fn email_domain_reaches_to_the_last_dot_with_a_suffix() {
    assert_eq!(cabrillo_email("a@b.co.uk"), Some(("", "a@b.co.uk")));
    assert_eq!(cabrillo_email("a@b.com.x"), Some((".x", "a@b.com")));
    assert_eq!(cabrillo_email("first.last@example.org"), Some(("", "first.last@example.org")));
    assert_eq!(cabrillo_email("a_b-c@d-e_f.gh, x"), Some((", x", "a_b-c@d-e_f.gh")));
    assert_eq!(cabrillo_email("name@test.museum"), Some(("m", "name@test.museu")));
    assert_eq!(cabrillo_email("name@test.com>"), Some((">", "name@test.com")));
}

#[test]
fn email_needs_every_part() {
    assert_eq!(cabrillo_email("@test.com"), None);
    assert_eq!(cabrillo_email("name@.com"), None);
    assert_eq!(cabrillo_email("name@test.c"), None);
    assert_eq!(cabrillo_email("name@test."), None);
    assert_eq!(cabrillo_email("name@@test.com"), None);
    assert_eq!(cabrillo_email("name test@test.com"), None);
    assert_eq!(cabrillo_email(""), None);
}

#[test]
fn grid_locator_shapes() {
    assert_eq!(cabrillo_grid_locator("FN20"), Some(("", "FN20")));
    assert_eq!(cabrillo_grid_locator("fn20"), Some(("", "fn20")));
    assert_eq!(cabrillo_grid_locator("rR99xx99"), Some(("", "rR99xx99")));
    assert_eq!(cabrillo_grid_locator("FN2011"), Some(("", "FN2011")));
    assert_eq!(cabrillo_grid_locator("AA00aa"), Some(("", "AA00aa")));
}

#[test]
fn grid_locator_takes_the_whole_value() {
    assert_eq!(cabrillo_grid_locator("FN20 "), None);
    assert_eq!(cabrillo_grid_locator(" FN20"), None);
    assert_eq!(cabrillo_grid_locator("FN20i"), None);
    assert_eq!(cabrillo_grid_locator("FN20ib1"), None);
    assert_eq!(cabrillo_grid_locator("FN20IB"), None);
    assert_eq!(cabrillo_grid_locator("FN20yy"), None);
    assert_eq!(cabrillo_grid_locator("SN20"), None);
    assert_eq!(cabrillo_grid_locator("FN2"), None);
    assert_eq!(cabrillo_grid_locator("FN201122"), None);
    assert_eq!(cabrillo_grid_locator(""), None);
}

#[test]
fn frequency_is_a_number_of_32_bits() {
    assert_eq!(cabrillo_frequency("14250"), Some(("", Frequency::Khz(14250))));
    assert_eq!(cabrillo_frequency("007 x"), Some((" x", Frequency::Khz(7))));
    assert_eq!(cabrillo_frequency("4294967295"), Some(("", Frequency::Khz(u32::MAX))));
    assert_eq!(cabrillo_frequency("4294967296"), None);
    assert_eq!(cabrillo_frequency("99999999999999999999999999"), None);
    assert_eq!(cabrillo_frequency("LIGHT"), None);
    assert_eq!(cabrillo_frequency("-1"), None);
    assert_eq!(cabrillo_frequency(""), None);
}

#[test]
fn signal_report_of_two_digits() {
    for r in 1..=5u8 {
        for s in 1..=9u8 {
            let text = format!("{}{}", r, s);
            assert_eq!(cabrillo_signal_report(&text), Some(SignalReport(r, s, 0)));
        }
    }
}

#[test]
fn signal_report_of_three_digits() {
    for r in 1..=5u8 {
        for s in 1..=9u8 {
            for t in 0..=9u8 {
                let text = format!("{}{}{}", r, s, t);
                assert_eq!(cabrillo_signal_report(&text), Some(SignalReport(r, s, t)));
            }
        }
    }
}

#[test]
fn signal_report_out_of_range() {
    for text in [
        "", "7", "5", "00", "000", "asd", "999", "69", "50", "09", "5999", "59a", "5 9", "59 ",
        "\u{665}\u{669}",
    ] {
        assert_eq!(cabrillo_signal_report(text), None);
    }
}

#[test]
fn operators_are_parted_by_commas_and_spaces() {
    assert_eq!(cabrillo_operators("W1AW, K3AH W2ABC"), vec!["W1AW", "K3AH", "W2ABC"]);
    assert_eq!(cabrillo_operators("W1AW"), vec!["W1AW"]);
    assert_eq!(cabrillo_operators(",, W1AW ,,K3AH,"), vec!["W1AW", "K3AH"]);
    assert_eq!(cabrillo_operators("@W1AW/p,W1AW"), vec!["@W1AW/p", "W1AW"]);
    assert_eq!(cabrillo_operators("\tW1AW\t K3AH"), vec!["W1AW", "K3AH"]);
    assert_eq!(cabrillo_operators(""), Vec::<String>::new());
    assert_eq!(cabrillo_operators(" , ,\t, "), Vec::<String>::new());
}

#[test]
fn datetime_of_a_minute_that_exists() {
    assert_eq!(
        cabrillo_datetime("2021-06-12 1345"),
        Some(("", Timestamp { year: 2021, month: 6, day: 12, hour: 13, minute: 45 }))
    );
    assert_eq!(
        cabrillo_datetime("2020-02-29 0000 W1AW"),
        Some((" W1AW", Timestamp { year: 2020, month: 2, day: 29, hour: 0, minute: 0 }))
    );
    assert_eq!(
        cabrillo_datetime("2000-02-29 2359"),
        Some(("", Timestamp { year: 2000, month: 2, day: 29, hour: 23, minute: 59 }))
    );
    assert_eq!(
        cabrillo_datetime("0000-01-01 0000"),
        Some(("", Timestamp { year: 0, month: 1, day: 1, hour: 0, minute: 0 }))
    );
    assert_eq!(
        cabrillo_datetime("9999-12-31 23599"),
        Some(("9", Timestamp { year: 9999, month: 12, day: 31, hour: 23, minute: 59 }))
    );
}

#[test]
fn datetime_of_a_minute_that_does_not_exist() {
    for text in [
        "2021-02-29 0000",
        "1900-02-29 0000",
        "2100-02-29 0000",
        "2021-04-31 0000",
        "2021-13-01 0000",
        "2021-00-10 0000",
        "2021-01-00 0000",
        "2021-01-32 0000",
        "2021-01-01 2400",
        "2021-01-01 0060",
    ] {
        assert_eq!(cabrillo_datetime(text), None);
    }
}

#[test]
fn datetime_of_another_shape() {
    for text in [
        "",
        "2021-06-12",
        "2021-06-12 134",
        "2021-06-12  1345",
        "2021-06-12T1345",
        "2021-6-12 1345",
        "21-06-12 1345",
        "2021/06/12 1345",
        "2021-06-12 13:45",
        " 2021-06-12 1345",
        "+021-06-12 1345",
        "2021-06-12\t1345",
    ] {
        assert_eq!(cabrillo_datetime(text), None);
    }
}

#[test]
fn datetime_agrees_with_the_calendar_on_every_day() {
    for year in [0, 1, 4, 100, 400, 1900, 1999, 2000, 2020, 2021, 2100, 9999] {
        for month in 0..=13u32 {
            for day in 0..=32u32 {
                let text = format!("{:04}-{:02}-{:02} 1200", year, month, day);
                let long = [1, 3, 5, 7, 8, 10, 12].contains(&month);
                let short = [4, 6, 9, 11].contains(&month);
                let leap = year % 4 == 0 && (year % 100 != 0 || year % 400 == 0);
                let days = if long {
                    31
                } else if short {
                    30
                } else if month == 2 && leap {
                    29
                } else if month == 2 {
                    28
                } else {
                    0
                };
                let expected = if 1 <= day && day <= days {
                    Some(("", Timestamp { year, month, day, hour: 12, minute: 0 }))
                } else {
                    None
                };
                assert_eq!(cabrillo_datetime(&text), expected);
                assert_eq!(Timestamp::new(year, month, day, 12, 0), expected.map(|found| found.1));
            }
        }
    }
}

#[test]
fn datetime_agrees_with_the_clock_on_every_minute() {
    for hour in 0..=99u32 {
        for minute in 0..=99u32 {
            let text = format!("2021-06-12 {:02}{:02}", hour, minute);
            let expected = if hour <= 23 && minute <= 59 {
                Some(("", Timestamp { year: 2021, month: 6, day: 12, hour, minute }))
            } else {
                None
            };
            assert_eq!(cabrillo_datetime(&text), expected);
        }
    }
}

#[test]
fn timestamp_new_checks_the_year() {
    assert_eq!(Timestamp::new(-1, 1, 1, 0, 0), None);
    assert_eq!(Timestamp::new(10000, 1, 1, 0, 0), None);
    assert_eq!(
        Timestamp::new(1999, 12, 31, 23, 59),
        Some(Timestamp { year: 1999, month: 12, day: 31, hour: 23, minute: 59 })
    );
}

#[test]
fn offtime_is_two_timestamps_and_a_space() {
    let begin = Timestamp { year: 2021, month: 6, day: 12, hour: 13, minute: 45 };
    let end = Timestamp { year: 2021, month: 6, day: 12, hour: 15, minute: 0 };
    let found = cabrillo_offtime("2021-06-12 1345 2021-06-12 1500").unwrap();
    assert_eq!(found, ("", Offtime { begin, end }));
    assert_eq!(found.1.begin(), &begin);
    assert_eq!(found.1.end(), &end);
    assert_eq!(
        cabrillo_offtime("2021-06-12 1345 2021-06-12 1500 more"),
        Some((" more", Offtime { begin, end }))
    );
    assert_eq!(cabrillo_offtime("2021-06-12 1345  2021-06-12 1500"), None);
    assert_eq!(cabrillo_offtime("2021-06-12 1345\t2021-06-12 1500"), None);
    assert_eq!(cabrillo_offtime("2021-06-12 1345 2021-06-31 1500"), None);
    assert_eq!(cabrillo_offtime("2021-06-12 1345"), None);
    assert_eq!(cabrillo_offtime(""), None);
}
