use cabrillo::qso::cabrillo_qso;
use cabrillo::{Frequency, Mode, SignalReport, Timestamp};

#[test]
fn qso_long_layout_with_signal_reports() {
    let (rest, qso) =
        cabrillo_qso("14250 CW 2021-06-12 1345 W1AW 599 14250 K3AH 599 14250").unwrap();
    assert_eq!(rest, "");
    assert_eq!(qso.frequency(), &Frequency::Khz(14250));
    assert_eq!(qso.mode(), &Mode::Cw);
    assert_eq!(
        qso.datetime(),
        &Timestamp { year: 2021, month: 6, day: 12, hour: 13, minute: 45 }
    );
    assert_eq!(qso.call_sent(), "W1AW");
    assert_eq!(qso.exchange_sent(), "599 14250");
    assert_eq!(qso.call_received(), "K3AH");
    assert_eq!(qso.exchange_received(), "599 14250");
    assert_eq!(qso.sent_report(), &Some(SignalReport(5, 9, 9)));
    assert_eq!(qso.received_report(), &Some(SignalReport(5, 9, 9)));
    assert!(!qso.transmitter_id());
}

#[test]
fn qso_long_layout_without_signal_reports() {
    let (rest, qso) =
        cabrillo_qso("14042 CW 1999-09-05 0000 N5KO Trey CA N6TR Tree OR").unwrap();
    assert_eq!(rest, "");
    assert_eq!(qso.call_sent(), "N5KO");
    assert_eq!(qso.exchange_sent(), "Trey CA");
    assert_eq!(qso.call_received(), "N6TR");
    assert_eq!(qso.exchange_received(), "Tree OR");
    assert_eq!(qso.sent_report(), &None);
    assert_eq!(qso.received_report(), &None);
    assert!(!qso.transmitter_id());
}

#[test]
fn qso_long_layout_with_one_signal_report() {
    let (_, qso) = cabrillo_qso("7005 PH 2009-05-30 0002 AA1ZZZ 59 1 S50A 5NN 4").unwrap();
    assert_eq!(qso.mode(), &Mode::Phone);
    assert_eq!(qso.exchange_sent(), "59 1");
    assert_eq!(qso.exchange_received(), "5NN 4");
    assert_eq!(qso.sent_report(), &Some(SignalReport(5, 9, 0)));
    assert_eq!(qso.received_report(), &None);
}

#[test]
fn qso_short_layout() {
    let (rest, qso) = cabrillo_qso("7005 RY 2021-06-12 1345 W1AW 001 K3AH 002").unwrap();
    assert_eq!(rest, "");
    assert_eq!(qso.frequency(), &Frequency::Khz(7005));
    assert_eq!(qso.mode(), &Mode::Rtty);
    assert_eq!(qso.call_sent(), "W1AW");
    assert_eq!(qso.exchange_sent(), "001");
    assert_eq!(qso.call_received(), "K3AH");
    assert_eq!(qso.exchange_received(), "002");
    assert_eq!(qso.sent_report(), &None);
    assert_eq!(qso.received_report(), &None);
}

#[test]
fn qso_short_layout_with_a_token_that_reads_as_a_report() {
    let (_, qso) = cabrillo_qso("7005 FM 2021-06-12 1345 W1AW 599 K3AH 599").unwrap();
    assert_eq!(qso.mode(), &Mode::Fm);
    assert_eq!(qso.exchange_sent(), "599");
    assert_eq!(qso.exchange_received(), "599");
    assert_eq!(qso.sent_report(), &None);
    assert_eq!(qso.received_report(), &None);
}

#[test]
fn qso_of_eight_fields_is_read_in_the_short_layout() {
    let (rest, qso) = cabrillo_qso("7005 CW 2021-06-12 1345 W1AW 599 001 K3AH 002").unwrap();
    assert_eq!(qso.call_sent(), "W1AW");
    assert_eq!(qso.exchange_sent(), "599");
    assert_eq!(qso.call_received(), "001");
    assert_eq!(qso.exchange_received(), "K3AH");
    assert_eq!(rest, "002");
}

#[test]
fn qso_blanks_between_fields_collapse() {
    let (rest, qso) = cabrillo_qso(
        " \t 14250  DG\t2021-06-12 1345 \t W1AW/P   599\t\t001  @K3AH   589   002  \t tail",
    )
    .unwrap();
    assert_eq!(rest, "tail");
    assert_eq!(qso.mode(), &Mode::Digital);
    assert_eq!(qso.call_sent(), "W1AW/P");
    assert_eq!(qso.exchange_sent(), "599 001");
    assert_eq!(qso.call_received(), "@K3AH");
    assert_eq!(qso.exchange_received(), "589 002");
    assert_eq!(qso.sent_report(), &Some(SignalReport(5, 9, 9)));
    assert_eq!(qso.received_report(), &Some(SignalReport(5, 8, 9)));
}

#[test]
fn qso_leaves_what_follows_the_last_field() {
    let (rest, qso) =
        cabrillo_qso("14000 CW 2009-10-24 0000 AA1ZZZ 599 5 S50A 599 15 0").unwrap();
    assert_eq!(rest, "0");
    assert_eq!(qso.exchange_received(), "599 15");
    let (rest, _) = cabrillo_qso("14000 CW 2009-10-24 0000 AA1ZZZ 599 5 S50A 599 15/x").unwrap();
    assert_eq!(rest, "/x");
}

#[test]
fn qso_every_mode() {
    for (token, mode) in [
        ("CW", Mode::Cw),
        ("FM", Mode::Fm),
        ("PH", Mode::Phone),
        ("SSB", Mode::Phone),
        ("RY", Mode::Rtty),
        ("RTTY", Mode::Rtty),
        ("DG", Mode::Digital),
        ("DIGI", Mode::Digital),
        ("MIXED", Mode::Mixed),
    ] {
        let line = format!("7005 {} 2021-06-12 1345 W1AW 001 K3AH 002", token);
        let (_, qso) = cabrillo_qso(&line).unwrap();
        assert_eq!(qso.mode(), &mode);
    }
}

#[test]
fn qso_that_fits_neither_layout() {
    for line in [
        "",
        "14250",
        "14250 CW 2021-06-12 1345 W1AW 599 K3AH",
        "14250 CW 2021-06-12 1345 W1AW 599",
        "14250 XX 2021-06-12 1345 W1AW 599 001 K3AH 599 002",
        "14250 CWX 2021-06-12 1345 W1AW 599 001 K3AH 599 002",
        "14250 cw 2021-06-12 1345 W1AW 599 001 K3AH 599 002",
        "LIGHT CW 2021-06-12 1345 W1AW 599 001 K3AH 599 002",
        "4294967296 CW 2021-06-12 1345 W1AW 599 001 K3AH 599 002",
        "14250 CW 2021-06-31 1345 W1AW 599 001 K3AH 599 002",
        "14250 CW 2021-06-12 13456 W1AW 599 001 K3AH 599 002",
        "14250 CW 2021-06-12 1345 W1 599 001 K3AH 599 002",
        "14250 CW 2021-06-12 1345 W1AW 5-9 K3AH 599",
        "14250 CW 2021-06-12 1345 W1AW 599 K3 599",
        "14250 CW 2021-06-12 1345 ABCDEFGHI 599 K3AH 599",
        "14250CW 2021-06-12 1345 W1AW 599 K3AH 599",
        "21042 CW 1997-11-01 2102 N5KO 3 B 74 STX K9ZO 2 A 69 IL",
    ] {
        assert!(cabrillo_qso(line).is_none(), "{:?}", line);
    }
}
