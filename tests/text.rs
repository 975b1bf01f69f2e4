use factures::text::{
    format_currency, include_pdf, multiline, override_braces, parse_amount, push_decimal, IssueDate,
};

#[test]
fn currency_has_two_decimals_and_comma() {
    assert_eq!(format_currency(2000), "20,00");
    assert_eq!(format_currency(0), "0,00");
    assert_eq!(format_currency(5), "0,05");
    assert_eq!(format_currency(123456), "1234,56");
    assert_eq!(format_currency(u128::MAX), format!("{},{:02}", u128::MAX / 100, u128::MAX % 100));
}

#[test]
fn decimal_digits() {
    let mut s = String::from("n=");
    push_decimal(&mut s, 1_000_007);
    assert_eq!(s, "n=1000007");
    let mut s = String::new();
    push_decimal(&mut s, 0);
    assert_eq!(s, "0");
}

#[test]
fn multiline_marks_line_breaks() {
    assert_eq!(multiline("a\nb"), "a \\\\\nb");
    assert_eq!(multiline("no break"), "no break");
    assert_eq!(multiline(""), "");
    assert_eq!(multiline("\n\n"), " \\\\\n \\\\\n");
    assert_eq!(multiline("é\nà"), "é \\\\\nà");
}

#[test]
fn include_directive_splices_path() {
    assert_eq!(include_pdf("/tmp/my doc.pdf"), "\\includepdf{/tmp/my doc.pdf}");
}

#[test]
fn braces_wrap_content() {
    assert_eq!(override_braces("Acme"), "{Acme}");
    assert_eq!(override_braces(""), "{}");
}

#[test]
fn date_is_day_month_year() {
    assert_eq!(IssueDate { day: 1, month: 2, year: 2025 }.format(), "01/02/2025");
    assert_eq!(IssueDate { day: 31, month: 12, year: 999 }.format(), "31/12/0999");
    assert_eq!(IssueDate { day: 9, month: 10, year: 12345 }.format(), "09/10/+12345");
    assert_eq!(IssueDate { day: 9, month: 10, year: -44 }.format(), "09/10/-0044");
}

#[test]
fn amounts_in_ten_thousandths() {
    assert_eq!(parse_amount("10"), Some(100_000));
    assert_eq!(parse_amount("10.0"), Some(100_000));
    assert_eq!(parse_amount("10,5"), Some(105_000));
    assert_eq!(parse_amount("0.1234"), Some(1_234));
    assert_eq!(parse_amount("007.05"), Some(70_500));
    assert_eq!(parse_amount("1844674407370955.1615"), Some(u64::MAX));
    assert_eq!(parse_amount("1844674407370955.1616"), None);
    assert_eq!(parse_amount("99999999999999999999"), None);
}

#[test]
fn malformed_amounts_are_refused() {
    for bad in ["", ".5", "10.", "10.12345", "1.2.3", "1,2.3", "-3", "1e3", " 1", "12a"] {
        assert_eq!(parse_amount(bad), None, "{:?}", bad);
    }
}
