use coin_price::price::{format_price, price_line, usd_price, Lookup};

fn table(entries: &[(&str, &[(&str, u64)])]) -> Vec<(String, Vec<(String, u64)>)> {
    entries
        .iter()
        .map(|(t, ps)| (t.to_string(), ps.iter().map(|(c, p)| (c.to_string(), *p)).collect()))
        .collect()
}

#[test]
fn format_whole_price() {
    assert_eq!(format_price(100_000), "100.000");
}

#[test]
fn format_small_prices() {
    assert_eq!(format_price(150), "0.150");
    assert_eq!(format_price(0), "0.000");
    assert_eq!(format_price(7), "0.007");
}

#[test]
fn format_three_decimals_always() {
    for t in [1u64, 10, 999, 1000, 67_234_120, u64::MAX] {
        let s = format_price(t);
        let point = s.find('.').unwrap();
        assert_eq!(s.len() - point - 1, 3);
    }
    assert_eq!(format_price(67_234_120), "67234.120");
    assert_eq!(format_price(u64::MAX), "18446744073709551.615");
}

#[test]
fn price_line_bitcoin() {
    assert_eq!(price_line("bitcoin", 67_234_120), ">> Bitcoin: 67234.120 $");
}

#[test]
fn lookup_found() {
    let t = table(&[("dogecoin", &[("eur", 140), ("usd", 150)])]);
    assert_eq!(matches!(usd_price(&t, "dogecoin"), Lookup::Found(150)), true);
}

#[test]
fn lookup_unknown() {
    let t = table(&[]);
    assert!(matches!(usd_price(&t, "doge"), Lookup::UnknownToken));
    let t = table(&[("bitcoin", &[("usd", 1)])]);
    assert!(matches!(usd_price(&t, "doge"), Lookup::UnknownToken));
}

#[test]
fn lookup_no_usd() {
    let t = table(&[("bitcoin", &[("eur", 1)])]);
    assert!(matches!(usd_price(&t, "bitcoin"), Lookup::NoUsdPrice));
}
