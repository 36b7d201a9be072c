use bitable_sync::catalog::parse_weight;

#[test]
fn test_parse_weight() {
    assert_eq!(parse_weight("500ml"), 500);
    assert_eq!(parse_weight("2.5L"), 2500);
    assert_eq!(parse_weight("1.5L"), 1500);
    assert_eq!(parse_weight("750ml"), 750);
}

#[test]
fn weight_defaults_and_case() {
    assert_eq!(parse_weight("6瓶装"), 500);
    assert_eq!(parse_weight("L"), 500);
    assert_eq!(parse_weight("ml"), 500);
    assert_eq!(parse_weight("500 ML"), 500);
    assert_eq!(parse_weight(" 0.75 l"), 750);
    assert_eq!(parse_weight("-2.5L"), -2500);
    assert_eq!(parse_weight("99999999999ml"), i32::MAX);
    assert_eq!(parse_weight("1.0005L"), 1000);
    assert_eq!(parse_weight("1e3ml"), 1000);
    assert_eq!(parse_weight("2.5E-1L"), 250);
}
