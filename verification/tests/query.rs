use bgpq3::{Bgpq3Query, Bgpq3Settings};

#[test]
fn it_works() {
    assert_eq!(2 + 2, 4);
}

#[test]
fn as_set_keeps_the_name() {
    let query = Bgpq3Query::as_set("AS-RAPPET");
    assert_eq!(query.to_string(), "AS-RAPPET");
    assert_eq!(query.as_str(), "AS-RAPPET");
}

#[test]
fn as_set_from_str_is_the_same_query() {
    let query = Bgpq3Query::as_set("AS-RAPPET");
    let query_from: Bgpq3Query = "AS-RAPPET".into();
    assert_eq!(query, query_from);
}

#[test]
fn as_set_applies_no_naming_rule() {
    assert_eq!(Bgpq3Query::as_set("").as_str(), "");
    assert_eq!(Bgpq3Query::as_set("not an as-set / at all").as_str(), "not an as-set / at all");
    assert_eq!(Bgpq3Query::as_set("AS-ÜBER:AS-Ωmega").as_str(), "AS-ÜBER:AS-Ωmega");
    assert_eq!(Bgpq3Query::as_set("-6").as_str(), "-6");
}

#[test]
fn asn_is_as_and_decimal() {
    let query = Bgpq3Query::asn(207968);
    assert_eq!(query.to_string(), "AS207968");
}

#[test]
fn asn_from_number_is_the_same_query() {
    let query = Bgpq3Query::asn(207968);
    let query_from: Bgpq3Query = 207968.into();
    assert_eq!(query, query_from);
}

#[test]
fn asn_of_zero_is_one_digit() {
    assert_eq!(Bgpq3Query::asn(0).as_str(), "AS0");
}

#[test]
fn asn_of_largest_number() {
    assert_eq!(Bgpq3Query::asn(u32::MAX).as_str(), "AS4294967295");
}

#[test]
fn asn_has_no_leading_zeros() {
    assert_eq!(Bgpq3Query::asn(7).as_str(), "AS7");
    assert_eq!(Bgpq3Query::asn(9).as_str(), "AS9");
    assert_eq!(Bgpq3Query::asn(10).as_str(), "AS10");
    assert_eq!(Bgpq3Query::asn(100).as_str(), "AS100");
    assert_eq!(Bgpq3Query::asn(1001).as_str(), "AS1001");
    assert_eq!(Bgpq3Query::asn(65535).as_str(), "AS65535");
    assert_eq!(Bgpq3Query::asn(4200000000).as_str(), "AS4200000000");
}

#[test]
fn asn_agrees_with_std_formatting() {
    let mut n: u32 = 1;
    for _ in 0..40 {
        assert_eq!(Bgpq3Query::asn(n).to_string(), format!("AS{}", n));
        n = n.wrapping_mul(2654435761).wrapping_add(12345);
    }
}

#[test]
fn queries_are_equal_by_their_strings() {
    assert_eq!(Bgpq3Query::asn(64512), Bgpq3Query::as_set("AS64512"));
    assert_ne!(Bgpq3Query::asn(64512), Bgpq3Query::asn(64513));
    assert_ne!(Bgpq3Query::as_set("AS-A"), Bgpq3Query::as_set("as-a"));
}

#[test]
fn query_clone_is_equal() {
    let query = Bgpq3Query::as_set("AS-RAPPET");
    assert_eq!(query.clone(), query);
}

#[test]
fn to_string_leaves_the_query_in_place() {
    let query = Bgpq3Query::asn(1);
    let first = query.to_string();
    let second = query.to_string();
    assert_eq!(first, second);
    let command = query.build_command(&Bgpq3Settings::new(), false);
    assert_eq!(command.args().last().map(|s| s.as_str()), Some("AS1"));
}

#[test]
fn push_decimal_appends_the_numeral() {
    let mut text = String::from("n=");
    bgpq3::decimal::push_decimal(&mut text, 0);
    assert_eq!(text, "n=0");
    bgpq3::decimal::push_decimal(&mut text, 4294967295);
    assert_eq!(text, "n=04294967295");
    bgpq3::decimal::push_decimal(&mut text, 1050);
    assert_eq!(text, "n=042949672951050");
}
