use core_lib::{
    format_uuid, generate_v1, generate_v4, generate_v5, generate_v6, generate_v7, name_based,
    Namespace, Uuid,
};

#[test]
fn gen_and_format_v7() {
    let u = generate_v7();
    let s = format_uuid(u, false, false, false);
    assert_eq!(s.len(), 36);
    let version_char = s.chars().nth(14).unwrap();
    assert_eq!(version_char, '7');
}

#[test]
fn gen_v4_and_v5() {
    let u4 = generate_v4();
    assert_eq!(u4.get_version_num(), 4);

    let u5 = generate_v5("example", "dns");
    assert_eq!(u5.get_version_num(), 5);
}

#[test]
fn gen_v1_and_v6_versions() {
    let u1 = generate_v1();
    assert_eq!(u1.get_version_num(), 1);

    let u6 = generate_v6();
    assert_eq!(u6.get_version_num(), 6);
}

#[test]
fn generate_v5_is_deterministic_and_namespace_case_insensitive() {
    let a = generate_v5("example", "dns");
    let b = generate_v5("example", "DNS"); // case-insensitive namespace
    assert_eq!(a, b);

    let c = generate_v5("example", "url");
    assert_ne!(a, c);
}

#[test]
fn generate_v4_likely_unique() {
    let a = generate_v4();
    let b = generate_v4();
    // Extremely unlikely to collide; assert they are different to catch obvious issues.
    assert_ne!(a, b);
}

#[test]
fn every_generator_sets_its_version() {
    assert_eq!(generate_v1().get_version_num(), 1);
    assert_eq!(generate_v4().get_version_num(), 4);
    assert_eq!(generate_v5("example", "dns").get_version_num(), 5);
    assert_eq!(generate_v6().get_version_num(), 6);
    assert_eq!(generate_v7().get_version_num(), 7);
}

#[test]
fn every_generator_sets_the_standard_variant() {
    let all = [
        generate_v1(),
        generate_v4(),
        generate_v5("example", "dns"),
        generate_v6(),
        generate_v7(),
    ];
    for u in all {
        assert_eq!(u.get_variant_bits(), 0b10);
        assert_eq!((u.as_u128() >> 62) & 0x3, 0b10);
    }
}

#[test]
fn fields_are_read_from_their_bit_positions() {
    let u = Uuid::from_u128(0x00000000_0000_a000_4000_000000000000);
    assert_eq!(u.get_version_num(), 0xa);
    assert_eq!(u.get_variant_bits(), 0b01);
    let v = Uuid::from_u128(0xffffffff_ffff_0fff_3fff_ffffffffffff);
    assert_eq!(v.get_version_num(), 0);
    assert_eq!(v.get_variant_bits(), 0);
    assert_eq!(v.as_u128(), 0xffffffff_ffff_0fff_3fff_ffffffffffff);
}

#[test]
fn v5_of_example_in_dns_is_a_fixed_value() {
    let u = generate_v5("example", "dns");
    assert_eq!(u.as_u128(), 0x7cb48787_6d91_5b9f_bc60_f30298ea5736);
    assert_eq!(
        format_uuid(u, false, false, false),
        "7cb48787-6d91-5b9f-bc60-f30298ea5736"
    );
    assert_eq!(generate_v5("example", "dns"), u);
}

#[test]
fn v5_in_each_namespace() {
    assert_eq!(
        format_uuid(generate_v5("example", "url"), false, false, false),
        "f8b72323-0e40-5a08-bd7f-039dfb85a9b2"
    );
    assert_eq!(
        format_uuid(generate_v5("example", "oid"), false, false, false),
        "5c9ef7cb-8c94-5df0-8168-aaa47e3d5da2"
    );
    assert_eq!(
        format_uuid(generate_v5("example", "x500"), false, false, false),
        "0cbd148f-768f-52fe-a1cd-0c4e6c65de91"
    );
}

#[test]
fn v5_namespace_word_in_any_case() {
    assert_eq!(generate_v5("example", "URL"), generate_v5("example", "url"));
    assert_eq!(generate_v5("example", "Oid"), generate_v5("example", "oid"));
    assert_eq!(generate_v5("example", "X500"), generate_v5("example", "x500"));
    assert_eq!(generate_v5("example", "Dns"), generate_v5("example", "dns"));
}

#[test]
fn v5_unknown_namespace_word_stands_for_dns() {
    let dns = generate_v5("example", "dns");
    assert_eq!(generate_v5("example", "dn"), dns);
    assert_eq!(generate_v5("example", ""), dns);
    assert_eq!(generate_v5("example", "urls"), dns);
    assert_eq!(generate_v5("example", "x50"), dns);
    assert_eq!(generate_v5("example", "\u{fc}rl"), dns);
}

#[test]
fn v5_of_the_empty_name() {
    assert_eq!(
        format_uuid(generate_v5("", "dns"), false, false, false),
        "4ebd0208-8328-5d69-8c44-ec50939c0967"
    );
}

#[test]
fn v5_hashes_the_utf8_bytes_of_the_name() {
    assert_eq!(
        format_uuid(generate_v5("h\u{e9}llo", "dns"), false, false, false),
        "5ca283f8-ff14-58cb-ba86-bf52120a3414"
    );
}

#[test]
fn v5_depends_on_the_name() {
    assert_ne!(generate_v5("example", "dns"), generate_v5("examplf", "dns"));
}

#[test]
fn name_based_agrees_with_generate_v5() {
    assert_eq!(
        name_based(Namespace::Dns, b"example"),
        generate_v5("example", "dns")
    );
    assert_eq!(
        name_based(Namespace::X500, b"example"),
        generate_v5("example", "x500")
    );
    assert_eq!(
        name_based(Namespace::Dns, b"rust-lang.org").as_u128(),
        0xc66bbb60_d62e_5f17_a399_3a0bd237c503
    );
}

#[test]
fn namespace_words_and_values() {
    assert_eq!(Namespace::from_name("dns"), Namespace::Dns);
    assert_eq!(Namespace::from_name("url"), Namespace::Url);
    assert_eq!(Namespace::from_name("oId"), Namespace::Oid);
    assert_eq!(Namespace::from_name("x500"), Namespace::X500);
    assert_eq!(Namespace::from_name("nothing"), Namespace::Dns);
    assert_eq!(Namespace::Dns.value(), uuid::Uuid::NAMESPACE_DNS.as_u128());
    assert_eq!(Namespace::Url.value(), uuid::Uuid::NAMESPACE_URL.as_u128());
    assert_eq!(Namespace::Oid.value(), uuid::Uuid::NAMESPACE_OID.as_u128());
    assert_eq!(Namespace::X500.value(), uuid::Uuid::NAMESPACE_X500.as_u128());
    assert_eq!(Namespace::Dns.value(), 0x6ba7b810_9dad_11d1_80b4_00c04fd430c8);
}

#[test]
fn v1_and_v6_differ_between_calls() {
    assert_ne!(generate_v1(), generate_v1());
    assert_ne!(generate_v6(), generate_v6());
    assert_ne!(generate_v7(), generate_v7());
}

/// The count of 100-nanosecond steps from 15 October 1582 to now.
fn gregorian_ticks_now() -> u128 {
    let since_unix_epoch = std::time::SystemTime::now()
        .duration_since(std::time::UNIX_EPOCH)
        .unwrap();
    since_unix_epoch.as_nanos() / 100 + 0x01b2_1dd2_1381_4000
}

#[test]
fn v7_leads_with_the_unix_time_in_milliseconds() {
    let unix_millis = || {
        std::time::SystemTime::now()
            .duration_since(std::time::UNIX_EPOCH)
            .unwrap()
            .as_millis()
    };
    let before = unix_millis();
    let u = generate_v7();
    let after = unix_millis();
    let stamp = u.as_u128() >> 80;
    assert!(before <= stamp && stamp <= after + 1);
}

#[test]
fn v1_holds_the_time_in_low_mid_high_order() {
    let before = gregorian_ticks_now();
    let v = generate_v1().as_u128();
    let after = gregorian_ticks_now();
    let ticks = (((v >> 64) & 0x0fff) << 48) | (((v >> 80) & 0xffff) << 32) | (v >> 96);
    assert!(before <= ticks && ticks <= after);
}

#[test]
fn v6_holds_the_time_most_significant_first() {
    let before = gregorian_ticks_now();
    let v = generate_v6().as_u128();
    let after = gregorian_ticks_now();
    let ticks = ((v >> 96) << 28) | (((v >> 80) & 0xffff) << 12) | ((v >> 64) & 0x0fff);
    assert!(before <= ticks && ticks <= after);
}

#[test]
fn v6_and_v7_sort_by_creation() {
    let a = generate_v7().as_u128();
    let b = generate_v7().as_u128();
    assert!(a < b);
    let c = generate_v6().as_u128() >> 64;
    let d = generate_v6().as_u128() >> 64;
    assert!(c <= d);
}
