use core_lib::{check_request, generate, generate_lines, RequestError, Version};

fn is_lower_hex(text: &str) -> bool {
    text.chars().all(|c| matches!(c, '0'..='9' | 'a'..='f'))
}

fn is_upper_hex(text: &str) -> bool {
    text.chars().all(|c| matches!(c, '0'..='9' | 'A'..='F'))
}

/// Whether the text is five groups of 8, 4, 4, 4 and 12 digits with hyphens
/// between them, the third group starting with `version`.
fn is_canonical(text: &str, version: char, digits: fn(&str) -> bool) -> bool {
    let groups: Vec<&str> = text.split('-').collect();
    groups.len() == 5
        && groups[0].len() == 8
        && groups[1].len() == 4
        && groups[2].len() == 4
        && groups[3].len() == 4
        && groups[4].len() == 12
        && groups.iter().all(|g| digits(g))
        && groups[2].starts_with(version)
}

#[test]
fn generate_v7_default() {
    let version = check_request(7, false).unwrap();
    let lines = generate_lines(version, "", "dns", 1, false, false, false);
    assert_eq!(lines.len(), 1);
    assert!(is_canonical(&lines[0], '7', is_lower_hex));
}

#[test]
fn generate_no_hyphen() {
    let version = check_request(7, false).unwrap();
    let lines = generate_lines(version, "", "dns", 1, true, false, false);
    assert_eq!(lines.len(), 1);
    assert_eq!(lines[0].len(), 32);
    assert!(is_lower_hex(&lines[0]));
}

#[test]
fn generate_braced_upper() {
    let version = check_request(7, false).unwrap();
    let lines = generate_lines(version, "", "dns", 1, false, true, true);
    assert_eq!(lines.len(), 1);
    let line = &lines[0];
    assert_eq!(line.len(), 38);
    assert!(line.starts_with('{') && line.ends_with('}'));
    assert!(is_canonical(&line[1..37], '7', is_upper_hex));
}

#[test]
fn v5_requires_name_and_generates_v5() {
    assert_eq!(check_request(5, false), Err(RequestError::MissingName));

    let version = check_request(5, true).unwrap();
    assert_eq!(version, Version::V5);
    let lines = generate_lines(version, "example", "dns", 1, false, false, false);
    assert_eq!(lines.len(), 1);
    assert!(is_canonical(&lines[0], '5', is_lower_hex));
    assert_eq!(lines[0], "7cb48787-6d91-5b9f-bc60-f30298ea5736");
}

#[test]
fn count_generates_multiple_lines() {
    let lines = generate_lines(Version::V7, "", "dns", 3, false, false, false);
    assert_eq!(lines.len(), 3);
    for line in &lines {
        assert!(is_canonical(line, '7', is_lower_hex));
    }
}

#[test]
fn count_zero_gives_no_line() {
    assert!(generate_lines(Version::V4, "", "dns", 0, false, false, false).is_empty());
}

#[test]
fn lines_of_each_version_are_valid() {
    for (version, digit) in [
        (Version::V1, '1'),
        (Version::V4, '4'),
        (Version::V5, '5'),
        (Version::V6, '6'),
        (Version::V7, '7'),
    ] {
        let lines = generate_lines(version, "example", "url", 3, false, false, false);
        assert_eq!(lines.len(), 3);
        for line in &lines {
            assert!(is_canonical(line, digit, is_lower_hex));
        }
    }
}

#[test]
fn v5_lines_repeat_the_same_identifier() {
    let lines = generate_lines(Version::V5, "example", "URL", 2, true, true, true);
    assert_eq!(
        lines,
        vec![
            "F8B723230E405A08BD7F039DFB85A9B2".to_string(),
            "F8B723230E405A08BD7F039DFB85A9B2".to_string()
        ]
    );
}

#[test]
fn supported_versions_are_accepted() {
    assert_eq!(check_request(1, false), Ok(Version::V1));
    assert_eq!(check_request(4, false), Ok(Version::V4));
    assert_eq!(check_request(5, true), Ok(Version::V5));
    assert_eq!(check_request(6, true), Ok(Version::V6));
    assert_eq!(check_request(7, false), Ok(Version::V7));
}

#[test]
fn other_versions_are_unsupported() {
    for n in [0u8, 2, 3, 8, 9, 255] {
        assert_eq!(
            check_request(n, true),
            Err(RequestError::UnsupportedVersion(n))
        );
        assert_eq!(
            check_request(n, false),
            Err(RequestError::UnsupportedVersion(n))
        );
        assert_eq!(Version::from_number(n), None);
    }
}

#[test]
fn version_numbers_round_trip() {
    for v in [
        Version::V1,
        Version::V4,
        Version::V5,
        Version::V6,
        Version::V7,
    ] {
        assert_eq!(Version::from_number(v.number()), Some(v));
    }
    assert_eq!(Version::V6.number(), 6);
}

#[test]
fn generate_gives_the_asked_version() {
    for v in [
        Version::V1,
        Version::V4,
        Version::V5,
        Version::V6,
        Version::V7,
    ] {
        let u = generate(v, "example", "dns");
        assert_eq!(u.get_version_num(), v.number() as usize);
        assert_eq!(u.get_variant_bits(), 2);
    }
    assert_eq!(
        generate(Version::V5, "example", "dns").as_u128(),
        0x7cb48787_6d91_5b9f_bc60_f30298ea5736
    );
}
