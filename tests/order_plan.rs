use cert_manager::order::{
    generate_and_sign_keys_guided, parse_u32, port_from_answer, signing_plan, Directory,
    PortError,
};
use cert_manager::store::{challenge_dir, challenge_route, challenge_url, proof_path, scratch_root};

#[test]
fn parses_plain_and_signed_numbers() {
    assert_eq!(parse_u32("8080"), Some(8080));
    assert_eq!(parse_u32("+80"), Some(80));
    assert_eq!(parse_u32("0"), Some(0));
    assert_eq!(parse_u32("007"), Some(7));
    assert_eq!(parse_u32("4294967295"), Some(u32::MAX));
}

#[test]
fn rejects_what_is_not_a_u32() {
    assert_eq!(parse_u32(""), None);
    assert_eq!(parse_u32("+"), None);
    assert_eq!(parse_u32("-1"), None);
    assert_eq!(parse_u32("12a"), None);
    assert_eq!(parse_u32("4294967296"), None);
    assert_eq!(parse_u32("99999999999x"), None);
    assert_eq!(parse_u32(" 80"), None);
}

#[test]
fn root_answer_selects_port_80() {
    assert_eq!(port_from_answer(true, "y"), Ok(80));
    assert_eq!(port_from_answer(true, "n"), Err(PortError::NotForwarded));
    assert_eq!(port_from_answer(true, ""), Err(PortError::NotForwarded));
    assert_eq!(port_from_answer(true, "yes"), Err(PortError::NotForwarded));
}

#[test]
fn other_answer_is_the_port() {
    assert_eq!(port_from_answer(false, "8443"), Ok(8443));
    assert_eq!(port_from_answer(false, "y"), Err(PortError::NotANumber));
    assert_eq!(port_from_answer(false, "80.5"), Err(PortError::NotANumber));
}

#[test]
fn plan_names_account_and_www_domain() {
    let p = signing_plan("cert-manager", "example.org", false, 8080);
    assert_eq!(p.account, "cert-manager@example.org");
    assert_eq!(p.domain, "example.org");
    assert_eq!(p.subdomains, vec!["www.example.org".to_string()]);
    assert_eq!(p.directory, Directory::Production);
    assert_eq!(p.port, 8080);
}

#[test]
fn guided_plan_trims_the_answer() {
    let p = generate_and_sign_keys_guided("app", "example.com", true, true, " y\n").unwrap();
    assert_eq!(p.port, 80);
    assert_eq!(p.account, "app@example.com");
    assert_eq!(p.subdomains, vec!["www.example.com".to_string()]);
    assert_eq!(p.directory, Directory::Staging);
    let q = generate_and_sign_keys_guided("app", "example.com", false, false, "  8443 \n").unwrap();
    assert_eq!(q.port, 8443);
    assert_eq!(q.directory, Directory::Production);
}

#[test]
fn guided_plan_reports_bad_answers() {
    assert_eq!(
        generate_and_sign_keys_guided("app", "example.com", true, true, "n\n").err(),
        Some(PortError::NotForwarded)
    );
    assert_eq!(
        generate_and_sign_keys_guided("app", "example.com", true, false, "eighty\n").err(),
        Some(PortError::NotANumber)
    );
}

#[test]
fn proof_file_is_named_by_token() {
    assert_eq!(proof_path("tok-EN_1"), ".tmp/www/.well-known/acme-challenge/tok-EN_1");
    assert_eq!(challenge_url("tok-EN_1"), "/.well-known/acme-challenge/tok-EN_1");
    assert!(proof_path("abc").starts_with(challenge_dir()));
    assert!(challenge_url("abc").starts_with(challenge_route()));
    assert!(challenge_dir().starts_with(scratch_root()));
}

#[test]
fn account_name_joins_application_and_domain() {
    assert_eq!(cert_manager::order::account_name("cert-manager", "example.net"), "cert-manager@example.net");
}

#[test]
fn guided_plan_trims_unicode_white_space() {
    let p = generate_and_sign_keys_guided("app", "example.com", false, false, "\u{3000}\t8080\u{a0}\r\n").unwrap();
    assert_eq!(p.port, 8080);
}
