use meshops::ip::{lookup_client, lookup_request, plain_text_address, IpError, ResponseFormat};

fn req(api: &str, t: &str) -> (String, bool, ResponseFormat) {
    let r = lookup_request(api, t).unwrap();
    (r.url, r.accept_text_plain, r.format)
}

#[test]
fn each_service_and_type_has_its_url() {
    assert_eq!(req("ipify", "A"), ("https://api4.ipify.org?format=json".to_string(), false, ResponseFormat::IpifyJson));
    assert_eq!(req("ipify", "AAAA"), ("https://api6.ipify.org?format=json".to_string(), false, ResponseFormat::IpifyJson));
    assert_eq!(req("icanhazip", "A"), ("https://ipv4.icanhazip.com".to_string(), false, ResponseFormat::PlainText));
    assert_eq!(req("icanhazip", "AAAA"), ("https://ipv6.icanhazip.com".to_string(), false, ResponseFormat::PlainText));
    assert_eq!(req("ifconfig", "A"), ("https://ifconfig.me/ip".to_string(), false, ResponseFormat::PlainText));
    assert_eq!(req("ifconfig", "AAAA"), ("https://ifconfig.me/ip".to_string(), true, ResponseFormat::PlainText));
}

#[test]
fn service_name_ignores_case_but_type_does_not() {
    assert_eq!(req("IPify", "A"), req("ipify", "A"));
    assert!(lookup_request("ipify", "a").is_err());
}

#[test]
fn unknown_service_is_refused_with_the_given_spelling() {
    match lookup_request("MyIP", "TXT") {
        Err(e) => {
            assert_eq!(e.message(), "unsupported query_api or record_type: MyIP/TXT");
            assert!(matches!(e, IpError::Unsupported { .. }));
        }
        Ok(_) => panic!("expected refusal"),
    }
    assert_eq!(IpError::ClientBuild.message(), "failed to build ip resolver client");
}

#[test]
fn plain_text_answer_is_trimmed() {
    assert_eq!(plain_text_address("198.51.100.4\n"), "198.51.100.4");
    assert_eq!(plain_text_address("\t 2001:db8::2 \r\n"), "2001:db8::2");
}

#[test]
fn lookup_client_builds() {
    assert_eq!(lookup_client(8).unwrap().timeout_secs, 8);
    assert_eq!(lookup_client(3).unwrap().timeout_secs, 3);
}
