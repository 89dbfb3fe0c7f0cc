use xbus::cert::{
    client_cert_failure, client_cert_name, common_name, find_common_name, get_cert_cn, get_value,
    read_value, Value,
};
use xbus::error::Error;
use xbus::service::{ServiceDesc, ServiceEndpoint, ZoneService};

/// SET { SEQUENCE { OID 2.5.4.3, PrintableString "myapp" } }
fn subject_with_cn() -> Vec<u8> {
    vec![
        0x31, 0x0e, 0x30, 0x0c, 0x06, 0x03, 85, 4, 3, 0x13, 0x05, b'm', b'y', b'a', b'p', b'p',
    ]
}

/// SET { SEQUENCE { OID 2.5.4.10, PrintableString "org" } }
fn subject_with_org() -> Vec<u8> {
    vec![0x31, 0x0c, 0x30, 0x0a, 0x06, 0x03, 85, 4, 10, 0x13, 0x03, b'o', b'r', b'g']
}

/// A version 1 certificate with the given subject and nothing else of substance.
fn certificate(subject: &[u8]) -> Vec<u8> {
    let mut tbs = vec![0x02, 0x01, 0x01, 0x30, 0x00, 0x30, 0x00, 0x30, 0x00];
    tbs.push(0x30);
    tbs.push(subject.len() as u8);
    tbs.extend_from_slice(subject);
    tbs.extend_from_slice(&[0x30, 0x00]);
    let mut body = vec![0x30, tbs.len() as u8];
    body.extend_from_slice(&tbs);
    body.extend_from_slice(&[0x30, 0x00, 0x03, 0x01, 0x00]);
    let mut cert = vec![0x30, body.len() as u8];
    cert.extend_from_slice(&body);
    cert
}

#[test]
fn common_name_is_found_in_a_subject() {
    assert_eq!(common_name(&subject_with_cn()), Some("myapp".to_string()));
}

#[test]
fn common_name_is_found_after_other_attributes() {
    let mut subject = subject_with_org();
    subject.extend_from_slice(&subject_with_cn());
    assert_eq!(common_name(&subject), Some("myapp".to_string()));
}

#[test]
fn subject_without_common_name_has_none() {
    assert_eq!(common_name(&subject_with_org()), None);
    assert_eq!(common_name(&[]), None);
}

#[test]
fn malformed_subject_has_no_common_name() {
    // not a set
    assert_eq!(common_name(&[0x30, 0x00]), None);
    // the set is cut short
    assert_eq!(common_name(&subject_with_cn()[..10]), None);
    // the common name is no printable string
    let mut subject = subject_with_cn();
    subject[9] = 0x0c;
    assert_eq!(common_name(&subject), None);
    // garbage after a set without common name
    let mut subject = subject_with_org();
    subject.push(0x31);
    assert_eq!(common_name(&subject), None);
}

#[test]
fn der_values_are_read_with_their_bounds() {
    let bytes = [0x13, 0x02, b'h', b'i', 0xff];
    assert_eq!(read_value(&bytes, 0, 5), Some(Value { tag: 0x13, start: 2, end: 4 }));
    assert_eq!(get_value(&bytes, 0, 5, 0x13), Some(Value { tag: 0x13, start: 2, end: 4 }));
    assert_eq!(get_value(&bytes, 0, 5, 0x30), None);
    // the window is too short for the value
    assert_eq!(read_value(&bytes, 0, 3), None);
    // a high tag number is not accepted
    assert_eq!(read_value(&[0x1f, 0x00], 0, 2), None);
    // nothing to read
    assert_eq!(read_value(&bytes, 4, 5), None);
    assert_eq!(read_value(&bytes, 5, 5), None);
}

#[test]
fn long_lengths_must_be_canonical() {
    let mut bytes = vec![0x04, 0x81, 0x80];
    bytes.extend(std::iter::repeat(0u8).take(128));
    assert_eq!(
        read_value(&bytes, 0, bytes.len()),
        Some(Value { tag: 0x04, start: 3, end: 131 })
    );
    // one length byte that the short form could hold
    assert_eq!(read_value(&[0x04, 0x81, 0x05, 0, 0, 0, 0, 0], 0, 8), None);
    let mut bytes = vec![0x04, 0x82, 0x01, 0x00];
    bytes.extend(std::iter::repeat(0u8).take(256));
    assert_eq!(
        read_value(&bytes, 0, bytes.len()),
        Some(Value { tag: 0x04, start: 4, end: 260 })
    );
    // two length bytes that one could hold
    assert_eq!(read_value(&[0x04, 0x82, 0x00, 0x01, 0], 0, 5), None);
    // longer lengths are not supported
    assert_eq!(read_value(&[0x04, 0x83, 0, 0, 1, 0], 0, 6), None);
}

#[test]
fn certificate_yields_the_common_name_of_its_subject() {
    assert_eq!(get_cert_cn(&certificate(&subject_with_cn())), Some("myapp".to_string()));
    assert_eq!(get_cert_cn(&certificate(&subject_with_org())), None);
}

#[test]
fn what_is_no_certificate_has_no_common_name() {
    assert_eq!(get_cert_cn(&[]), None);
    assert_eq!(get_cert_cn(&subject_with_cn()), None);
    assert_eq!(get_cert_cn(b"-----BEGIN CERTIFICATE-----"), None);
}

#[test]
fn zone_service_lists_its_addresses() {
    let desc = ServiceDesc {
        service: "svc".to_string(),
        zone: "default".to_string(),
        typ: Some("http".to_string()),
        proto: None,
        description: None,
    };
    let zone = ZoneService {
        desc: desc.clone(),
        endpoints: vec![
            ServiceEndpoint { address: "10.0.0.1:80".to_string(), config: None },
            ServiceEndpoint { address: "[::1]:81".to_string(), config: Some("c".to_string()) },
        ],
    };
    assert_eq!(zone.addresses(), vec!["10.0.0.1:80".to_string(), "[::1]:81".to_string()]);
    assert_eq!(desc.clone(), desc);
    assert_eq!(xbus::service::ServiceDescEvent::PUT, "put");
    assert_eq!(xbus::service::ServiceDescEvent::DELETE, "delete");
}

#[test]
fn a_window_beyond_the_bytes_holds_nothing() {
    let bytes = [0x13, 0x01, b'x'];
    assert_eq!(read_value(&bytes, 0, 4), None);
    assert_eq!(get_value(&bytes, 0, 9, 0x13), None);
    assert_eq!(read_value(&bytes, 2, 1), None);
    assert_eq!(read_value(&bytes, 0, 3), Some(Value { tag: 0x13, start: 2, end: 3 }));
}

#[test]
fn client_certificate_names_the_application() {
    assert_eq!(client_cert_name(&certificate(&subject_with_cn())), Ok("myapp".to_string()));
    assert_eq!(
        client_cert_name(&certificate(&subject_with_org())),
        Err(Error::other("get cert cn fail"))
    );
    assert_eq!(client_cert_name(&[1, 2, 3]), Err(Error::other("get cert cn fail")));
    assert_eq!(
        client_cert_failure("bad key"),
        Error::Ssl("add client cert fail: bad key".to_string())
    );
}

#[test]
fn common_name_is_located_in_the_subject() {
    assert_eq!(find_common_name(&subject_with_cn()), Some(Value { tag: 0x13, start: 11, end: 16 }));
    let mut subject = subject_with_org();
    subject.extend_from_slice(&subject_with_cn());
    assert_eq!(find_common_name(&subject), Some(Value { tag: 0x13, start: 25, end: 30 }));
    assert_eq!(find_common_name(&subject_with_org()), None);
}

#[test]
fn common_name_that_is_no_utf8_is_read_with_replacements() {
    let subject = vec![0x31, 0x0a, 0x30, 0x08, 0x06, 0x03, 85, 4, 3, 0x13, 0x01, 0xff];
    assert_eq!(common_name(&subject), Some("\u{fffd}".to_string()));
}
