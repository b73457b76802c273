use etcd_cfn_signal::args::{file_exists, file_verdict, is_number};
use etcd_cfn_signal::metadata::{
    instance_id, metadata_url, region, region_of_zone, InstanceMetadataError, INSTANCE_ID_PATH,
};
use etcd_cfn_signal::relay::{relay_response, RelayResponse};
use etcd_cfn_signal::text::join_str;
use etcd_cfn_signal::tls::{SSLOptions, TlsStep};

#[test]
fn region_from_zone() {
    assert_eq!(region(Ok("us-east-1a".to_string())), Ok("us-east-1".to_string()));
    assert_eq!(region_of_zone("eu-west-2c".to_string()), "eu-west-2");
    assert_eq!(region_of_zone(String::new()), "");
}

#[test]
fn region_fetch_error_passed_on() {
    let e = InstanceMetadataError::HttpError("refused".to_string());
    assert_eq!(region(Err(e)), Err(InstanceMetadataError::HttpError("refused".to_string())));
}

#[test]
fn instance_id_is_body() {
    assert_eq!(instance_id(Ok("i-0123456789".to_string())), Ok("i-0123456789".to_string()));
}

#[test]
fn metadata_urls() {
    assert_eq!(
        metadata_url(INSTANCE_ID_PATH),
        "http://169.254.169.254/latest/meta-data/instance-id"
    );
    assert_eq!(
        metadata_url("placement/availability-zone"),
        "http://169.254.169.254/latest/meta-data/placement/availability-zone"
    );
}

#[test]
fn relay_mirrors_upstream() {
    let up = RelayResponse {
        status: 200,
        headers: vec![
            ("Content-Type".to_string(), b"application/json".to_vec()),
            ("X-Etcd-Cluster-Id".to_string(), vec![0xff, 0x01]),
        ],
        body: b"{\"health\":\"true\"}".to_vec(),
    };
    let r = relay_response(Ok(up));
    assert_eq!(r.status, 200);
    assert_eq!(r.body, b"{\"health\":\"true\"}".to_vec());
    assert_eq!(
        r.headers,
        vec![
            ("Content-Type".to_string(), b"application/json".to_vec()),
            ("X-Etcd-Cluster-Id".to_string(), vec![0xff, 0x01]),
        ]
    );
}

#[test]
fn relay_failure_is_500_empty() {
    let r = relay_response(Err("connection refused".to_string()));
    assert_eq!(r.status, 500);
    assert!(r.body.is_empty());
    assert!(r.headers.is_empty());
}

#[test]
fn tls_steps_in_order() {
    let o = SSLOptions::from_args("ca.pem".to_string(), "cert.pem".to_string(), "key.pem".to_string());
    assert_eq!(
        o.tls_steps(),
        vec![
            TlsStep::TrustCaFile("ca.pem".to_string()),
            TlsStep::UseCertificateFile("cert.pem".to_string()),
            TlsStep::UsePrivateKeyFile("key.pem".to_string()),
        ]
    );
    let none = SSLOptions { ca_file: None, cert_and_key: None };
    assert!(none.tls_steps().is_empty());
    let ca_only = SSLOptions { ca_file: Some("ca.pem".to_string()), cert_and_key: None };
    assert_eq!(ca_only.tls_steps(), vec![TlsStep::TrustCaFile("ca.pem".to_string())]);
}

#[test]
fn file_verdicts() {
    assert_eq!(file_verdict("a.pem", false, false), Err("File 'a.pem' does not exist".to_string()));
    assert_eq!(file_verdict("/tmp", true, false), Err("'/tmp' is not a file".to_string()));
    assert_eq!(file_verdict("a.pem", true, true), Ok(()));
}

#[test]
fn file_exists_on_disk() {
    assert_eq!(
        file_exists("/no/such/file/here.pem".to_string()),
        Err("File '/no/such/file/here.pem' does not exist".to_string())
    );
    assert_eq!(file_exists("/".to_string()), Err("'/' is not a file".to_string()));
}

#[test]
fn port_numbers() {
    assert_eq!(is_number("8080".to_string()), Ok(()));
    assert_eq!(is_number("+80".to_string()), Ok(()));
    assert_eq!(is_number("65535".to_string()), Ok(()));
    assert_eq!(is_number("00080".to_string()), Ok(()));
    let too_large = Err("number too large to fit in target type".to_string());
    let invalid = Err("invalid digit found in string".to_string());
    assert_eq!(is_number("65536".to_string()), too_large);
    assert_eq!(is_number("99999a".to_string()), too_large);
    assert_eq!(is_number("".to_string()), Err("cannot parse integer from empty string".to_string()));
    assert_eq!(is_number("-1".to_string()), invalid);
    assert_eq!(is_number("80a".to_string()), invalid);
    assert_eq!(is_number("6553a".to_string()), invalid);
    assert_eq!(is_number("+".to_string()), invalid);
    assert_eq!(is_number(" 80".to_string()), invalid);
}

#[test]
fn concat_joins() {
    assert_eq!(join_str("ab", "cd"), "abcd");
    assert_eq!(join_str("", ""), "");
}
