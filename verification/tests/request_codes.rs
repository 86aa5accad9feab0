use pg_wire::request_codes::{
    Code, CANCEL_REQUEST_CODE, GSSENC_REQUEST_CODE, SSL_REQUEST_CODE, VERSION_1_CODE,
    VERSION_2_CODE, VERSION_3_CODE,
};

#[test]
fn version_one_request() {
    assert_eq!(Code(VERSION_1_CODE).to_string(), "Version 1.0 Request");
}

#[test]
fn version_two_request() {
    assert_eq!(Code(VERSION_2_CODE).to_string(), "Version 2.0 Request");
}

#[test]
fn version_three_request() {
    assert_eq!(Code(VERSION_3_CODE).to_string(), "Version 3.0 Request");
}

#[test]
fn cancel_request() {
    assert_eq!(Code(CANCEL_REQUEST_CODE).to_string(), "Cancel Request")
}

#[test]
fn ssl_request() {
    assert_eq!(Code(SSL_REQUEST_CODE).to_string(), "SSL Request")
}

#[test]
fn gssenc_request() {
    assert_eq!(Code(GSSENC_REQUEST_CODE).to_string(), "GSSENC Request")
}

#[test]
fn other_request() {
    assert_eq!(Code(0x11_22_33_44).to_string(), "High bytes 0x1122 Low bytes: 0x3344")
}

#[test]
fn request_code_values() {
    assert_eq!(VERSION_1_CODE, 0x0001_0000);
    assert_eq!(VERSION_2_CODE, 0x0002_0000);
    assert_eq!(VERSION_3_CODE, 0x0003_0000);
    assert_eq!(CANCEL_REQUEST_CODE, 80877102);
    assert_eq!(SSL_REQUEST_CODE, 80877103);
    assert_eq!(GSSENC_REQUEST_CODE, 80877104);
}

#[test]
fn other_request_with_the_sign_bit() {
    assert_eq!(Code(-1).to_string(), "High bytes 0xffff Low bytes: 0xffff");
    assert_eq!(Code(0).to_string(), "High bytes 0x0 Low bytes: 0x0");
    assert_eq!(Code(i32::MIN).to_string(), "High bytes 0x8000 Low bytes: 0x0");
    assert_eq!(Code(0x0003_0001).to_string(), "High bytes 0x3 Low bytes: 0x1");
}

#[test]
fn code_as_bytes() {
    assert_eq!(Code(SSL_REQUEST_CODE).as_vec(), 80877103i32.to_be_bytes().to_vec());
    assert_eq!(Code(-2).as_vec(), vec![0xFF, 0xFF, 0xFF, 0xFE]);
}
