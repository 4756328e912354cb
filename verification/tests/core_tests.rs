//! Tests of the data model: conversions, request builders and the status
//! envelope.

use ctp_rust::encoding::GbkConverter;
use ctp_rust::types::{ReqUserLoginField, RspInfoField, StringConvert, UserIdType};
use ctp_rust::VERSION;

#[test]
fn lib_test_version() {
    assert!(!VERSION.is_empty());
}

#[test]
fn test_utf8_to_gb18030_and_back() {
    let original = "测试字符串";
    let gb_bytes = GbkConverter::utf8_to_gb18030(original).unwrap();
    let converted = GbkConverter::gb18030_to_utf8(&gb_bytes).unwrap();
    assert_eq!(original, converted);
}

#[test]
fn test_empty_string() {
    let result = GbkConverter::gb18030_to_utf8(&[]).unwrap();
    assert_eq!(result, "");
}

#[test]
fn test_null_terminated_bytes() {
    let bytes = b"test\0\0\0";
    let result = GbkConverter::gb18030_to_utf8(bytes).unwrap();
    assert_eq!(result, "test");
}

#[test]
fn encoding_test_fixed_bytes_conversion() {
    let original = "测试";
    let fixed_bytes: [u8; 20] = GbkConverter::utf8_to_fixed_bytes(original).unwrap();
    let converted = GbkConverter::fixed_bytes_to_utf8(&fixed_bytes).unwrap();
    assert_eq!(converted.trim_end_matches('\0'), original);
}

#[test]
fn test_string_convert() {
    let test_str = "测试用户";
    let user_id = UserIdType::from_utf8_string(test_str).unwrap();
    let converted = user_id.to_utf8_string().unwrap();
    assert_eq!(converted.trim_end_matches('\0'), test_str);
}

#[test]
fn test_login_request_creation() {
    let req = ReqUserLoginField::new("9999", "investor1", "123456").unwrap();

    assert_eq!(
        req.broker_id
            .to_utf8_string()
            .unwrap()
            .trim_end_matches('\0'),
        "9999"
    );
    assert_eq!(
        req.user_id.to_utf8_string().unwrap().trim_end_matches('\0'),
        "investor1"
    );
    assert_eq!(
        req.password
            .to_utf8_string()
            .unwrap()
            .trim_end_matches('\0'),
        "123456"
    );
}

#[test]
fn test_rsp_info_success() {
    let mut rsp = RspInfoField::default();
    assert!(rsp.is_success());

    rsp.error_id = -1;
    assert!(!rsp.is_success());
}

#[test]
fn test_login_request_builders() {
    let req = ReqUserLoginField::new("9999", "investor1", "123456")
        .unwrap()
        .with_product_info("TestApp")
        .unwrap()
        .with_auth_code("AUTHCODE")
        .unwrap()
        .with_mac_address("00:11:22:33:44:55")
        .unwrap()
        .with_client_ip("192.168.1.10", "5555")
        .unwrap();

    assert_eq!(
        req.user_product_info
            .to_utf8_string()
            .unwrap()
            .trim_end_matches('\0'),
        "TestApp"
    );
    assert_eq!(
        req.interface_product_info
            .to_utf8_string()
            .unwrap()
            .trim_end_matches('\0'),
        "TestApp"
    );
    assert_eq!(
        req.one_time_password
            .to_utf8_string()
            .unwrap()
            .trim_end_matches('\0'),
        "AUTHCODE"
    );
    assert_eq!(
        req.client_ip_address
            .to_utf8_string()
            .unwrap()
            .trim_end_matches('\0'),
        "192.168.1.10"
    );
    // The builders leave the fields set earlier untouched.
    assert_eq!(
        req.broker_id
            .to_utf8_string()
            .unwrap()
            .trim_end_matches('\0'),
        "9999"
    );
}

#[test]
fn test_error_message_decoding() {
    let mut rsp = RspInfoField::default();
    rsp.error_id = 42;
    let msg_bytes: [u8; 81] = GbkConverter::utf8_to_fixed_bytes("资金不足").unwrap();
    rsp.error_msg = msg_bytes;
    let decoded = rsp.get_error_msg().unwrap();
    assert_eq!(decoded, "资金不足");
}
