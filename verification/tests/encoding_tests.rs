//! Round-trip tests of the GB18030/UTF-8 conversions.

use ctp_rust::encoding::GbkConverter;
use ctp_rust::types::StringConvert;
use ctp_rust::types::{BrokerIdType, InstrumentIdType, PasswordType, ProductInfoType, UserIdType};

#[test]
fn test_basic_encoding_conversion() {
    let test_cases = vec![
        "测试",
        "期货",
        "交易",
        "行情",
        "投资者",
        "经纪公司",
        "合约代码",
        "买卖方向",
        "开平标志",
        "投机套保",
    ];

    for test_str in test_cases {
        println!("测试字符串: '{}'", test_str);

        let gb_bytes = GbkConverter::utf8_to_gb18030(test_str)
            .expect(&format!("UTF-8转GB18030失败: {}", test_str));

        let converted = GbkConverter::gb18030_to_utf8(&gb_bytes)
            .expect(&format!("GB18030转UTF-8失败: {}", test_str));

        assert_eq!(test_str, converted, "往返转换结果不匹配");
        println!("  ✓ 转换成功");
    }
}

#[test]
fn test_mixed_content_encoding() {
    let test_cases = vec![
        "SHFE.rb2501",
        "DCE.i2501",
        "CZCE.TA501",
        "CFFEX.IF2501",
        "INE.sc2501",
        "rb2501期货合约",
        "TestApp_V1.0",
        "192.168.1.100:8080",
        "investor_001",
        "开仓Buy",
        "平仓Sell",
    ];

    for test_str in test_cases {
        println!("测试混合内容: '{}'", test_str);

        let gb_bytes = GbkConverter::utf8_to_gb18030(test_str)
            .expect(&format!("混合内容转换失败: {}", test_str));

        let converted = GbkConverter::gb18030_to_utf8(&gb_bytes)
            .expect(&format!("混合内容回转失败: {}", test_str));

        assert_eq!(test_str, converted, "混合内容往返转换失败");
        println!("  ✓ 混合内容转换成功");
    }
}

#[test]
fn test_special_characters() {
    let test_cases = vec![
        "测试@#$%",
        "价格：123.45",
        "数量（手）",
        "买卖【方向】",
        "时间：12:34:56",
        "日期-2024/01/01",
        "错误代码：-1",
        "成功！",
        "失败？",
    ];

    for test_str in test_cases {
        println!("测试特殊字符: '{}'", test_str);

        let gb_bytes = GbkConverter::utf8_to_gb18030(test_str)
            .expect(&format!("特殊字符转换失败: {}", test_str));

        let converted = GbkConverter::gb18030_to_utf8(&gb_bytes)
            .expect(&format!("特殊字符回转失败: {}", test_str));

        assert_eq!(test_str, converted, "特殊字符往返转换失败");
        println!("  ✓ 特殊字符转换成功");
    }
}

#[test]
fn test_empty_and_edge_cases() {
    let empty_result = GbkConverter::utf8_to_gb18030("").expect("空字符串转换失败");
    assert!(empty_result.is_empty(), "空字符串转换结果应为空");

    let empty_back = GbkConverter::gb18030_to_utf8(&empty_result).expect("空字节转换失败");
    assert!(empty_back.is_empty(), "空字节转换结果应为空字符串");

    let ascii_str = "Hello123ABC";
    let ascii_bytes = GbkConverter::utf8_to_gb18030(ascii_str).expect("ASCII转换失败");
    let ascii_back = GbkConverter::gb18030_to_utf8(&ascii_bytes).expect("ASCII回转失败");
    assert_eq!(ascii_str, ascii_back, "ASCII往返转换失败");

    let single_char = "中";
    let single_bytes = GbkConverter::utf8_to_gb18030(single_char).expect("单字符转换失败");
    let single_back = GbkConverter::gb18030_to_utf8(&single_bytes).expect("单字符回转失败");
    assert_eq!(single_char, single_back, "单字符往返转换失败");

    println!("边界情况测试通过");
}

#[test]
fn test_null_terminated_handling() {
    let test_str = "测试字符串";
    let mut bytes_with_null = GbkConverter::utf8_to_gb18030(test_str).expect("转换失败");

    bytes_with_null.push(0);
    bytes_with_null.push(0);
    bytes_with_null.push(0);

    let converted = GbkConverter::gb18030_to_utf8(&bytes_with_null).expect("带null字节转换失败");

    assert_eq!(test_str, converted, "null终止符处理失败");
    println!("null终止符处理测试通过");
}

#[test]
fn encoding_tests_test_fixed_bytes_conversion() {
    let test_str = "测试";

    let fixed_bytes: [u8; 20] =
        GbkConverter::utf8_to_fixed_bytes(test_str).expect("固定长度转换失败");

    let converted = GbkConverter::fixed_bytes_to_utf8(&fixed_bytes).expect("固定长度回转失败");

    assert_eq!(
        test_str,
        converted.trim_end_matches('\0'),
        "固定长度往返转换失败"
    );

    let long_str = "这是一个很长的测试字符串，用来测试截断功能";
    let truncated: [u8; 10] = GbkConverter::utf8_to_fixed_bytes(long_str).expect("截断转换失败");

    let truncated_back = GbkConverter::fixed_bytes_to_utf8(&truncated).expect("截断回转失败");

    assert_ne!(
        long_str,
        truncated_back.trim_end_matches('\0'),
        "截断功能验证失败"
    );

    println!("固定长度字节数组转换测试通过");
}

#[test]
fn test_string_convert_trait() {
    let test_cases = vec![
        ("经纪商", "BrokerIdType"),
        ("投资者001", "UserIdType"),
        ("rb2501", "InstrumentIdType"),
        ("password123", "PasswordType"),
        ("TestApp", "ProductInfoType"),
    ];

    for (test_str, kind) in test_cases {
        println!("测试 {} 类型转换: '{}'", kind, test_str);

        match kind {
            "BrokerIdType" => {
                let typed = BrokerIdType::from_utf8_string(test_str)
                    .expect(&format!("{} 转换失败", kind));
                let back = typed
                    .to_utf8_string()
                    .expect(&format!("{} 回转失败", kind));
                assert_eq!(test_str, back.trim_end_matches('\0'));
            }
            "UserIdType" => {
                let typed = UserIdType::from_utf8_string(test_str)
                    .expect(&format!("{} 转换失败", kind));
                let back = typed
                    .to_utf8_string()
                    .expect(&format!("{} 回转失败", kind));
                assert_eq!(test_str, back.trim_end_matches('\0'));
            }
            "InstrumentIdType" => {
                let typed = InstrumentIdType::from_utf8_string(test_str)
                    .expect(&format!("{} 转换失败", kind));
                let back = typed
                    .to_utf8_string()
                    .expect(&format!("{} 回转失败", kind));
                assert_eq!(test_str, back.trim_end_matches('\0'));
            }
            "PasswordType" => {
                let typed = PasswordType::from_utf8_string(test_str)
                    .expect(&format!("{} 转换失败", kind));
                let back = typed
                    .to_utf8_string()
                    .expect(&format!("{} 回转失败", kind));
                assert_eq!(test_str, back.trim_end_matches('\0'));
            }
            "ProductInfoType" => {
                let typed = ProductInfoType::from_utf8_string(test_str)
                    .expect(&format!("{} 转换失败", kind));
                let back = typed
                    .to_utf8_string()
                    .expect(&format!("{} 回转失败", kind));
                assert_eq!(test_str, back.trim_end_matches('\0'));
            }
            _ => panic!("未知类型: {}", kind),
        }

        println!("  ✓ {} 转换成功", kind);
    }
}

#[test]
fn test_encoding_differs_from_utf8() {
    // GB18030 encodes Chinese text in different bytes than UTF-8: the codec
    // really re-encodes, it does not hand its input back.
    let test_str = "测试";
    let gb_bytes = GbkConverter::utf8_to_gb18030(test_str).expect("转换失败");
    assert_ne!(gb_bytes.as_slice(), test_str.as_bytes());
    assert_eq!(gb_bytes.len(), 4);
}

#[test]
fn test_fixed_bytes_exact_ascii_padding() {
    // ASCII passes through GB18030 unchanged, truncated or null-padded to
    // the field's width.
    let framed: [u8; 6] = GbkConverter::utf8_to_fixed_bytes("AB").expect("转换失败");
    assert_eq!(framed, [0x41, 0x42, 0, 0, 0, 0]);

    let truncated: [u8; 3] = GbkConverter::utf8_to_fixed_bytes("ABCDEF").expect("转换失败");
    assert_eq!(truncated, [0x41, 0x42, 0x43]);
}
