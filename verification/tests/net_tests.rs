use edge_frame::edge::ipv4::{optional_ip_text, validate_ip, validate_optional_ip, validate_subnet};
use edge_frame::net::{format_ipv4, format_subnet, parse_ipv4, Ipv4Addr, Subnet};
use edge_frame::text::{eq_ignore_ascii_case_exec, is_blank_exec, str_eq, trim};

#[test]
fn parse_ipv4_accepts_dotted_quads() {
    assert_eq!(parse_ipv4("192.168.1.1"), Some(Ipv4Addr(192, 168, 1, 1)));
    assert_eq!(parse_ipv4("0.0.0.0"), Some(Ipv4Addr(0, 0, 0, 0)));
    assert_eq!(parse_ipv4("255.255.255.255"), Some(Ipv4Addr(255, 255, 255, 255)));
}

#[test]
fn parse_ipv4_refuses_other_text() {
    assert_eq!(parse_ipv4("256.1.1.1"), None);
    assert_eq!(parse_ipv4("1.2.3"), None);
    assert_eq!(parse_ipv4("1.2.3.4.5"), None);
    assert_eq!(parse_ipv4("01.2.3.4"), None);
    assert_eq!(parse_ipv4(" 1.2.3.4"), None);
    assert_eq!(parse_ipv4(""), None);
    assert_eq!(parse_ipv4("a.b.c.d"), None);
}

#[test]
fn format_then_parse_gives_the_address_back() {
    let a = Ipv4Addr(10, 0, 100, 7);
    let text = format_ipv4(a);
    assert_eq!(text, "10.0.100.7");
    assert_eq!(parse_ipv4(&text), Some(a));
}

#[test]
fn format_subnet_writes_gateway_and_mask() {
    let s = Subnet { gateway: Ipv4Addr(192, 168, 71, 1), mask: 24 };
    assert_eq!(format_subnet(s), "192.168.71.1/24");
}

#[test]
fn validate_subnet_reads_embedded_svc_subnets() {
    let s = validate_subnet("192.168.71.1/24".to_string()).unwrap();
    assert_eq!(s, Subnet { gateway: Ipv4Addr(192, 168, 71, 1), mask: 24 });
    let again = validate_subnet(format_subnet(s)).unwrap();
    assert_eq!(again, s);
}

#[test]
fn validate_subnet_reports_each_error() {
    assert_eq!(
        validate_subnet("192.168.71.1".to_string()),
        Err("Expected <gateway-ip-address>/<mask>".to_string())
    );
    assert_eq!(
        validate_subnet("1.2.3/24".to_string()),
        Err("Invalid IP address format, expected XXX.XXX.XXX.XXX".to_string())
    );
    assert_eq!(validate_subnet("1.2.3.4/x".to_string()), Err("Invalid subnet mask".to_string()));
    assert_eq!(
        validate_subnet("1.2.3.4/33".to_string()),
        Err("Mask should be a number between 1 and 32".to_string())
    );
    assert_eq!(
        validate_subnet("1.2.3.4/0".to_string()),
        Err("Mask should be a number between 1 and 32".to_string())
    );
}

#[test]
fn validate_ip_and_optional_ip() {
    assert_eq!(validate_ip("8.8.8.8".to_string()), Ok(Ipv4Addr(8, 8, 8, 8)));
    assert_eq!(
        validate_ip("8.8.8".to_string()),
        Err("Invalid IP address format, expected XXX.XXX.XXX.XXX".to_string())
    );
    assert_eq!(validate_optional_ip("   ".to_string()), Ok(None));
    assert_eq!(validate_optional_ip("".to_string()), Ok(None));
    assert_eq!(validate_optional_ip("8.8.4.4".to_string()), Ok(Some(Ipv4Addr(8, 8, 4, 4))));
    assert!(validate_optional_ip("x".to_string()).is_err());
    assert_eq!(optional_ip_text(Some(Ipv4Addr(1, 2, 3, 4))), "1.2.3.4");
    assert_eq!(optional_ip_text(None), "");
}

#[test]
fn trim_and_blank() {
    assert_eq!(trim("  a b \t\n"), "a b");
    assert_eq!(trim("   "), "");
    assert_eq!(trim("x"), "x");
    assert_eq!(trim("\u{3000}x\u{a0}"), "x");
    assert!(is_blank_exec(" \t"));
    assert!(is_blank_exec(""));
    assert!(!is_blank_exec(" a "));
}

#[test]
fn text_comparisons() {
    assert!(str_eq("abc", "abc"));
    assert!(!str_eq("abc", "abd"));
    assert!(eq_ignore_ascii_case_exec("Index.HTML", "index.html"));
    assert!(!eq_ignore_ascii_case_exec("index.htm", "index.html"));
}

#[test]
fn validate_subnet_reads_masks_as_bytes() {
    assert_eq!(
        validate_subnet("1.2.3.4/+024".to_string()),
        Ok(Subnet { gateway: Ipv4Addr(1, 2, 3, 4), mask: 24 })
    );
    assert_eq!(
        validate_subnet("1.2.3.4/24/1".to_string()),
        Err("Expected <gateway-ip-address>/<mask>".to_string())
    );
    assert_eq!(validate_subnet("1.2.3.4/".to_string()), Err("Invalid subnet mask".to_string()));
    assert_eq!(validate_subnet("1.2.3.4/-1".to_string()), Err("Invalid subnet mask".to_string()));
    assert_eq!(validate_subnet("1.2.3.4/300".to_string()), Err("Invalid subnet mask".to_string()));
    assert_eq!(
        validate_subnet("01.2.3.4/24".to_string()),
        Err("Invalid IP address format, expected XXX.XXX.XXX.XXX".to_string())
    );
}
