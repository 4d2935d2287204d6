use lorawan_node::reply::{
    CommandResultTrait, GetAppEuiResult, GetDevAddrResult, GetDevEuiResult, GetVerResult,
    VoidResult,
};

#[test]
fn dev_eui_reply_parses_without_spaces() {
    let r = GetDevEuiResult::parse(b"+DEVEUI: 00 95 69 06 00 01 28 9C\r\n").unwrap();
    assert_eq!(r.0, b"009569060001289C".to_vec());
}

#[test]
fn dev_eui_reply_after_other_output() {
    let r = GetDevEuiResult::parse(b"OK\r\n+DEVEUI: 00 95 69 06 00 01 28 9C\r\nOK\r\n").unwrap();
    assert_eq!(r.0, b"009569060001289C".to_vec());
}

#[test]
fn dev_eui_reply_missing_marker_fails() {
    assert!(GetDevEuiResult::parse(b"+APPEUI: 00 95 69 06 00 01 28 9C\r\n").is_err());
    assert!(GetDevEuiResult::parse(b"").is_err());
}

#[test]
fn dev_eui_reply_truncated_fails() {
    assert!(GetDevEuiResult::parse(b"+DEVEUI: 00 95 69").is_err());
    // the field must be followed by at least one byte
    assert!(GetDevEuiResult::parse(b"+DEVEUI: 00 95 69 06 00 01 28 9C").is_err());
    assert!(GetDevEuiResult::parse(b"+DEVEUI:").is_err());
}

#[test]
fn dev_eui_reply_too_long_fails() {
    assert!(GetDevEuiResult::parse(b"+DEVEUI: 0095690600012890ABCDEFG\r\n").is_err());
}

#[test]
fn dev_addr_reply_parses() {
    let r = GetDevAddrResult::parse(b"+DEVADDR: BE75D8B7\r\n").unwrap();
    assert_eq!(r.0, b"BE75D8B7".to_vec());
}

#[test]
fn dev_addr_reply_truncated_fails() {
    assert!(GetDevAddrResult::parse(b"+DEVADDR: BE75D8B7").is_err());
    assert!(GetDevAddrResult::parse(b"+DEVADDR: BE").is_err());
    assert!(GetDevAddrResult::parse(b"BE75D8B7\r\n").is_err());
}

#[test]
fn app_eui_reply_parses() {
    let r = GetAppEuiResult::parse(b"+APPEUI: 00 95 69 06 00 01 28 9C\r\n").unwrap();
    assert_eq!(r.0, b"009569060001289C".to_vec());
}

#[test]
fn app_eui_reply_missing_marker_fails() {
    assert!(GetAppEuiResult::parse(b"+DEVEUI: 00 95 69 06 00 01 28 9C\r\n").is_err());
}

#[test]
fn version_reply_parses_up_to_trailer() {
    let r = GetVerResult::parse(b"+VER: V1.0.3\r\nOK\r\n").unwrap();
    assert_eq!(r.0, b" V1.0.3".to_vec());
}

#[test]
fn version_reply_too_close_to_end_fails() {
    assert!(GetVerResult::parse(b"+VER:\r\n").is_err());
    assert!(GetVerResult::parse(b"xx+VER:abc").is_err());
    assert!(GetVerResult::parse(b"no marker here").is_err());
}

#[test]
fn void_reply_accepts_anything() {
    assert!(VoidResult::parse(b"").is_ok());
    assert!(VoidResult::parse(b"OK\r\n").is_ok());
}

#[test]
fn garbled_eui_fails() {
    assert!(GetDevEuiResult::parse(b"+DEVEUI: zz zz zz zz zz zz zz zz\r\n").is_err());
    assert!(GetAppEuiResult::parse(b"+APPEUI: 00 95 69 06 00 01 28 9G\r\n").is_err());
    // fewer than sixteen digits once the spaces are gone
    assert!(GetDevEuiResult::parse(b"+DEVEUI: 00 95 69 06 00 01 28   \r\n").is_err());
}

#[test]
fn eui_reply_accepts_lower_case_digits() {
    let r = GetDevEuiResult::parse(b"+DEVEUI: 00 95 69 06 00 01 28 9c\r\n").unwrap();
    assert_eq!(r.0, b"009569060001289c".to_vec());
}

#[test]
fn garbled_dev_addr_fails() {
    assert!(GetDevAddrResult::parse(b"+DEVADDR: BE75D8BX\r\n").is_err());
    assert!(GetDevAddrResult::parse(b"+DEVADDR: BE75 8B7\r\n").is_err());
}
