use lorawan_node::reply::{GetDevAddrResult, GetDevEuiResult, VoidResult};
use lorawan_node::serial::Command;
use lorawan_node::transport::{CommandError, Route, Transport};

#[test]
fn exchange_times_out_without_matching_reply() {
    let mut t = Transport::new();
    assert_eq!(t.begin(&Command::GetDevEui).unwrap().to_vec(), b"at+deveui?\r\n".to_vec());
    let replies = vec![b"garbage".to_vec(), b"+DEVADDR: BE75D8B7\r\n".to_vec()];
    let r = t.exchange::<GetDevEuiResult>(&replies);
    assert!(matches!(r, Err(CommandError::Timeout)));
    assert!(!t.outstanding);
}

#[test]
fn exchange_takes_first_matching_reply() {
    let mut t = Transport::new();
    t.begin(&Command::GetDevEui).unwrap();
    let replies = vec![
        b"noise".to_vec(),
        b"+DEVEUI: 00 95 69 06 00 01 28 9C\r\n".to_vec(),
        b"+DEVEUI: 11 11 11 11 11 11 11 11\r\n".to_vec(),
    ];
    let r = t.exchange::<GetDevEuiResult>(&replies).unwrap();
    assert_eq!(r.0, b"009569060001289C".to_vec());
    assert_eq!(t.route(), Route::Downlink);
}

#[test]
fn empty_reply_list_times_out() {
    let mut t = Transport::new();
    t.begin(&Command::Save).unwrap();
    let r = t.exchange::<VoidResult>(&Vec::new());
    assert!(matches!(r, Err(CommandError::Timeout)));
}

#[test]
fn second_command_waits_for_the_first() {
    let mut t = Transport::new();
    assert_eq!(t.route(), Route::Downlink);
    assert!(t.begin(&Command::GetDevEui).is_some());
    // a second exchange cannot start while the first is outstanding
    assert!(t.begin(&Command::GetDevAddr).is_none());
    assert_eq!(t.route(), Route::Command);
    // the address reply arrives first but belongs to nobody but the first command, which skips it
    assert!(t.offer::<GetDevEuiResult>(b"+DEVADDR: BE75D8B7\r\n").is_none());
    assert!(t.outstanding);
    let eui = t.offer::<GetDevEuiResult>(b"+DEVEUI: 00 95 69 06 00 01 28 9C\r\n").unwrap();
    assert_eq!(eui.0, b"009569060001289C".to_vec());
    // only now may the second command begin, and it sees only its own replies
    assert_eq!(t.begin(&Command::GetDevAddr).unwrap().to_vec(), b"at+devaddr?\r\n".to_vec());
    let addr = t.offer::<GetDevAddrResult>(b"+DEVADDR: BE75D8B7\r\n").unwrap();
    assert_eq!(addr.0, b"BE75D8B7".to_vec());
}

#[test]
fn timeout_and_write_failure_release_the_link() {
    let mut t = Transport::new();
    t.begin(&Command::Reset).unwrap();
    assert!(matches!(t.expire::<VoidResult>(), Err(CommandError::Timeout)));
    assert_eq!(t.route(), Route::Downlink);
    t.begin(&Command::Reset).unwrap();
    assert!(matches!(t.write_failed::<VoidResult>(), Err(CommandError::Transport)));
    assert!(t.begin(&Command::Reset).is_some());
}
