//! One instance at a time.

use wireguard_gui::single_instance::SOCKET_NAME;

#[test]
fn socket_name_starts_with_nul() {
    assert_eq!(SOCKET_NAME[0], 0, "SOCKET_NAME must start with a NUL byte");
}
