//! The commands for namespaces and the server.

use wireguard_gui::net::netns::NetnsManager;
use wireguard_gui::net::privilege::PrivCmd;
use wireguard_gui::server::manage::{detect_egress_iface, start, status, status_named, stop};
use wireguard_gui::server::{ServerConfig, ServerPeer};

fn s(t: &str) -> String {
    t.to_owned()
}

#[test]
fn namespaces_are_asked_for() {
    let setup = NetnsManager.setup(
        "wg-gui-app",
        "wg-gui-ns0",
        "/run/ns.conf",
        "10.2.0.2/32",
        vec![s("1.1.1.1")],
    );
    assert_eq!(
        setup,
        PrivCmd::NetnsSetup {
            ns: s("wg-gui-app"),
            wgif: s("wg-gui-ns0"),
            conf_path: s("/run/ns.conf"),
            address: s("10.2.0.2/32"),
            dns: vec![s("1.1.1.1")],
        }
    );
    assert_eq!(
        NetnsManager.teardown("wg-gui-app"),
        PrivCmd::NetnsTeardown { ns: s("wg-gui-app") }
    );
    let launch = NetnsManager.launch(
        "wg-gui-app",
        1000,
        "/usr/bin/firefox",
        vec![s("-P")],
        vec![(s("DISPLAY"), s(":0"))],
    );
    assert_eq!(
        launch,
        PrivCmd::NetnsLaunch {
            ns: s("wg-gui-app"),
            uid: 1000,
            exe: s("/usr/bin/firefox"),
            args: vec![s("-P")],
            env: vec![(s("DISPLAY"), s(":0"))],
        }
    );
}

#[test]
fn the_server_is_written_then_started() {
    let config = ServerConfig::default();
    let (write, up) = start(&config);
    assert_eq!(write, PrivCmd::ServerWriteConf { conf_text: config.to_server_conf() });
    assert_eq!(up, PrivCmd::ServerUp);
    assert_eq!(stop(), PrivCmd::ServerDown);
}

#[test]
fn clients_are_shown_by_name() {
    let mut config = ServerConfig::default();
    config.peers.push(ServerPeer { name: s("phone"), public_key: s("pk1"), ..Default::default() });
    let dump = "priv\tpub\t51820\toff\n\
                pk1\t(none)\t1.2.3.4:5\t10.7.0.2/32\t1700000000\t10\t20\toff\n\
                unknownpublickey\t(none)\t(none)\t10.7.0.3/32\t0\t0\t0\toff\n";
    let named = status_named(Some(s(dump)), 1_700_000_100, &config);
    assert_eq!(named.len(), 2);
    assert_eq!(named[0].name, "phone");
    assert_eq!((named[0].rx_bytes, named[0].tx_bytes), (10, 20));
    assert_eq!(named[0].last_handshake, Some(1_700_000_000));
    assert_eq!(named[1].name, "unknownpubli…");
    assert_eq!(named[1].last_handshake, None);
    assert_eq!(status(Some(s(dump)), 1_700_000_100).len(), 2);
    assert!(status(None, 0).is_empty());
    assert!(status(Some(s(" \n")), 0).is_empty());
    assert!(status_named(None, 0, &config).is_empty());
}

#[test]
fn the_way_out_is_found() {
    assert_eq!(detect_egress_iface(None), None);
    assert_eq!(
        detect_egress_iface(Some(s("default via 10.0.0.1 dev wlan0\n"))),
        Some(s("wlan0"))
    );
    assert_eq!(detect_egress_iface(Some(s("10.0.0.0/8 dev eth1\n"))), None);
}
