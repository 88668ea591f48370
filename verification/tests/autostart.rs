//! Starting on login.

use wireguard_gui::autostart::desktop_file_contents;

#[test]
fn desktop_contents_has_desktop_entry_section() {
    let contents = desktop_file_contents("/usr/bin/wireguard-gui");
    assert!(
        contents.starts_with("[Desktop Entry]\n"),
        "must open with the [Desktop Entry] section header"
    );
}

#[test]
fn desktop_contents_exec_line_uses_hidden_flag() {
    let exe = "/opt/wireguard-gui-rust/wireguard-gui";
    let contents = desktop_file_contents(exe);
    assert!(
        contents.contains(&format!("Exec={exe} --hidden\n")),
        "Exec line must use the given path and append --hidden: got:\n{contents}"
    );
}

#[test]
fn desktop_contents_type_is_application() {
    let contents = desktop_file_contents("/usr/bin/wg-gui");
    assert!(
        contents.contains("Type=Application\n"),
        "Type must be Application"
    );
}

#[test]
fn desktop_contents_autostart_enabled_true() {
    let contents = desktop_file_contents("/usr/bin/wg-gui");
    assert!(
        contents.contains("X-GNOME-Autostart-enabled=true\n"),
        "X-GNOME-Autostart-enabled must be true"
    );
}

#[test]
fn desktop_contents_hidden_false() {
    let contents = desktop_file_contents("/usr/bin/wg-gui");
    assert!(
        contents.contains("Hidden=false\n"),
        "Hidden must be false so the entry is active"
    );
}

#[test]
fn desktop_contents_has_name_field() {
    let contents = desktop_file_contents("/usr/bin/wg-gui");
    assert!(
        contents.contains("Name=WireGuard GUI\n"),
        "Name field must be present"
    );
}

#[test]
fn desktop_contents_exe_path_with_spaces() {
    let exe = "/home/user/my apps/wireguard-gui";
    let contents = desktop_file_contents(exe);
    assert!(
        contents.contains(&format!("Exec={exe} --hidden\n")),
        "Exec must embed the literal exe string even when it contains spaces"
    );
}
