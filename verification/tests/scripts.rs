use switch_bt_ws::scripts::{escape_single_quotes_chars, inf_path, install_script, restore_script, winusb_inf};

#[test]
fn quotes_are_doubled() {
    let cs: Vec<char> = "it's 'x'".chars().collect();
    let out: String = escape_single_quotes_chars(&cs).iter().collect();
    assert_eq!(out, "it''s ''x''");
}

#[test]
fn inf_path_joins_dir_and_name() {
    assert_eq!(inf_path(0x0a12, 0x0001), r"C:\Windows\Temp\btstack_drivers\0a12_0001\btstack_0a12_0001.inf");
}

#[test]
fn install_script_names_the_package() {
    let s = install_script(0x0a12, 0x0001);
    assert!(s.contains(r"$dir = 'C:\Windows\Temp\btstack_drivers\0a12_0001'"));
    assert!(s.contains("$infFile = 'btstack_0a12_0001.inf'"));
    assert!(s.contains("$catFile = 'btstack_0a12_0001.cat'"));
    assert!(s.contains(r"$hwid = 'USB\VID_0A12&PID_0001'"));
    assert!(s.contains("if (-not $cert) {\n"));
    assert!(s.trim_end().ends_with("Write-Output 'OK'"));
}

#[test]
fn inf_targets_the_device() {
    let s = winusb_inf(0x0a12, 0x0001);
    assert!(s.starts_with("[Version]\n"));
    assert!(s.contains("CatalogFile = btstack_0a12_0001.cat\n"));
    assert!(s.contains(r"%DeviceName% = USB_Install, USB\VID_0A12&PID_0001"));
    assert!(s.contains("{88BAE032-5A81-49f0-BC3D-A4FF138216D6}"));
}

#[test]
fn restore_script_names_the_package() {
    let s = restore_script(0xbeef, 0x0001);
    assert!(s.contains(r"$hwid = 'USB\VID_BEEF&PID_0001'"));
    assert!(s.contains("$infOriginal = 'btstack_beef_0001.inf'"));
    assert!(s.contains("$vidPidPattern = 'VID_BEEF&PID_0001'"));
    assert!(s.contains(r"$dir = 'C:\Windows\Temp\btstack_drivers\beef_0001'"));
}
