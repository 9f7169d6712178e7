use switch_bt_ws::driver::{
    cat_name, devices_from_entries, driver_package_dir, extract_id_field, hardware_id, inf_name,
    install_outcome, normalize_device_json, parse_vid_pid, restore_outcome, vid_pid_of_uppercased,
    BtUsbDevice, PnpEntry,
};

fn entry(device_id: Option<&str>, description: Option<&str>, service: Option<&str>) -> PnpEntry {
    PnpEntry {
        device_id: device_id.map(|s| s.to_string()),
        description: description.map(|s| s.to_string()),
        service: service.map(|s| s.to_string()),
        pnp_class: Some("Bluetooth".to_string()),
    }
}

#[test]
fn package_names() {
    assert_eq!(inf_name(0x0a12, 0x0001), "btstack_0a12_0001.inf");
    assert_eq!(cat_name(0x0a12, 0x0001), "btstack_0a12_0001.cat");
    assert_eq!(driver_package_dir(0x0a12, 0x0001), r"C:\Windows\Temp\btstack_drivers\0a12_0001");
    assert_eq!(hardware_id(0x0a12, 0x0001), r"USB\VID_0A12&PID_0001");
    assert_eq!(hardware_id(0xbeef, 0xcafe), r"USB\VID_BEEF&PID_CAFE");
}

#[test]
fn extract_id_field_takes_the_hex_run() {
    assert_eq!(extract_id_field(r"USB\VID_0A12&PID_0001\5&1", "VID_"), "0A12");
    assert_eq!(extract_id_field(r"USB\VID_0A12&PID_0001\5&1", "PID_"), "0001");
    assert_eq!(extract_id_field(r"USB\VID_0A12&PID_0001", "PID_"), "0001");
    assert_eq!(extract_id_field(r"USB\ROOT_HUB", "VID_"), "0000");
    assert_eq!(extract_id_field(r"USB\VID_&PID_1", "VID_"), "");
    assert_eq!(extract_id_field(r"VID_12VID_34", "VID_"), "12");
}

#[test]
fn parse_vid_pid_is_case_insensitive() {
    let (vid, pid) = parse_vid_pid(r"usb\vid_0a12&pid_00AB\6&2");
    assert_eq!((vid.as_str(), pid.as_str()), ("0a12", "00ab"));
    let (vid, pid) = parse_vid_pid(r"USB\ROOT_HUB30\4&1");
    assert_eq!((vid.as_str(), pid.as_str()), ("0000", "0000"));
    let (vid, pid) = vid_pid_of_uppercased(r"USB\VID_8087&PID_0026");
    assert_eq!((vid.as_str(), pid.as_str()), ("8087", "0026"));
}

#[test]
fn device_list_filters_and_numbers_instances() {
    let entries = vec![
        entry(Some(r"USB\VID_0A12&PID_0001\5&1"), Some("CSR dongle"), Some("BthUsb")),
        entry(Some(r"BTH\MS_BTHBRB\7&1"), Some("Bluetooth enumerator"), None),
        entry(Some(r"USB\VID_0A12&PID_0001\5&2"), None, Some("WinUSB")),
        entry(None, Some("nothing"), None),
        entry(Some(r"USB\ROOT_HUB30\4&1"), Some("hub"), None),
        entry(Some(r"USB\VID_0B05&PID_17CB\9"), Some("ASUS"), None),
        entry(Some(r"usb\vid_0a12&pid_0001\5&3"), Some("third"), Some("WinUsb")),
    ];
    let devices = devices_from_entries(&entries);
    let expected = vec![
        BtUsbDevice { vid: "0a12".into(), pid: "0001".into(), description: "CSR dongle".into(), driver: "BthUsb".into(), instance: 0 },
        BtUsbDevice { vid: "0a12".into(), pid: "0001".into(), description: "不明".into(), driver: "WinUSB".into(), instance: 1 },
        BtUsbDevice { vid: "0b05".into(), pid: "17cb".into(), description: "ASUS".into(), driver: "不明".into(), instance: 0 },
    ];
    assert_eq!(devices, expected);
}

#[test]
fn device_json_is_normalised_to_an_array() {
    assert_eq!(normalize_device_json(""), None);
    assert_eq!(normalize_device_json("  \r\n"), None);
    assert_eq!(normalize_device_json("null\r\n"), None);
    assert_eq!(normalize_device_json(" [{\"a\":1}] "), Some("[{\"a\":1}]".to_string()));
    assert_eq!(normalize_device_json("{\"a\":1}\r\n"), Some("[{\"a\":1}]".to_string()));
}

#[test]
fn install_outcome_messages() {
    assert_eq!(
        install_outcome(0x0a12, 0x0001, true, "OK\r\n", ""),
        Ok("WinUSB ドライバを導入しました (0a12:0001)".to_string())
    );
    assert_eq!(
        install_outcome(0x0a12, 0x0001, true, "REBOOT_REQUIRED\r\nOK\r\n", ""),
        Ok("WinUSB ドライバを導入しました (0a12:0001)（再起動が必要です）".to_string())
    );
    assert_eq!(
        install_outcome(0x0a12, 0x0001, false, "OK", "  access denied \n"),
        Err("WinUSB ドライバの導入に失敗しました: access denied".to_string())
    );
    assert_eq!(
        install_outcome(0x0a12, 0x0001, true, " nothing ", "   "),
        Err("WinUSB ドライバの導入に失敗しました: nothing".to_string())
    );
}

#[test]
fn restore_outcome_messages() {
    assert_eq!(
        restore_outcome(0x0a12, 0x0001, true, "Found OEM INF: oem12.inf\nOK\n", ""),
        Ok("ドライバを復元しました (0a12:0001)".to_string())
    );
    assert_eq!(
        restore_outcome(0x0a12, 0x0001, false, "", "boom"),
        Err("ドライバの復元に失敗しました: boom".to_string())
    );
}
