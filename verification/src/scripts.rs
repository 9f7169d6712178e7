//! The PowerShell scripts and the INF file that install a WinUSB driver for a
//! Bluetooth dongle and restore its original driver.

use vstd::prelude::*;
use crate::driver::{
    cat_name, driver_package_dir, driver_package_dir_spec, hardware_id, hardware_id_spec, inf_name,
    package_file_name,
};
use crate::text::{hex4, hex4_chars, push_chars, push_str, str_chars, string_from_chars};

verus! {

/// Install script text up to the package directory.
pub const INSTALL_SCRIPT_0: &'static str = r##"
$ErrorActionPreference = 'Stop'
$certSubject = 'CN=switch-bt-ws WinUSB Driver'
$dir = '"##;
/// Install script text between the package directory and the INF name.
pub const INSTALL_SCRIPT_1: &'static str = r##"'
$infFile = '"##;
/// Install script text between the INF name and the catalog name.
pub const INSTALL_SCRIPT_2: &'static str = r##"'
$catFile = '"##;
/// Install script text between the catalog name and the hardware id.
pub const INSTALL_SCRIPT_3: &'static str = r##"'
$hwid = '"##;
/// Install script text after the hardware id: certificate, catalog,
/// signature and driver update.
pub const INSTALL_SCRIPT_4: &'static str = r##"'

# --- 1. 自己署名コード署名証明書 (既存なら再利用) ---
$cert = Get-ChildItem Cert:\LocalMachine\My -CodeSigningCert |
    Where-Object { $_.Subject -eq $certSubject -and $_.NotAfter -gt (Get-Date) } |
    Select-Object -First 1
if (-not $cert) {
    $cert = New-SelfSignedCertificate `
        -Subject $certSubject `
        -Type CodeSigningCert `
        -CertStoreLocation Cert:\LocalMachine\My `
        -NotAfter (Get-Date).AddYears(10)
}

# --- 2. Root + TrustedPublisher に追加（既にあればスキップ） ---
$thumb = $cert.Thumbprint
foreach ($store in @('Root', 'TrustedPublisher')) {
    $existing = Get-ChildItem "Cert:\LocalMachine\$store" |
        Where-Object { $_.Thumbprint -eq $thumb }
    if (-not $existing) {
        $tmpCer = [System.IO.Path]::GetTempFileName() + '.cer'
        Export-Certificate -Cert $cert -FilePath $tmpCer -Type CERT | Out-Null
        Import-Certificate -FilePath $tmpCer -CertStoreLocation "Cert:\LocalMachine\$store" | Out-Null
        Remove-Item $tmpCer -ErrorAction SilentlyContinue
    }
}

# --- 3. カタログファイル (.cat) を作成 ---
$catPath = Join-Path $dir $catFile
New-FileCatalog -Path $dir -CatalogFilePath $catPath -CatalogVersion 2.0 | Out-Null

# --- 4. カタログに署名 ---
Set-AuthenticodeSignature -FilePath $catPath -Certificate $cert -HashAlgorithm SHA256 | Out-Null

# --- 5. UpdateDriverForPlugAndPlayDevicesW でドライバ適用 ---
Add-Type -TypeDefinition @"
using System;
using System.Runtime.InteropServices;
using System.ComponentModel;

public class WinUsbInstaller {
    [DllImport("newdev.dll", SetLastError = true, CharSet = CharSet.Unicode)]
    public static extern bool UpdateDriverForPlugAndPlayDevicesW(
        IntPtr hwndParent,
        string HardwareId,
        string FullInfPath,
        uint InstallFlags,
        out bool bRebootRequired
    );
}
"@

$infPath = Join-Path $dir $infFile
$reboot = $false
$result = [WinUsbInstaller]::UpdateDriverForPlugAndPlayDevicesW(
    [IntPtr]::Zero, $hwid, $infPath, 0x01, [ref]$reboot)
if (-not $result) {
    $err = [System.Runtime.InteropServices.Marshal]::GetLastWin32Error()
    $ex = New-Object System.ComponentModel.Win32Exception($err)
    throw "UpdateDriver failed ($err): $($ex.Message)"
}
if ($reboot) { Write-Output 'REBOOT_REQUIRED' }
Write-Output 'OK'
"##;
/// INF text up to the catalog file name.
pub const WINUSB_INF_0: &'static str = r##"[Version]
Signature   = "$Windows NT$"
Class       = USBDevice
ClassGUID   = {88BAE032-5A81-49f0-BC3D-A4FF138216D6}
Provider    = %ProviderName%
CatalogFile = "##;
/// INF text between the catalog file name and the vendor id.
pub const WINUSB_INF_1: &'static str = r##"
DriverVer   = 01/01/2024,1.0.0.0

[ClassInstall32]
AddReg = WinUSBDeviceClassReg

[WinUSBDeviceClassReg]
HKR,,,0,%ClassName%
HKR,,Icon,,-20

[Manufacturer]
%ProviderName% = libusbDevice_WinUSB,NTamd64

[libusbDevice_WinUSB.NTamd64]
%DeviceName% = USB_Install, USB\VID_"##;
/// INF text between the vendor id and the product id.
pub const WINUSB_INF_2: &'static str = r##"&PID_"##;
/// INF text after the product id.
pub const WINUSB_INF_3: &'static str = r##"

[USB_Install]
Include = winusb.inf
Needs   = WINUSB.NT

[USB_Install.Services]
Include    = winusb.inf
AddService = WinUSB, 0x00000002, WinUSB_ServiceInstall

[WinUSB_ServiceInstall]
DisplayName    = %WinUSB_SvcDesc%
ServiceType    = 1
StartType      = 3
ErrorControl   = 1
ServiceBinary  = %12%\WinUSB.sys

[USB_Install.Wdf]
KmdfService = WINUSB, WinUsb_wdfcoinstaller

[WinUsb_wdfcoinstaller]
KmdfLibraryVersion = 1.9

[USB_Install.HW]
AddReg = Dev_AddReg

[Dev_AddReg]
HKR,,DeviceInterfaceGUIDs,0x10000,"{B9F765A9-E7D4-4B73-9ADC-F2F4E2C34E7B}"

[Strings]
ProviderName   = "switch-bt-ws"
ClassName      = "USB Devices"
DeviceName     = "Bluetooth Dongle (WinUSB)"
WinUSB_SvcDesc = "WinUSB"
"##;
/// Restore script text up to the hardware id.
pub const RESTORE_SCRIPT_0: &'static str = r##"
$ErrorActionPreference = 'Stop'
$hwid = '"##;
/// Restore script text between the hardware id and the INF name.
pub const RESTORE_SCRIPT_1: &'static str = r##"'
$infOriginal = '"##;
/// Restore script text between the INF name and the vendor id.
pub const RESTORE_SCRIPT_2: &'static str = r##"'
$vidPidPattern = 'VID_"##;
/// Restore script text between the vendor id and the product id.
pub const RESTORE_SCRIPT_3: &'static str = r##"&PID_"##;
/// Restore script text between the product id and the package directory:
/// removal of the OEM INF and restart of the device.
pub const RESTORE_SCRIPT_4: &'static str = r##"'

# --- 1. ドライバストアから該当 OEM INF を探す ---
# pnputil /enum-drivers は JSON 未対応なので WMI で代替
$oemInf = $null
$drivers = Get-WmiObject Win32_PnPSignedDriver |
    Where-Object { $_.InfName -match '^oem\d+\.inf$' -and $_.DeviceID -match $vidPidPattern }
if ($drivers) {
    $first = @($drivers)[0]
    $oemInf = $first.InfName
    Write-Host "Found OEM INF: $oemInf"
}

# WMI で見つからない場合は pnputil テキスト解析にフォールバック
if (-not $oemInf) {
    $output = pnputil /enum-drivers 2>&1 | Out-String
    $blocks = $output -split '(?=Published Name)' | Where-Object { $_.Trim() }
    foreach ($block in $blocks) {
        if ($block -match 'switch-bt-ws' -or $block -match $infOriginal) {
            if ($block -match 'Published Name\s*:\s*(oem\d+\.inf)') {
                $oemInf = $Matches[1]
                Write-Host "Found OEM INF (pnputil): $oemInf"
                break
            }
        }
    }
}

# --- 2. OEM INF を削除 ---
if ($oemInf) {
    $delResult = pnputil /delete-driver $oemInf /uninstall /force 2>&1 | Out-String
    Write-Host "pnputil delete: $delResult"
} else {
    Write-Host "OEM INF not found in driver store, skipping delete"
}

# --- 3. デバイスを無効→有効にして OS に標準ドライバを再割り当てさせる ---
$dev = Get-PnpDevice | Where-Object { $_.InstanceId -match $vidPidPattern }
if ($dev) {
    $instId = $dev.InstanceId
    Write-Host "Restarting device: $instId"
    Disable-PnpDevice -InstanceId $instId -Confirm:$false -ErrorAction SilentlyContinue
    Start-Sleep -Seconds 2
    Enable-PnpDevice -InstanceId $instId -Confirm:$false -ErrorAction SilentlyContinue
    Start-Sleep -Seconds 2
    # 結果確認
    $updated = Get-PnpDevice -InstanceId $instId -ErrorAction SilentlyContinue
    $svc = (Get-PnpDeviceProperty -InstanceId $instId -KeyName DEVPKEY_Device_Service -ErrorAction SilentlyContinue).Data
    Write-Host "Device service after restore: $svc"
} else {
    # デバイスが見つからない場合はハードウェアスキャンを実行
    pnputil /scan-devices 2>&1 | Out-String | Write-Host
}

# --- 4. パッケージディレクトリを削除 ---
$dir = '"##;
/// Restore script text after the package directory.
pub const RESTORE_SCRIPT_5: &'static str = r##"'
if (Test-Path $dir) {
    Remove-Item $dir -Recurse -Force -ErrorAction SilentlyContinue
}

Write-Output 'OK'
"##;

/// `s` quoted for a single-quoted PowerShell string: every `'` doubled.
pub open spec fn escape_single_quotes(s: Seq<char>) -> Seq<char>
    decreases s.len(),
{
    if s.len() == 0 {
        s
    } else if s.last() == '\'' {
        escape_single_quotes(s.drop_last()) + "''"@
    } else {
        escape_single_quotes(s.drop_last()).push(s.last())
    }
}

/// `s` with every `'` doubled.
pub fn escape_single_quotes_chars(s: &Vec<char>) -> (res: Vec<char>)
    ensures
        res@ == escape_single_quotes(s@),
{
    let mut res: Vec<char> = Vec::new();
    let mut i: usize = 0;
    while i < s.len()
        invariant
            i <= s@.len(),
            res@ == escape_single_quotes(s@.take(i as int)),
        decreases s@.len() - i,
    {
        assert(s@.take(i + 1).drop_last() =~= s@.take(i as int));
        if s[i] == '\'' {
            push_str(&mut res, "''");
        } else {
            res.push(s[i]);
        }
        i = i + 1;
    }
    assert(s@.take(s@.len() as int) =~= s@);
    res
}

/// The path of the INF file of the package for `vid:pid`.
pub open spec fn inf_path_spec(vid: u16, pid: u16) -> Seq<char> {
    driver_package_dir_spec(vid, pid) + "\\"@ + package_file_name(vid, pid, ".inf"@)
}

/// The path of the INF file of the package for `vid:pid`.
pub fn inf_path(vid: u16, pid: u16) -> (res: String)
    ensures
        res@ == inf_path_spec(vid, pid),
{
    let mut cs = str_chars(driver_package_dir(vid, pid).as_str());
    push_str(&mut cs, "\\");
    push_chars(&mut cs, &str_chars(inf_name(vid, pid).as_str()));
    string_from_chars(cs.as_slice())
}

/// The install script for `vid:pid`: it reuses or creates a self-signed code
/// signing certificate, trusts it, catalogues and signs the package and
/// applies it with `UpdateDriverForPlugAndPlayDevicesW`, printing `OK` (and
/// `REBOOT_REQUIRED` when needed).
pub open spec fn install_script_spec(vid: u16, pid: u16) -> Seq<char> {
    INSTALL_SCRIPT_0@
        + escape_single_quotes(driver_package_dir_spec(vid, pid))
        + INSTALL_SCRIPT_1@
        + package_file_name(vid, pid, ".inf"@)
        + INSTALL_SCRIPT_2@
        + package_file_name(vid, pid, ".cat"@)
        + INSTALL_SCRIPT_3@
        + hardware_id_spec(vid, pid)
        + INSTALL_SCRIPT_4@
}

/// The install script for `vid:pid`.
pub fn install_script(vid: u16, pid: u16) -> (res: String)
    ensures
        res@ == install_script_spec(vid, pid),
{
    let dir = escape_single_quotes_chars(&str_chars(driver_package_dir(vid, pid).as_str()));
    let inf = str_chars(inf_name(vid, pid).as_str());
    let cat = str_chars(cat_name(vid, pid).as_str());
    let hwid = str_chars(hardware_id(vid, pid).as_str());
    let mut cs: Vec<char> = Vec::new();
    push_str(&mut cs, INSTALL_SCRIPT_0);
    push_chars(&mut cs, &dir);
    push_str(&mut cs, INSTALL_SCRIPT_1);
    push_chars(&mut cs, &inf);
    push_str(&mut cs, INSTALL_SCRIPT_2);
    push_chars(&mut cs, &cat);
    push_str(&mut cs, INSTALL_SCRIPT_3);
    push_chars(&mut cs, &hwid);
    push_str(&mut cs, INSTALL_SCRIPT_4);
    string_from_chars(cs.as_slice())
}

/// The WinUSB INF file for `vid:pid` (compatible with Zadig/libwdi), tied to
/// the package's catalog file.
pub open spec fn winusb_inf_spec(vid: u16, pid: u16) -> Seq<char> {
    WINUSB_INF_0@
        + package_file_name(vid, pid, ".cat"@)
        + WINUSB_INF_1@
        + hex4(vid, true)
        + WINUSB_INF_2@
        + hex4(pid, true)
        + WINUSB_INF_3@
}

/// The WinUSB INF file for `vid:pid`.
pub fn winusb_inf(vid: u16, pid: u16) -> (res: String)
    ensures
        res@ == winusb_inf_spec(vid, pid),
{
    let cat = str_chars(cat_name(vid, pid).as_str());
    let vid_hex = hex4_chars(vid, true);
    let pid_hex = hex4_chars(pid, true);
    let mut cs: Vec<char> = Vec::new();
    push_str(&mut cs, WINUSB_INF_0);
    push_chars(&mut cs, &cat);
    push_str(&mut cs, WINUSB_INF_1);
    push_chars(&mut cs, &vid_hex);
    push_str(&mut cs, WINUSB_INF_2);
    push_chars(&mut cs, &pid_hex);
    push_str(&mut cs, WINUSB_INF_3);
    string_from_chars(cs.as_slice())
}

/// The restore script for `vid:pid`: it finds the package's OEM INF in the
/// driver store and deletes it, restarts the device so that Windows applies
/// its own driver, removes the package directory and prints `OK`.
pub open spec fn restore_script_spec(vid: u16, pid: u16) -> Seq<char> {
    RESTORE_SCRIPT_0@
        + hardware_id_spec(vid, pid)
        + RESTORE_SCRIPT_1@
        + package_file_name(vid, pid, ".inf"@)
        + RESTORE_SCRIPT_2@
        + hex4(vid, true)
        + RESTORE_SCRIPT_3@
        + hex4(pid, true)
        + RESTORE_SCRIPT_4@
        + escape_single_quotes(driver_package_dir_spec(vid, pid))
        + RESTORE_SCRIPT_5@
}

/// The restore script for `vid:pid`.
pub fn restore_script(vid: u16, pid: u16) -> (res: String)
    ensures
        res@ == restore_script_spec(vid, pid),
{
    let hwid = str_chars(hardware_id(vid, pid).as_str());
    let inf = str_chars(inf_name(vid, pid).as_str());
    let vid_hex = hex4_chars(vid, true);
    let pid_hex = hex4_chars(pid, true);
    let dir = escape_single_quotes_chars(&str_chars(driver_package_dir(vid, pid).as_str()));
    let mut cs: Vec<char> = Vec::new();
    push_str(&mut cs, RESTORE_SCRIPT_0);
    push_chars(&mut cs, &hwid);
    push_str(&mut cs, RESTORE_SCRIPT_1);
    push_chars(&mut cs, &inf);
    push_str(&mut cs, RESTORE_SCRIPT_2);
    push_chars(&mut cs, &vid_hex);
    push_str(&mut cs, RESTORE_SCRIPT_3);
    push_chars(&mut cs, &pid_hex);
    push_str(&mut cs, RESTORE_SCRIPT_4);
    push_chars(&mut cs, &dir);
    push_str(&mut cs, RESTORE_SCRIPT_5);
    string_from_chars(cs.as_slice())
}

} // verus!
