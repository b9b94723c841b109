use apk_inspect::digest::FileInfo;
use apk_inspect::parser::{ApkParser, ApkParserError};
use apk_inspect::permission::Permission;
use apk_inspect::security::{PermissionAnalysis, SdkFeatures, SecurityConfig};
use apk_inspect::summary::{
    dangerous_permissions, formatted_sdk_info, formatted_version_info, permission_stats,
    AppSettings,
};

#[test]
fn empty_input_digests() {
    assert_eq!(ApkParser::calculate_md5_hash(&[]), "d41d8cd98f00b204e9800998ecf8427e");
    assert_eq!(ApkParser::calculate_sha1_hash(&[]), "da39a3ee5e6b4b0d3255bfef95601890afd80709");
    assert_eq!(
        ApkParser::calculate_sha256_hash(&[]),
        "e3b0c44298fc1c149afbf4c8996fb92427ae41e4649b934ca495991b7852b855"
    );
    let fi: FileInfo = ApkParser::file_info(&[], 0);
    assert_eq!(fi.file_size, 0);
    assert_eq!(fi.md5, "d41d8cd98f00b204e9800998ecf8427e");
}

#[test]
fn digest_of_abc() {
    assert_eq!(ApkParser::calculate_md5_hash(b"abc"), "900150983cd24fb0d6963f7d28e17f72");
    assert_eq!(ApkParser::calculate_sha1_hash(b"abc"), "a9993e364706816aba3e25717850c26c9cd0d89d");
    let fi = ApkParser::file_info(b"abc", 3);
    assert_eq!(fi.file_size, 3);
    assert_eq!(fi.entry_count, 3);
    assert_eq!(fi.sha256, "ba7816bf8f01cfea414140de5dae2223b00361a396177a9cb410ff61f20015ad");
}

#[test]
fn decoder_placeholders_are_rejected() {
    let mut real = vec![0u8; 1200];
    real[0] = b'M';
    real[1] = b'Z';
    assert!(!ApkParser::is_placeholder_aapt2(&real));
    let mut small = vec![0u8; 999];
    small[0] = b'M';
    small[1] = b'Z';
    assert!(ApkParser::is_placeholder_aapt2(&small));
    let no_header = vec![0u8; 5000];
    assert!(ApkParser::is_placeholder_aapt2(&no_header));
    assert!(ApkParser::is_placeholder_aapt2(b"This is a placeholder"));
    let cands = vec![None, Some(small.clone()), Some(real.clone()), Some(real)];
    assert_eq!(ApkParser::select_decoder(&cands), Some(2));
    assert_eq!(ApkParser::select_decoder(&vec![None, Some(small)]), None);
}

#[test]
fn decoder_locations_in_order() {
    assert_eq!(
        ApkParser::decoder_locations(Some("/opt/app")),
        vec!["/opt/app/resources/aapt2.exe", "src-tauri/resources/aapt2.exe", "resources/aapt2.exe"]
    );
    assert_eq!(ApkParser::decoder_locations(None).len(), 2);
}

#[test]
fn permission_analysis_counts_and_risk() {
    let names: Vec<String> = vec![
        "android.permission.CAMERA",
        "android.permission.INTERNET",
        "com.example.OWN",
        "android.permission.READ_SMS",
        "android.permission.SEND_SMS",
    ]
    .into_iter()
    .map(String::from)
    .collect();
    let a: PermissionAnalysis = ApkParser::analyze_permissions(&names);
    assert_eq!(a.total_permissions, 5);
    assert_eq!(a.dangerous_permissions, 3);
    assert_eq!(a.normal_permissions, 1);
    assert_eq!(a.signature_permissions, 0);
    assert_eq!(a.other_permissions, 1);
    assert_eq!(a.risk_level, "MEDIUM");
    assert_eq!(a.high_risk_permissions, vec!["android.permission.CAMERA", "android.permission.READ_SMS", "android.permission.SEND_SMS"]);
    let empty = ApkParser::analyze_permissions(&Vec::new());
    assert_eq!(empty.risk_level, "LOW");
    let many: Vec<String> = vec![
        "android.permission.CAMERA",
        "android.permission.READ_SMS",
        "android.permission.SEND_SMS",
        "android.permission.RECEIVE_SMS",
        "android.permission.RECORD_AUDIO",
        "android.permission.CALL_PHONE",
    ]
    .into_iter()
    .map(String::from)
    .collect();
    assert_eq!(ApkParser::analyze_permissions(&many).risk_level, "HIGH");
}

#[test]
fn defaults_of_records() {
    let p = PermissionAnalysis::default();
    assert_eq!(p.risk_level, "LOW");
    assert_eq!(p.total_permissions, 0);
    let c = SecurityConfig::default();
    assert!(c.backup_allowed && c.allow_backup && !c.debuggable);
    let f = SdkFeatures::default();
    assert!(f.third_party_sdks.is_empty() && !f.is_obfuscated);
    let s = AppSettings::default();
    assert_eq!(s.log_level, "info");
    assert_eq!(s.max_log_days, 7);
    assert!(!s.auto_start);
    assert!(s.auto_update);
}

#[test]
fn permission_stats_and_formatting() {
    let ps = vec![
        Permission { name: "android.permission.CAMERA".to_string(), is_dangerous: true },
        Permission { name: "android.permission.INTERNET".to_string(), is_dangerous: false },
        Permission { name: "android.permission.READ_SMS".to_string(), is_dangerous: true },
    ];
    let st = permission_stats(&ps);
    assert_eq!(st.total, 3);
    assert_eq!(st.dangerous, 2);
    let d = dangerous_permissions(&ps);
    assert_eq!(d.len(), 2);
    assert_eq!(d[1].name, "android.permission.READ_SMS");
    assert_eq!(formatted_version_info("2.3", "7"), "2.3 (7)");
    assert_eq!(formatted_sdk_info("21", "34"), "Min SDK: 21, Target SDK: 34");
}

#[test]
fn error_messages() {
    assert_eq!(ApkParserError::InvalidApk("x".to_string()).message(), "invalid APK: x");
    assert_eq!(ApkParserError::Io("y".to_string()).message(), "I/O error: y");
    assert_eq!(ApkParserError::Zip("z".to_string()).message(), "ZIP error: z");
}

#[test]
fn record_descriptions() {
    let c = SecurityConfig::default();
    assert_eq!(
        c.describe(),
        "Uses Clear Text Traffic: false\nDebuggable: false\nBackup Allowed: true\nAllow Backup: true\nUses Permission Flags: false"
    );
    let names: Vec<String> = vec!["android.permission.CAMERA".to_string(), "x.Y".to_string()];
    let a = ApkParser::analyze_permissions(&names);
    assert_eq!(
        a.describe(),
        "Total Permissions: 2\nDangerous Permissions: 1\nNormal Permissions: 0\nSignature Permissions: 0\nOther Permissions: 1\nRisk Level: LOW"
    );
    let f = SdkFeatures::default();
    assert_eq!(
        f.describe(),
        "Uses Encryption: false\nUses Root Detection: false\nUses Certificate Pinning: false\nIs Obfuscated: false"
    );
}

#[test]
fn decimal_digits_of_numbers() {
    assert_eq!(apk_inspect::text::decimal_digits(0), vec!['0']);
    assert_eq!(apk_inspect::text::decimal_digits(4096).into_iter().collect::<String>(), "4096");
}

#[test]
fn digest_text_lengths() {
    let data = b"some package bytes";
    assert_eq!(ApkParser::calculate_md5_hash(data).len(), 32);
    assert_eq!(ApkParser::calculate_sha1_hash(data).len(), 40);
    assert_eq!(ApkParser::calculate_sha256_hash(data).len(), 64);
}

#[test]
fn extended_permission_entries() {
    let m = "<manifest><uses-permission android:name=\"android.permission.READ_SMS\"/><uses-permission android:name=\"android.permission.INTERNET\"/><permission android:name=\"x.Own\"/></manifest>";
    let ds = ApkParser::extract_permissions(m);
    assert_eq!(ds.len(), 2);
    assert_eq!(ds[0].name, "android.permission.READ_SMS");
    assert_eq!(ds[0].protection_level, "dangerous");
    assert_eq!(ds[0].description, "Permission: android.permission.READ_SMS");
    assert_eq!(ds[0].group, "android");
    assert!(ds[0].is_dangerous);
    assert_eq!(ds[1].protection_level, "normal");
    assert!(!ds[1].is_dangerous);
}
