use apk_inspect::badging::{
    extract_from_aapt_output, extract_main_activity_from_output, is_dangerous_permission,
    parse_badging,
};
use apk_inspect::parser::ApkParser;
use apk_inspect::permission::is_dangerous;
use apk_inspect::text::ValueShape;

const SAMPLE: &str = "<?xml version=\"1.0\" encoding=\"utf-8\"?>\n<manifest xmlns:android=\"http://schemas.android.com/apk/res/android\" package=\"com.example.app\" android:versionName=\"2.3\" android:versionCode=\"7\">\n<uses-sdk android:minSdkVersion=\"21\"/>\n</manifest>";

#[test]
fn package_record_reads_identity_fields() {
    let r = ApkParser::parse_package_info(SAMPLE);
    assert_eq!(r.package_name, "com.example.app");
    assert_eq!(r.version_name, "2.3");
    assert_eq!(r.version_code, "7");
    assert_eq!(r.min_sdk, "21");
    assert_eq!(r.target_sdk, "21");
    assert_eq!(r.main_activity, None);
}

#[test]
fn package_record_defaults_when_attributes_missing() {
    let r = ApkParser::parse_package_info("<manifest></manifest>");
    assert_eq!(r.package_name, "unknown");
    assert_eq!(r.version_name, "1.0");
    assert_eq!(r.version_code, "1");
    assert_eq!(r.min_sdk, "1");
    assert_eq!(r.target_sdk, "1");
    assert_eq!(r.main_activity, None);
}

#[test]
fn explicit_target_sdk_is_kept() {
    let r = ApkParser::parse_package_info(
        "<manifest package=\"a.b\"><uses-sdk android:minSdkVersion=\"19\" android:targetSdkVersion=\"33\"/></manifest>",
    );
    assert_eq!(r.min_sdk, "19");
    assert_eq!(r.target_sdk, "33");
}

#[test]
fn empty_attribute_value_is_skipped() {
    let r = ApkParser::parse_package_info("<manifest package=\"\" x=\"1\" package=\"real.pkg\">");
    assert_eq!(r.package_name, "real.pkg");
}

#[test]
fn launcher_activity_without_dot_is_qualified() {
    let m = "<manifest package=\"com.example.app\"><application><activity android:name=\"Main\" android:exported=\"true\"><intent-filter><action android:name=\"android.intent.action.MAIN\"/><category android:name=\"android.intent.category.LAUNCHER\"/></intent-filter></activity></application></manifest>";
    let r = ApkParser::parse_package_info(m);
    assert_eq!(r.main_activity, Some("com.example.app.Main".to_string()));
}

#[test]
fn launcher_activity_with_dot_is_kept() {
    let m = "<manifest package=\"com.example.app\"><activity android:name=\".ui.Home\"><intent-filter><action android:name=\"android.intent.action.MAIN\" /><category android:name=\"android.intent.category.LAUNCHER\" /></intent-filter></activity></manifest>";
    let r = ApkParser::parse_package_info(m);
    assert_eq!(r.main_activity, Some(".ui.Home".to_string()));
}

#[test]
fn launcher_markers_spread_over_lines_are_not_matched() {
    let m = "<manifest package=\"p.q\">\n<activity android:name=\"Main\">\n<intent-filter>\n<action android:name=\"android.intent.action.MAIN\"/>\n<category android:name=\"android.intent.category.LAUNCHER\"/>\n</intent-filter>\n</activity>\n</manifest>";
    let r = ApkParser::parse_package_info(m);
    assert_eq!(r.main_activity, None);
}

#[test]
fn activity_without_launcher_filter_is_not_main() {
    let m = "<manifest package=\"p.q\"><activity android:name=\"Other\"><intent-filter><action android:name=\"android.intent.action.VIEW\"/></intent-filter></activity></manifest>";
    assert_eq!(ApkParser::parse_package_info(m).main_activity, None);
}

#[test]
fn permission_fallback_uses_declared_permissions() {
    let m = "<manifest package=\"com.example\"><permission android:name=\"com.example.CUSTOM\"/></manifest>";
    let ps = ApkParser::parse_permissions(m);
    assert_eq!(ps.len(), 1);
    assert_eq!(ps[0].name, "com.example.CUSTOM");
    assert!(!ps[0].is_dangerous);
}

#[test]
fn uses_permissions_keep_order_and_duplicates() {
    let m = "<manifest><uses-permission android:name=\"android.permission.INTERNET\"/><uses-permission android:name=\"android.permission.CAMERA\" /><uses-permission android:name=\"android.permission.INTERNET\"/><permission android:name=\"com.example.OWN\"/></manifest>";
    let ps = ApkParser::parse_permissions(m);
    let names: Vec<&str> = ps.iter().map(|p| p.name.as_str()).collect();
    assert_eq!(
        names,
        vec!["android.permission.INTERNET", "android.permission.CAMERA", "android.permission.INTERNET"]
    );
    assert_eq!(ps.iter().map(|p| p.is_dangerous).collect::<Vec<_>>(), vec![false, true, false]);
}

#[test]
fn no_permissions_gives_empty_list() {
    assert!(ApkParser::parse_permissions("<manifest></manifest>").is_empty());
}

#[test]
fn camera_is_dangerous_internet_is_not() {
    assert!(is_dangerous("android.permission.CAMERA"));
    assert!(!is_dangerous("android.permission.INTERNET"));
    assert!(is_dangerous("android.permission.READ_MEDIA_VISUAL_USER_SELECTED"));
    assert!(!is_dangerous("com.example.SEND_SMS_CUSTOM"));
}

#[test]
fn badging_classifier_is_looser() {
    assert!(is_dangerous_permission("com.example.SEND_SMS_CUSTOM"));
    assert!(is_dangerous_permission("android.permission.READ_EXTERNAL_STORAGE"));
    assert!(is_dangerous_permission("android.permission.CAMERA"));
    assert!(!is_dangerous_permission("android.permission.INTERNET"));
    assert!(!is_dangerous("android.permission.MODIFY_PHONE_STATE"));
    assert!(is_dangerous_permission("android.permission.MODIFY_PHONE_STATE"));
}

const BADGING: &str = "package: name='com.example.tool' versionCode='42' versionName='4.2.0' platformBuildVersionName='14'\nsdkVersion:'24'\ntargetSdkVersion:'34'\nuses-permission: name='android.permission.INTERNET'\nuses-permission: name='android.permission.SEND_SMS'\napplication-label:'Tool'\nlaunchable-activity: name='com.example.tool.Start'  label='Tool'\n";

#[test]
fn badging_output_is_read() {
    let b = parse_badging(BADGING);
    assert_eq!(b.package_name, "com.example.tool");
    assert_eq!(b.version_code, "42");
    assert_eq!(b.version_name, "4.2.0");
    assert_eq!(b.min_sdk, "24");
    assert_eq!(b.target_sdk, "34");
    assert_eq!(b.permissions.len(), 2);
    assert_eq!(b.permissions[0].name, "android.permission.INTERNET");
    assert!(!b.permissions[0].is_dangerous);
    assert_eq!(b.permissions[1].name, "android.permission.SEND_SMS");
    assert!(b.permissions[1].is_dangerous);
    assert_eq!(b.main_activity, Some("com.example.tool.Start".to_string()));
    assert!(b.signature_info.is_none());
}

#[test]
fn badging_defaults_when_empty() {
    let b = parse_badging("");
    assert_eq!(b.package_name, "unknown");
    assert_eq!(b.version_name, "unknown");
    assert_eq!(b.version_code, "0");
    assert_eq!(b.min_sdk, "unknown");
    assert_eq!(b.target_sdk, "unknown");
    assert!(b.permissions.is_empty());
    assert_eq!(b.main_activity, None);
}

#[test]
fn badging_launcher_activity_preferred_over_first() {
    let out = "activity: name='a.First'\nactivity: name='a.Second'\naction: name='android.intent.action.MAIN'\ncategory: name='android.intent.category.LAUNCHER'\n";
    assert_eq!(extract_main_activity_from_output(out), Some("a.First".to_string()));
    let out2 = "activity: name='a.First'\naction: name='android.intent.action.VIEW'\n";
    assert_eq!(extract_main_activity_from_output(out2), Some("a.First".to_string()));
    assert_eq!(extract_main_activity_from_output("nothing"), None);
}

#[test]
fn badging_digits_must_be_closed() {
    assert_eq!(extract_from_aapt_output("versionCode='12a'", "versionCode='", ValueShape::DigitsThen('\'')), None);
    assert_eq!(
        extract_from_aapt_output("versionCode='123'", "versionCode='", ValueShape::DigitsThen('\'')),
        Some("123".to_string())
    );
}

#[test]
fn badging_signature_lines() {
    let b = parse_badging("Issuer: CN=Dev\nSubject: CN=App\n");
    let s = b.signature_info.unwrap();
    assert_eq!(s.issuer, "CN=Dev");
    assert_eq!(s.subject, "CN=App");
    assert_eq!(s.valid_from, "unknown");
    assert!(s.fingerprint_sha1.is_none());
    let only_subject = parse_badging("Subject: CN=App\n").signature_info.unwrap();
    assert_eq!(only_subject.issuer, "unknown");
}

#[test]
fn security_flags_follow_substrings() {
    let m = "<application android:usesCleartextTraffic=\"true\" android:allowBackup=\"false\" android:networkSecurityConfig=\"@xml/net\">";
    let c = ApkParser::analyze_security_config(m);
    assert!(c.uses_clear_text_traffic);
    assert!(!c.debuggable);
    assert!(!c.backup_allowed);
    assert!(!c.allow_backup);
    assert!(!c.uses_permission_flags);
    assert_eq!(c.has_network_security_config, Some(true));
    assert_eq!(c.prevents_screenshots, Some(false));
    assert_eq!(c.uses_encryption, Some(false));
    let d = ApkParser::analyze_security_config("<application android:debuggable=\"true\" android:allowBackup=\"true\">");
    assert!(d.debuggable);
    assert!(d.backup_allowed);
    assert!(d.allow_backup);
}

#[test]
fn attribute_of_first_matching_tag() {
    let m = "<manifest><application\n  android:label=\"App\" android:icon=\"@mipmap/ic_launcher\"><activity android:icon=\"@drawable/x\"/></application></manifest>";
    assert_eq!(
        ApkParser::extract_from_manifest(m, "application", "android:icon"),
        Some("@mipmap/ic_launcher".to_string())
    );
    assert_eq!(ApkParser::extract_from_manifest(m, "application", "android:theme"), None);
    assert_eq!(ApkParser::extract_from_manifest("<applicationX android:icon=\"a\">", "application", "android:icon"), None);
}

#[test]
fn badging_digits_of_any_script() {
    assert_eq!(
        extract_from_aapt_output("sdkVersion:'\u{661}\u{662}'", "sdkVersion:'", ValueShape::DigitsThen('\'')),
        Some("\u{661}\u{662}".to_string())
    );
}

#[test]
fn attribute_spacing_is_flexible() {
    let m = "<application\u{A0}android:label=\"A\" android:icon = \"@drawable/logo\">";
    assert_eq!(
        ApkParser::extract_from_manifest(m, "application", "android:icon"),
        Some("@drawable/logo".to_string())
    );
    let tabbed = "<application\tandroid:icon=\n\"@mipmap/x\">";
    assert_eq!(
        ApkParser::extract_from_manifest(tabbed, "application", "android:icon"),
        Some("@mipmap/x".to_string())
    );
    assert_eq!(ApkParser::extract_from_manifest("<application android:icon=\"\">", "application", "android:icon"), None);
}
