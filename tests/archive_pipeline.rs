use std::io::{Cursor, Write};

use apk_inspect::archive::ApkArchive;
use apk_inspect::manifest::ManifestSource;
use apk_inspect::parser::{ApkParser, ApkParserError};
use zip::write::SimpleFileOptions;
use zip::ZipWriter;

fn build_zip(entries: &[(&str, &[u8])]) -> Vec<u8> {
    let mut w = ZipWriter::new(Cursor::new(Vec::new()));
    for (name, data) in entries {
        w.start_file(*name, SimpleFileOptions::default()).unwrap();
        w.write_all(data).unwrap();
    }
    w.finish().unwrap().into_inner()
}

fn open(entries: &[(&str, &[u8])]) -> ApkArchive {
    let bytes = build_zip(entries);
    match ApkArchive::open(&bytes) {
        Ok(a) => a,
        Err(e) => panic!("{}", e),
    }
}

const MANIFEST: &[u8] = b"<?xml version=\"1.0\" encoding=\"utf-8\"?><manifest xmlns:android=\"http://schemas.android.com/apk/res/android\" package=\"com.example.app\" android:versionName=\"2.3\" android:versionCode=\"7\"><uses-permission android:name=\"android.permission.CAMERA\"/><application android:icon=\"@mipmap/app_icon\"></application></manifest>";

const CERT_DER: [u8; 321] = [48,130,1,61,48,129,228,160,3,2,1,2,2,2,4,210,48,10,6,8,42,134,72,206,61,4,3,2,48,40,49,20,48,18,6,3,85,4,3,12,11,84,101,115,116,32,83,105,103,110,101,114,49,16,48,14,6,3,85,4,10,12,7,69,120,97,109,112,108,101,48,30,23,13,50,48,48,49,48,50,48,51,48,52,48,53,90,23,13,51,48,48,49,48,50,48,51,48,52,48,53,90,48,40,49,20,48,18,6,3,85,4,3,12,11,84,101,115,116,32,83,105,103,110,101,114,49,16,48,14,6,3,85,4,10,12,7,69,120,97,109,112,108,101,48,89,48,19,6,7,42,134,72,206,61,2,1,6,8,42,134,72,206,61,3,1,7,3,66,0,4,212,11,225,244,185,189,29,56,133,163,48,183,91,84,70,255,211,184,205,30,251,176,42,25,75,94,182,194,14,213,201,137,65,99,110,50,69,46,161,16,154,177,1,79,65,52,189,201,121,168,88,213,182,89,171,201,46,8,54,193,169,99,40,226,48,10,6,8,42,134,72,206,61,4,3,2,3,72,0,48,69,2,33,0,210,4,79,63,58,247,49,46,62,90,128,31,105,242,234,85,128,78,223,10,126,49,58,13,86,67,168,180,85,154,55,191,2,32,85,245,164,78,11,105,137,156,224,80,39,50,94,27,125,81,120,205,56,83,239,112,136,118,254,236,213,184,97,188,195,114];

const TBS_SHA1: &str = "EF:A4:11:CE:A5:BF:5D:3B:EE:01:C3:D3:ED:61:D8:41:8C:1F:A5:D9";
const TBS_SHA256: &str = "0F:37:CC:7A:D8:BC:22:7F:59:17:0C:E8:7D:26:7E:7F:4E:D9:84:72:60:74:07:B0:B9:03:BB:86:FF:A2:A4:A6";
const DER_SHA1: &str = "1B:FD:1F:CF:E5:9E:AB:F9:7C:80:A7:D7:54:E0:2B:F8:38:62:DA:E4";

#[test]
fn missing_manifest_is_an_invalid_package() {
    let bytes = build_zip(&[("classes.dex", b"dex")]);
    let r = ApkParser::parse(&bytes, None, None);
    assert!(matches!(r, Err(ApkParserError::InvalidApk(_))));
    let mut a = open(&[("classes.dex", b"dex")]);
    let r2 = ApkParser::analyze_archive(&mut a, &bytes, Some("dump".to_string()), 0);
    assert!(matches!(r2, Err(ApkParserError::InvalidApk(_))));
}

#[test]
fn bytes_that_are_not_a_zip_are_rejected() {
    let r = ApkParser::parse(b"definitely not a zip", None, None);
    assert!(matches!(r, Err(ApkParserError::Zip(_))));
}

#[test]
fn badging_path_always_returns_a_record() {
    let out = "package: name='com.example.tool' versionCode='3' versionName='1.1'\n";
    let info = match ApkParser::parse(b"not a zip", Some(out.to_string()), None) {
        Ok(i) => i,
        Err(e) => panic!("{}", e.message()),
    };
    assert_eq!(info.package_name, "com.example.tool");
    assert_eq!(info.version_code, "3");
    assert!(info.signature_info.is_none());
    assert!(info.icon_base64.is_none());
    let fi = info.file_info.unwrap();
    assert_eq!(fi.entry_count, 0);
    assert_eq!(fi.file_size, 9);
}

#[test]
fn badging_path_takes_signature_and_icon_from_the_archive() {
    let bytes = build_zip(&[
        ("AndroidManifest.xml", MANIFEST),
        ("res/mipmap-hdpi/ic_launcher.png", b"\x89PNG hdpi icon"),
    ]);
    let mut a = open(&[
        ("AndroidManifest.xml", MANIFEST),
        ("res/mipmap-hdpi/ic_launcher.png", b"\x89PNG hdpi icon"),
    ]);
    let _ = a.len();
    let info = ApkParser::analyze_badging("package: name='x.y'", Some(a), &bytes, None, 0);
    assert_eq!(info.package_name, "x.y");
    let sig = info.signature_info.unwrap();
    assert_eq!(sig.fingerprint_sha1, Some("missing signature file".to_string()));
    assert_eq!(info.icon_base64, Some("iVBORyBoZHBpIGljb24=".to_string()));
}

#[test]
fn internal_pipeline_assembles_record() {
    let bytes = build_zip(&[
        ("AndroidManifest.xml", MANIFEST),
        ("META-INF/CERT.RSA", &CERT_DER),
        ("res/mipmap-xxhdpi/app_icon.png", b"guided icon"),
        ("res/mipmap-xxxhdpi/ic_launcher.png", b"launcher"),
    ]);
    let info = match ApkParser::parse(&bytes, None, None) {
        Ok(i) => i,
        Err(e) => panic!("{}", e.message()),
    };
    assert_eq!(info.package_name, "com.example.app");
    assert_eq!(info.version_name, "2.3");
    assert_eq!(info.version_code, "7");
    assert_eq!(info.min_sdk, "1");
    assert_eq!(info.target_sdk, "1");
    let perms = info.permissions.unwrap();
    assert_eq!(perms.len(), 1);
    assert!(perms[0].is_dangerous);
    assert_eq!(info.icon_base64, Some("Z3VpZGVkIGljb24=".to_string()));
    let sig = info.signature_info.unwrap();
    assert_eq!(sig.fingerprint_sha1, Some(TBS_SHA1.to_string()));
    let fi = info.file_info.unwrap();
    assert_eq!(fi.entry_count, 4);
    assert_eq!(fi.file_size, bytes.len() as u64);
    assert_eq!(fi.file_type, "application/vnd.android.package-archive");
    assert_eq!(fi.md5.len(), 32);
}

#[test]
fn textual_manifest_is_taken_as_is() {
    let mut a = open(&[("AndroidManifest.xml", MANIFEST)]);
    let m = ApkParser::resolve_manifest(&mut a, None).ok().unwrap();
    assert!(m.source == ManifestSource::PlainText);
    assert_eq!(m.text.as_bytes(), MANIFEST);
}

#[test]
fn decoder_dump_comes_first() {
    let mut a = open(&[("AndroidManifest.xml", MANIFEST)]);
    let m = ApkParser::resolve_manifest(&mut a, Some("E: manifest".to_string())).ok().unwrap();
    assert!(m.source == ManifestSource::Decoder);
    assert_eq!(m.text, "E: manifest");
}

#[test]
fn undecodable_manifest_becomes_minimal_document() {
    let mut a = open(&[("AndroidManifest.xml", &[0u8, 1, 2, 3, 255, 254])]);
    let m = ApkParser::resolve_manifest(&mut a, None).ok().unwrap();
    assert!(m.source == ManifestSource::Placeholder);
    assert_eq!(
        m.text,
        "<?xml version=\"1.0\" encoding=\"utf-8\"?>\n<manifest xmlns:android=\"http://schemas.android.com/apk/res/android\">\n</manifest>"
    );
    let r = ApkParser::parse_package_info(&m.text);
    assert_eq!(r.package_name, "unknown");
}

#[test]
fn certificate_entry_yields_certificate_fields() {
    let mut a = open(&[("META-INF/CERT.RSA", &CERT_DER)]);
    let s = ApkParser::parse_signature_info(&mut a);
    assert_eq!(s.issuer, "CN=Test Signer, O=Example");
    assert_eq!(s.subject, "CN=Test Signer, O=Example");
    assert_eq!(s.valid_from, "Thu, 02 Jan 2020 03:04:05 +0000");
    assert_eq!(s.valid_to, "Wed, 02 Jan 2030 03:04:05 +0000");
    assert_eq!(s.fingerprint_sha1, Some(TBS_SHA1.to_string()));
    assert_eq!(s.fingerprint_sha256, Some(TBS_SHA256.to_string()));
    assert_ne!(s.fingerprint_sha1, Some(DER_SHA1.to_string()));
    let again = ApkParser::parse_signature_info(&mut a);
    assert_eq!(again.fingerprint_sha1, s.fingerprint_sha1);
    assert_eq!(again.fingerprint_sha256, s.fingerprint_sha256);
}

#[test]
fn signature_manifest_gives_created_by_issuer() {
    let sf: &[u8] = b"Signature-Version: 1.0\r\nCreated-By: 1.0 (Android)  \r\nSHA-256-Digest-Manifest: abc\r\n";
    let mut a = open(&[("META-INF/CERT.SF", sf)]);
    let s = ApkParser::signature_info_at(&mut a, 0);
    assert_eq!(s.issuer, "Created-By: 1.0 (Android)");
    assert_eq!(s.subject, "signature details from META-INF/CERT.SF");
    assert_eq!(s.valid_from, "unknown");
    assert_eq!(s.valid_to, "unknown");
    assert_eq!(s.fingerprint_sha1, Some("SHA1:a7d3538ceafe38fd9e35301f44c93371bf5324f1".to_string()));
    assert_eq!(
        s.fingerprint_sha256,
        Some("SHA256:784d3e46ede950545b501fb3f9efe0ce42d40adce9d76599d7bfc0ff214110b4".to_string())
    );
}

#[test]
fn signature_manifest_without_creator_line() {
    let mut a = open(&[("META-INF/MANIFEST.MF", b"Manifest-Version: 1.0\n")]);
    let s = ApkParser::signature_info_at(&mut a, 0);
    assert_eq!(s.issuer, "Created-By: Unknown");
    assert_eq!(s.subject, "signature details from META-INF/MANIFEST.MF");
}

#[test]
fn unparsable_block_is_synthesised_and_wins_over_later_entries() {
    let mut a = open(&[("META-INF/CERT.RSA", b"not a certificate"), ("META-INF/CERT.DSA", &CERT_DER)]);
    let s = ApkParser::signature_info_at(&mut a, 0);
    assert_eq!(s.issuer, "signature details from META-INF/CERT.RSA");
    assert_eq!(s.subject, "Android application signature");
    assert_eq!(s.valid_from, "Thu, 1 Jan 1970 00:00:00 +0000");
    assert_eq!(s.valid_to, "Wed, 1 Jan 1975 00:00:00 +0000");
    assert_eq!(s.fingerprint_sha1, Some("SHA1:34491fe877745149646ce28c6b98961e9124390b".to_string()));
    assert_eq!(
        s.fingerprint_sha256,
        Some("SHA256:47209c9b7af839de69e9a9cd625e9182c1ad63dae79ed88a2dd680fe34218620".to_string())
    );
}

#[test]
fn no_signature_entry_gives_placeholder() {
    let mut a = open(&[("classes.dex", b"dex")]);
    let s = ApkParser::signature_info_at(&mut a, 0);
    assert_eq!(s.issuer, "unknown");
    assert_eq!(s.subject, "unknown");
    assert_eq!(s.valid_from, "Thu, 1 Jan 1970 00:00:00 +0000");
    assert_eq!(s.valid_to, "Fri, 2 Jan 1970 00:00:00 +0000");
    assert_eq!(s.fingerprint_sha1, Some("missing signature file".to_string()));
    assert_eq!(s.fingerprint_sha256, Some("missing signature file".to_string()));
}

#[test]
fn out_of_range_time_shows_unknown() {
    let mut a = open(&[("classes.dex", b"dex")]);
    let s = ApkParser::signature_info_at(&mut a, -100_000);
    assert_eq!(s.valid_from, "unknown");
    assert_eq!(s.valid_to, "unknown");
}

#[test]
fn hdpi_only_icon_is_found() {
    let mut a = open(&[("res/mipmap-hdpi/ic_launcher.png", b"\x89PNG hdpi icon")]);
    assert_eq!(ApkParser::extract_icon(&mut a, None), Some("iVBORyBoZHBpIGljb24=".to_string()));
}

#[test]
fn manifest_guided_icon_comes_first() {
    let mut a = open(&[
        ("res/mipmap-xxxhdpi/ic_launcher.png", b"launcher"),
        ("res/mipmap-xxhdpi/app_icon.png", b"guided icon"),
    ]);
    let m = std::str::from_utf8(MANIFEST).unwrap();
    assert_eq!(ApkParser::extract_icon(&mut a, Some(m)), Some("Z3VpZGVkIGljb24=".to_string()));
    let drawable = "<manifest><application android:icon=\"@drawable/app_icon\"></application></manifest>";
    let mut b = open(&[("res/drawable/app_icon.png", b"guided icon")]);
    assert_eq!(ApkParser::extract_icon(&mut b, Some(drawable)), Some("Z3VpZGVkIGljb24=".to_string()));
}

#[test]
fn icon_scan_falls_back_to_archive_order() {
    let mut a = open(&[
        ("res/raw/readme.txt", b"text"),
        ("res/drawable-v24/logo_main.webp", b"logo bytes"),
        ("res/drawable-v24/icon_two.png", b"second"),
    ]);
    assert_eq!(ApkParser::extract_icon(&mut a, None), Some("bG9nbyBieXRlcw==".to_string()));
}

#[test]
fn no_icon_gives_none() {
    let mut a = open(&[("res/raw/data.bin", b"x"), ("res/drawable/background.png", b"bg")]);
    assert_eq!(ApkParser::extract_icon(&mut a, None), None);
}

#[test]
fn archive_reports_entries() {
    let mut a = open(&[("a.txt", b"one"), ("b/c.txt", b"two")]);
    assert_eq!(a.len(), 2);
    assert_eq!(a.name_at(1), Some("b/c.txt".to_string()));
    assert_eq!(a.read_at(0), Some(b"one".to_vec()));
}

#[test]
fn created_by_line_loses_unicode_trailing_space() {
    let sf = "Created-By: 2.0 (Tool)\u{A0}\u{2003}\nName: x\n".as_bytes();
    let mut a = open(&[("META-INF/CERT.SF", sf)]);
    let s = ApkParser::signature_info_at(&mut a, 0);
    assert_eq!(s.issuer, "Created-By: 2.0 (Tool)");
}

#[test]
fn archive_open_rejects_non_zip() {
    assert!(ApkArchive::open(b"PK but not really").is_err());
    assert!(ApkArchive::open(&build_zip(&[("a", b"b")])).is_ok());
}
