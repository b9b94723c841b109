//! Security posture flags and permission statistics.
use vstd::prelude::*;
use std::collections::HashMap;
use crate::package_info::concat_text;
use crate::permission::{collect_tag_values, listed, tag_values};
use crate::text::{
    append_bool, append_decimal, append_text, bool_text, chars_of, contains, contains_text, decimal,
    has_prefix, starts_with, text_from,
};

verus! {

/// Independent flags, each a substring test on the manifest text.
pub struct SecurityConfig {
    pub uses_clear_text_traffic: bool,
    pub debuggable: bool,
    pub backup_allowed: bool,
    pub allow_backup: bool,
    pub uses_permission_flags: bool,
    pub has_network_security_config: Option<bool>,
    pub prevents_screenshots: Option<bool>,
    pub uses_encryption: Option<bool>,
}

impl Default for SecurityConfig {
    fn default() -> (r: SecurityConfig)
        ensures
            !r.uses_clear_text_traffic && !r.debuggable && r.backup_allowed && r.allow_backup
                && !r.uses_permission_flags && r.has_network_security_config is None
                && r.prevents_screenshots is None && r.uses_encryption is None,
    {
        SecurityConfig {
            uses_clear_text_traffic: false,
            debuggable: false,
            backup_allowed: true,
            allow_backup: true,
            uses_permission_flags: false,
            has_network_security_config: None,
            prevents_screenshots: None,
            uses_encryption: None,
        }
    }
}

/// Counts of a permission list by kind, with a coarse risk level.
pub struct PermissionAnalysis {
    pub total_permissions: u32,
    pub dangerous_permissions: u32,
    pub normal_permissions: u32,
    pub signature_permissions: u32,
    pub other_permissions: u32,
    pub high_risk_permissions: Vec<String>,
    pub risk_level: String,
    pub permission_groups: Option<HashMap<String, Vec<String>>>,
    pub system_permissions: Option<Vec<String>>,
}

impl Default for PermissionAnalysis {
    fn default() -> (r: PermissionAnalysis)
        ensures
            r.total_permissions == 0 && r.dangerous_permissions == 0 && r.normal_permissions == 0
                && r.signature_permissions == 0 && r.other_permissions == 0
                && r.high_risk_permissions@.len() == 0 && r.risk_level@ == "LOW"@
                && r.permission_groups is None && r.system_permissions is None,
    {
        PermissionAnalysis {
            total_permissions: 0,
            dangerous_permissions: 0,
            normal_permissions: 0,
            signature_permissions: 0,
            other_permissions: 0,
            high_risk_permissions: Vec::new(),
            risk_level: "LOW".to_string(),
            permission_groups: None,
            system_permissions: None,
        }
    }
}

/// Code-level features; nothing in this library inspects bytecode, so every
/// field keeps its default.
pub struct SdkFeatures {
    pub third_party_sdks: HashMap<String, bool>,
    pub uses_encryption: bool,
    pub uses_root_detection: bool,
    pub uses_certificate_pinning: bool,
    pub is_obfuscated: bool,
    pub detected_sdks: Option<Vec<String>>,
    pub security_features: Option<Vec<String>>,
    pub potentially_obfuscated: Option<bool>,
}

impl Default for SdkFeatures {
    fn default() -> (r: SdkFeatures)
        ensures
            r.third_party_sdks@.len() == 0 && !r.uses_encryption && !r.uses_root_detection
                && !r.uses_certificate_pinning && !r.is_obfuscated && r.detected_sdks is None
                && r.security_features is None && r.potentially_obfuscated is None,
    {
        SdkFeatures {
            third_party_sdks: HashMap::new(),
            uses_encryption: false,
            uses_root_detection: false,
            uses_certificate_pinning: false,
            is_obfuscated: false,
            detected_sdks: None,
            security_features: None,
            potentially_obfuscated: None,
        }
    }
}

pub open spec fn security_text(c: SecurityConfig) -> Seq<char> {
    "Uses Clear Text Traffic: "@ + bool_text(c.uses_clear_text_traffic) + "\nDebuggable: "@
        + bool_text(c.debuggable) + "\nBackup Allowed: "@ + bool_text(c.backup_allowed)
        + "\nAllow Backup: "@ + bool_text(c.allow_backup) + "\nUses Permission Flags: "@
        + bool_text(c.uses_permission_flags)
}

impl SecurityConfig {
    /// The main flags, one per line.
    pub fn describe(&self) -> (r: String)
        ensures
            r@ == security_text(*self),
    {
        let mut out: Vec<char> = Vec::new();
        append_text(&mut out, "Uses Clear Text Traffic: ");
        append_bool(&mut out, self.uses_clear_text_traffic);
        append_text(&mut out, "\nDebuggable: ");
        append_bool(&mut out, self.debuggable);
        append_text(&mut out, "\nBackup Allowed: ");
        append_bool(&mut out, self.backup_allowed);
        append_text(&mut out, "\nAllow Backup: ");
        append_bool(&mut out, self.allow_backup);
        append_text(&mut out, "\nUses Permission Flags: ");
        append_bool(&mut out, self.uses_permission_flags);
        text_from(out.as_slice())
    }
}

pub open spec fn analysis_text(a: PermissionAnalysis) -> Seq<char> {
    "Total Permissions: "@ + decimal(a.total_permissions as nat) + "\nDangerous Permissions: "@
        + decimal(a.dangerous_permissions as nat) + "\nNormal Permissions: "@ + decimal(
        a.normal_permissions as nat,
    ) + "\nSignature Permissions: "@ + decimal(a.signature_permissions as nat)
        + "\nOther Permissions: "@ + decimal(a.other_permissions as nat) + "\nRisk Level: "@
        + a.risk_level@
}

impl PermissionAnalysis {
    /// The counts and the risk level, one per line.
    pub fn describe(&self) -> (r: String)
        ensures
            r@ == analysis_text(*self),
    {
        let mut out: Vec<char> = Vec::new();
        append_text(&mut out, "Total Permissions: ");
        append_decimal(&mut out, self.total_permissions as u64);
        append_text(&mut out, "\nDangerous Permissions: ");
        append_decimal(&mut out, self.dangerous_permissions as u64);
        append_text(&mut out, "\nNormal Permissions: ");
        append_decimal(&mut out, self.normal_permissions as u64);
        append_text(&mut out, "\nSignature Permissions: ");
        append_decimal(&mut out, self.signature_permissions as u64);
        append_text(&mut out, "\nOther Permissions: ");
        append_decimal(&mut out, self.other_permissions as u64);
        append_text(&mut out, "\nRisk Level: ");
        append_text(&mut out, self.risk_level.as_str());
        text_from(out.as_slice())
    }
}

pub open spec fn features_text(f: SdkFeatures) -> Seq<char> {
    "Uses Encryption: "@ + bool_text(f.uses_encryption) + "\nUses Root Detection: "@ + bool_text(
        f.uses_root_detection,
    ) + "\nUses Certificate Pinning: "@ + bool_text(f.uses_certificate_pinning)
        + "\nIs Obfuscated: "@ + bool_text(f.is_obfuscated)
}

impl SdkFeatures {
    /// The feature flags, one per line.
    pub fn describe(&self) -> (r: String)
        ensures
            r@ == features_text(*self),
    {
        let mut out: Vec<char> = Vec::new();
        append_text(&mut out, "Uses Encryption: ");
        append_bool(&mut out, self.uses_encryption);
        append_text(&mut out, "\nUses Root Detection: ");
        append_bool(&mut out, self.uses_root_detection);
        append_text(&mut out, "\nUses Certificate Pinning: ");
        append_bool(&mut out, self.uses_certificate_pinning);
        append_text(&mut out, "\nIs Obfuscated: ");
        append_bool(&mut out, self.is_obfuscated);
        text_from(out.as_slice())
    }
}

/// The flags of a manifest.
pub open spec fn posture_of(r: SecurityConfig, t: Seq<char>) -> bool {
    &&& r.uses_clear_text_traffic == contains_text(t, "android:usesCleartextTraffic=\"true\""@)
    &&& r.debuggable == contains_text(t, "android:debuggable=\"true\""@)
    &&& r.backup_allowed == !contains_text(t, "android:allowBackup=\"false\""@)
    &&& r.allow_backup == contains_text(t, "android:allowBackup=\"true\""@)
    &&& r.uses_permission_flags == contains_text(t, "android:protectionLevel="@)
    &&& r.has_network_security_config == Some(contains_text(t, "android:networkSecurityConfig="@))
    &&& r.prevents_screenshots == Some(contains_text(t, "android:preventScreenshots=\"true\""@))
    &&& r.uses_encryption == Some(contains_text(t, "android:encryption=\"true\""@))
}

/// The permissions that count as high risk.
pub open spec fn high_risk_names() -> Seq<Seq<char>> {
    seq![
        "android.permission.READ_CALENDAR"@,
        "android.permission.WRITE_CALENDAR"@,
        "android.permission.CAMERA"@,
        "android.permission.READ_CONTACTS"@,
        "android.permission.WRITE_CONTACTS"@,
        "android.permission.GET_ACCOUNTS"@,
        "android.permission.ACCESS_FINE_LOCATION"@,
        "android.permission.ACCESS_COARSE_LOCATION"@,
        "android.permission.RECORD_AUDIO"@,
        "android.permission.READ_PHONE_STATE"@,
        "android.permission.READ_PHONE_NUMBERS"@,
        "android.permission.CALL_PHONE"@,
        "android.permission.READ_CALL_LOG"@,
        "android.permission.WRITE_CALL_LOG"@,
        "android.permission.ADD_VOICEMAIL"@,
        "android.permission.USE_SIP"@,
        "android.permission.PROCESS_OUTGOING_CALLS"@,
        "android.permission.BODY_SENSORS"@,
        "android.permission.SEND_SMS"@,
        "android.permission.RECEIVE_SMS"@,
        "android.permission.READ_SMS"@,
        "android.permission.RECEIVE_WAP_PUSH"@,
        "android.permission.RECEIVE_MMS"@,
        "android.permission.READ_EXTERNAL_STORAGE"@,
        "android.permission.WRITE_EXTERNAL_STORAGE"@,
    ]
}

pub open spec fn is_high_risk(p: Seq<char>) -> bool {
    high_risk_names().contains(p)
}

pub open spec fn is_platform_permission(p: Seq<char>) -> bool {
    !is_high_risk(p) && starts_with(p, "android.permission."@)
}

pub open spec fn is_other_permission(p: Seq<char>) -> bool {
    !is_high_risk(p) && !starts_with(p, "android.permission."@)
}

/// The high-risk names among `s`, in order.
pub open spec fn high_risk_among(s: Seq<Seq<char>>) -> Seq<Seq<char>>
    decreases s.len(),
{
    if s.len() == 0 {
        seq![]
    } else if is_high_risk(s.last()) {
        high_risk_among(s.drop_last()).push(s.last())
    } else {
        high_risk_among(s.drop_last())
    }
}

pub open spec fn count_platform(s: Seq<Seq<char>>) -> nat
    decreases s.len(),
{
    if s.len() == 0 {
        0
    } else {
        count_platform(s.drop_last()) + if is_platform_permission(s.last()) {
            1nat
        } else {
            0nat
        }
    }
}

pub open spec fn count_other(s: Seq<Seq<char>>) -> nat
    decreases s.len(),
{
    if s.len() == 0 {
        0
    } else {
        count_other(s.drop_last()) + if is_other_permission(s.last()) {
            1nat
        } else {
            0nat
        }
    }
}

pub open spec fn risk_level_for(dangerous: nat) -> Seq<char> {
    if dangerous > 5 {
        "HIGH"@
    } else if dangerous > 2 {
        "MEDIUM"@
    } else {
        "LOW"@
    }
}

pub open spec fn names_view(s: Seq<String>) -> Seq<Seq<char>> {
    s.map_values(|p: String| p@)
}

fn high_risk_list() -> (r: Vec<Vec<char>>)
    ensures
        r@.map_values(|n: Vec<char>| n@) == high_risk_names(),
{
    let r = vec![
        chars_of("android.permission.READ_CALENDAR"),
        chars_of("android.permission.WRITE_CALENDAR"),
        chars_of("android.permission.CAMERA"),
        chars_of("android.permission.READ_CONTACTS"),
        chars_of("android.permission.WRITE_CONTACTS"),
        chars_of("android.permission.GET_ACCOUNTS"),
        chars_of("android.permission.ACCESS_FINE_LOCATION"),
        chars_of("android.permission.ACCESS_COARSE_LOCATION"),
        chars_of("android.permission.RECORD_AUDIO"),
        chars_of("android.permission.READ_PHONE_STATE"),
        chars_of("android.permission.READ_PHONE_NUMBERS"),
        chars_of("android.permission.CALL_PHONE"),
        chars_of("android.permission.READ_CALL_LOG"),
        chars_of("android.permission.WRITE_CALL_LOG"),
        chars_of("android.permission.ADD_VOICEMAIL"),
        chars_of("android.permission.USE_SIP"),
        chars_of("android.permission.PROCESS_OUTGOING_CALLS"),
        chars_of("android.permission.BODY_SENSORS"),
        chars_of("android.permission.SEND_SMS"),
        chars_of("android.permission.RECEIVE_SMS"),
        chars_of("android.permission.READ_SMS"),
        chars_of("android.permission.RECEIVE_WAP_PUSH"),
        chars_of("android.permission.RECEIVE_MMS"),
        chars_of("android.permission.READ_EXTERNAL_STORAGE"),
        chars_of("android.permission.WRITE_EXTERNAL_STORAGE"),
    ];
    assert(r@.map_values(|n: Vec<char>| n@) =~= high_risk_names());
    r
}

/// A requested permission with its descriptive fields.
pub struct PermissionDetail {
    pub name: String,
    pub protection_level: String,
    pub description: String,
    pub group: String,
    pub is_dangerous: bool,
}

/// `d` describes the permission `name`, classified against the high-risk list.
pub open spec fn details(d: PermissionDetail, name: Seq<char>) -> bool {
    &&& d.name@ == name
    &&& d.is_dangerous == is_high_risk(name)
    &&& d.protection_level@ == (if is_high_risk(name) {
        "dangerous"@
    } else {
        "normal"@
    })
    &&& d.description@ == "Permission: "@ + name
    &&& d.group@ == "android"@
}

impl crate::parser::ApkParser {
    /// The `<uses-permission>` names of the manifest, in document order, each
    /// with a protection level ("dangerous" for the high-risk list, else
    /// "normal"), a description and the "android" group.
    pub fn extract_permissions(manifest_xml: &str) -> (r: Vec<PermissionDetail>)
        ensures
            r@.len() == tag_values(manifest_xml@, 0, "<uses-permission"@).len(),
            forall|k: int|
                0 <= k < r@.len() ==> details(
                    #[trigger] r@[k],
                    tag_values(manifest_xml@, 0, "<uses-permission"@)[k],
                ),
    {
        let t = chars_of(manifest_xml);
        let names = collect_tag_values(t.as_slice(), chars_of("<uses-permission").as_slice());
        let ghost ns = names@.map_values(|n: Vec<char>| n@);
        let listed_names = high_risk_list();
        let mut r: Vec<PermissionDetail> = Vec::new();
        let mut i: usize = 0;
        while i < names.len()
            invariant
                i <= names@.len(),
                r@.len() == i,
                ns == names@.map_values(|n: Vec<char>| n@),
                ns == tag_values(manifest_xml@, 0, "<uses-permission"@),
                listed_names@.map_values(|n: Vec<char>| n@) == high_risk_names(),
                forall|k: int| 0 <= k < i ==> details(#[trigger] r@[k], ns[k]),
            decreases names@.len() - i,
        {
            assert(ns[i as int] == names@[i as int]@);
            let d = listed(&listed_names, names[i].as_slice());
            let name = text_from(names[i].as_slice());
            let description = concat_text("Permission: ", name.as_str());
            let protection_level = if d {
                "dangerous".to_string()
            } else {
                "normal".to_string()
            };
            r.push(
                PermissionDetail {
                    name,
                    protection_level,
                    description,
                    group: "android".to_string(),
                    is_dangerous: d,
                },
            );
            i = i + 1;
        }
        r
    }

    /// Derives the security flags from manifest text.
    pub fn analyze_security_config(manifest: &str) -> (r: SecurityConfig)
        ensures
            posture_of(r, manifest@),
    {
        let t = chars_of(manifest);
        let s = t.as_slice();
        SecurityConfig {
            uses_clear_text_traffic: contains(
                s,
                chars_of("android:usesCleartextTraffic=\"true\"").as_slice(),
            ),
            debuggable: contains(s, chars_of("android:debuggable=\"true\"").as_slice()),
            backup_allowed: !contains(s, chars_of("android:allowBackup=\"false\"").as_slice()),
            allow_backup: contains(s, chars_of("android:allowBackup=\"true\"").as_slice()),
            uses_permission_flags: contains(s, chars_of("android:protectionLevel=").as_slice()),
            has_network_security_config: Some(
                contains(s, chars_of("android:networkSecurityConfig=").as_slice()),
            ),
            prevents_screenshots: Some(
                contains(s, chars_of("android:preventScreenshots=\"true\"").as_slice()),
            ),
            uses_encryption: Some(contains(s, chars_of("android:encryption=\"true\"").as_slice())),
        }
    }

    /// Counts a permission list by kind: high-risk names (also listed in
    /// order), other platform permissions, and the rest. The risk level is
    /// HIGH above five high-risk names, MEDIUM above two, else LOW.
    pub fn analyze_permissions(permissions: &Vec<String>) -> (r: PermissionAnalysis)
        requires
            permissions@.len() <= u32::MAX,
        ensures
            r.total_permissions == permissions@.len(),
            names_view(r.high_risk_permissions@) == high_risk_among(names_view(permissions@)),
            r.dangerous_permissions == high_risk_among(names_view(permissions@)).len(),
            r.normal_permissions == count_platform(names_view(permissions@)),
            r.signature_permissions == 0,
            r.other_permissions == count_other(names_view(permissions@)),
            r.risk_level@ == risk_level_for(r.dangerous_permissions as nat),
            r.permission_groups is None,
            r.system_permissions is None,
    {
        let listed_names = high_risk_list();
        let ghost ps = names_view(permissions@);
        let mut high: Vec<String> = Vec::new();
        let mut dangerous: u32 = 0;
        let mut normal: u32 = 0;
        let mut other: u32 = 0;
        let mut i: usize = 0;
        assert(ps.subrange(0, 0) =~= seq![]);
        while i < permissions.len()
            invariant
                i <= permissions@.len(),
                permissions@.len() <= u32::MAX,
                ps == names_view(permissions@),
                listed_names@.map_values(|n: Vec<char>| n@) == high_risk_names(),
                names_view(high@) == high_risk_among(ps.subrange(0, i as int)),
                dangerous == high@.len(),
                normal == count_platform(ps.subrange(0, i as int)),
                other == count_other(ps.subrange(0, i as int)),
                dangerous + normal + other == i,
            decreases permissions@.len() - i,
        {
            let p = &permissions[i];
            let pc = chars_of(p.as_str());
            let ghost prefix = ps.subrange(0, i + 1);
            proof {
                assert(prefix.drop_last() =~= ps.subrange(0, i as int));
                assert(prefix.last() == p@);
            }
            if listed(&listed_names, pc.as_slice()) {
                let ghost before = high@;
                high.push(p.clone());
                proof {
                    assert(names_view(high@) =~= names_view(before).push(p@));
                }
                dangerous = dangerous + 1;
            } else if has_prefix(pc.as_slice(), chars_of("android.permission.").as_slice()) {
                normal = normal + 1;
            } else {
                other = other + 1;
            }
            i = i + 1;
        }
        assert(ps.subrange(0, i as int) =~= ps);
        let risk_level = if dangerous > 5 {
            "HIGH".to_string()
        } else if dangerous > 2 {
            "MEDIUM".to_string()
        } else {
            "LOW".to_string()
        };
        PermissionAnalysis {
            total_permissions: permissions.len() as u32,
            dangerous_permissions: dangerous,
            normal_permissions: normal,
            signature_permissions: 0,
            other_permissions: other,
            high_risk_permissions: high,
            risk_level,
            permission_groups: None,
            system_permissions: None,
        }
    }
}

} // verus!
