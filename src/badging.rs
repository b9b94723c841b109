//! Reading the external decoder's "dump badging" output: `key='value'` pairs
//! on free-text lines.
use vstd::prelude::*;
use crate::package_info::{chain_end, join};
use crate::permission::{listed, Permission};
use crate::signature::{or_unknown, SignatureInfo, SignatureView};
use crate::text::{
    captured, chars_of, contains, contains_text, copy_range, find, first_capture, first_value,
    has_prefix, lemma_capture_bounds, lemma_find_from_found, starts_with, text_from, value_after,
    ValueShape,
};

verus! {

/// The text of the leftmost value after `key`, anywhere in `t`.
pub open spec fn badging_value(t: Seq<char>, key: Seq<char>, shape: ValueShape) -> Option<Seq<char>> {
    captured(t, first_capture(t, key, 0, t.len() as int, shape))
}

/// All single-quoted values after `key`, left to right, each search resuming
/// after the previous value's closing quote.
pub open spec fn all_quoted(t: Seq<char>, key: Seq<char>, i: int) -> Seq<Seq<char>>
    decreases t.len() - i,
{
    if i < 0 || i > t.len() {
        seq![]
    } else {
        match first_capture(t, key, i, t.len() as int, ValueShape::Quoted('\'')) {
            None => seq![],
            Some((v, e)) => if i < e + 1 <= t.len() {
                seq![t.subrange(v, e)] + all_quoted(t, key, e + 1)
            } else {
                seq![t.subrange(v, e)]
            },
        }
    }
}

/// The permissions that this looser classifier singles out by name alone.
pub open spec fn risky_names() -> Seq<Seq<char>> {
    seq![
        "android.permission.READ_CALENDAR"@,
        "android.permission.WRITE_CALENDAR"@,
        "android.permission.CAMERA"@,
        "android.permission.READ_CONTACTS"@,
        "android.permission.WRITE_CONTACTS"@,
        "android.permission.GET_ACCOUNTS"@,
        "android.permission.ACCESS_FINE_LOCATION"@,
        "android.permission.ACCESS_COARSE_LOCATION"@,
        "android.permission.RECORD_AUDIO"@,
    ]
}

/// The classifier used for permissions read from badging output: a short
/// list, external-storage access, and any name that mentions SMS, calls,
/// the phone or storage.
pub open spec fn is_risky_permission(p: Seq<char>) -> bool {
    ||| risky_names().contains(p)
    ||| (starts_with(p, "android.permission.READ_"@) && contains_text(p, "_EXTERNAL_STORAGE"@))
    ||| (starts_with(p, "android.permission.WRITE_"@) && contains_text(p, "_EXTERNAL_STORAGE"@))
    ||| contains_text(p, "SMS"@)
    ||| contains_text(p, "CALL"@)
    ||| contains_text(p, "PHONE"@)
    ||| contains_text(p, "STORAGE"@)
}

pub open spec fn launcher_chain(name: Seq<char>) -> Seq<Seq<char>> {
    seq![
        "activity: name='"@ + name + "'"@,
        "action: name='android.intent.action.MAIN'"@,
        "category: name='android.intent.category.LAUNCHER'"@,
    ]
}

/// The first of `names[k..]` that a MAIN action and then a LAUNCHER category
/// follow somewhere in the output.
pub open spec fn first_launcher_in(t: Seq<char>, names: Seq<Seq<char>>, k: int) -> Option<Seq<char>>
    decreases names.len() - k,
{
    if k < 0 || k >= names.len() {
        None
    } else if chain_end(t, launcher_chain(names[k]), 0, t.len() as int) is Some {
        Some(names[k])
    } else {
        first_launcher_in(t, names, k + 1)
    }
}

/// The launcher activity; failing that, the first activity listed.
pub open spec fn badging_main_activity(t: Seq<char>) -> Option<Seq<char>> {
    let names = all_quoted(t, "activity: name='"@, 0);
    match first_launcher_in(t, names, 0) {
        Some(n) => Some(n),
        None => if names.len() > 0 {
            Some(names[0])
        } else {
            None
        },
    }
}

/// Issuer and subject lines, when the output carries either.
pub open spec fn badging_signature(t: Seq<char>) -> Option<SignatureView> {
    let issuer = badging_value(t, "Issuer: "@, ValueShape::RestOfLine);
    let subject = badging_value(t, "Subject: "@, ValueShape::RestOfLine);
    if issuer is None && subject is None {
        None
    } else {
        Some(
            SignatureView {
                issuer: or_unknown(issuer),
                subject: or_unknown(subject),
                valid_from: "unknown"@,
                valid_to: "unknown"@,
                fingerprint_sha1: None,
                fingerprint_sha256: None,
            },
        )
    }
}

/// The package facts that badging output gives.
pub struct BadgingInfo {
    pub package_name: String,
    pub version_name: String,
    pub version_code: String,
    pub min_sdk: String,
    pub target_sdk: String,
    pub permissions: Vec<Permission>,
    pub main_activity: Option<String>,
    pub signature_info: Option<SignatureInfo>,
}

pub open spec fn value_or(o: Option<Seq<char>>, default: Seq<char>) -> Seq<char> {
    match o {
        Some(v) => v,
        None => default,
    }
}

/// The package facts, permissions and launcher activity that badging
/// output `t` gives, each missing fact taking its default.
pub open spec fn badging_facts(
    package_name: Seq<char>,
    version_name: Seq<char>,
    version_code: Seq<char>,
    min_sdk: Seq<char>,
    target_sdk: Seq<char>,
    permissions: Seq<Permission>,
    main_activity: Option<String>,
    t: Seq<char>,
) -> bool {
    let perms = all_quoted(t, "uses-permission: name='"@, 0);
    &&& package_name == value_or(
        badging_value(t, "package: name='"@, ValueShape::Quoted('\'')),
        "unknown"@,
    )
    &&& version_name == value_or(
        badging_value(t, "versionName='"@, ValueShape::Quoted('\'')),
        "unknown"@,
    )
    &&& version_code == value_or(
        badging_value(t, "versionCode='"@, ValueShape::DigitsThen('\'')),
        "0"@,
    )
    &&& min_sdk == value_or(
        badging_value(t, "sdkVersion:'"@, ValueShape::DigitsThen('\'')),
        "unknown"@,
    )
    &&& target_sdk == value_or(
        badging_value(t, "targetSdkVersion:'"@, ValueShape::DigitsThen('\'')),
        "unknown"@,
    )
    &&& permissions.len() == perms.len()
    &&& forall|k: int|
        0 <= k < perms.len() ==> (#[trigger] permissions[k]).name@ == perms[k]
            && permissions[k].is_dangerous == is_risky_permission(perms[k])
    &&& match main_activity {
        Some(a) => badging_main_activity(t) == Some(a@),
        None => badging_main_activity(t) is None,
    }
}

/// `r` matches the badging output `t`.
pub open spec fn reads_badging(r: BadgingInfo, t: Seq<char>) -> bool {
    &&& badging_facts(
        r.package_name@,
        r.version_name@,
        r.version_code@,
        r.min_sdk@,
        r.target_sdk@,
        r.permissions@,
        r.main_activity,
        t,
    )
    &&& match r.signature_info {
        Some(s) => badging_signature(t) == Some(s@),
        None => badging_signature(t) is None,
    }
}

fn risky_list() -> (r: Vec<Vec<char>>)
    ensures
        r@.map_values(|n: Vec<char>| n@) == risky_names(),
{
    let r = vec![
        chars_of("android.permission.READ_CALENDAR"),
        chars_of("android.permission.WRITE_CALENDAR"),
        chars_of("android.permission.CAMERA"),
        chars_of("android.permission.READ_CONTACTS"),
        chars_of("android.permission.WRITE_CONTACTS"),
        chars_of("android.permission.GET_ACCOUNTS"),
        chars_of("android.permission.ACCESS_FINE_LOCATION"),
        chars_of("android.permission.ACCESS_COARSE_LOCATION"),
        chars_of("android.permission.RECORD_AUDIO"),
    ];
    assert(r@.map_values(|n: Vec<char>| n@) =~= risky_names());
    r
}

/// The value after `key` in the output, as text.
pub fn extract_from_aapt_output(output: &str, key: &str, shape: ValueShape) -> (r: Option<String>)
    ensures
        match r {
            Some(v) => badging_value(output@, key@, shape) == Some(v@),
            None => badging_value(output@, key@, shape) is None,
        },
{
    let t = chars_of(output);
    let k = chars_of(key);
    match value_after(t.as_slice(), k.as_slice(), 0, t.len(), shape) {
        Some(v) => Some(text_from(v.as_slice())),
        None => None,
    }
}

fn value_text_or(output: &str, key: &str, shape: ValueShape, default: &str) -> (r: String)
    ensures
        r@ == value_or(badging_value(output@, key@, shape), default@),
{
    match extract_from_aapt_output(output, key, shape) {
        Some(v) => v,
        None => default.to_string(),
    }
}

/// All single-quoted values after `key`.
pub fn collect_quoted(t: &[char], key: &[char]) -> (r: Vec<Vec<char>>)
    ensures
        r@.map_values(|n: Vec<char>| n@) == all_quoted(t@, key@, 0),
{
    let mut r: Vec<Vec<char>> = Vec::new();
    let mut i: usize = 0;
    while i <= t.len()
        invariant
            i <= t@.len() + 1,
            r@.map_values(|n: Vec<char>| n@) + all_quoted(t@, key@, i as int) == all_quoted(
                t@,
                key@,
                0,
            ),
        decreases t@.len() + 1 - i,
    {
        let ghost before = r@.map_values(|n: Vec<char>| n@);
        match first_value(t, key, i, t.len(), ValueShape::Quoted('\'')) {
            Some((v, e)) => {
                proof {
                    lemma_capture_bounds(t@, key@, i as int, t@.len() as int, ValueShape::Quoted('\''));
                }
                let n = copy_range(t, v, e);
                let ghost nv = n@;
                r.push(n);
                assert(r@.map_values(|n: Vec<char>| n@) =~= before.push(nv));
                if e < t.len() {
                    assert(before.push(nv) + all_quoted(t@, key@, e + 1) =~= before + (seq![nv]
                        + all_quoted(t@, key@, e + 1)));
                    i = e + 1;
                } else {
                    assert(before.push(nv) =~= before + seq![nv]);
                    return r;
                }
            },
            None => {
                assert(r@.map_values(|n: Vec<char>| n@) =~= r@.map_values(|n: Vec<char>| n@) + all_quoted(t@, key@, i as int));
                return r;
            },
        }
    }
    assert(all_quoted(t@, key@, i as int) =~= seq![]);
    assert(r@.map_values(|n: Vec<char>| n@) =~= r@.map_values(|n: Vec<char>| n@) + all_quoted(t@, key@, i as int));
    r
}

/// The looser classification of a permission name.
pub fn is_dangerous_permission(permission: &str) -> (r: bool)
    ensures
        r == is_risky_permission(permission@),
{
    let p = chars_of(permission);
    let s = p.as_slice();
    let names = risky_list();
    let storage = chars_of("_EXTERNAL_STORAGE");
    listed(&names, s) || (has_prefix(s, chars_of("android.permission.READ_").as_slice()) && contains(
        s,
        storage.as_slice(),
    )) || (has_prefix(s, chars_of("android.permission.WRITE_").as_slice()) && contains(
        s,
        storage.as_slice(),
    )) || contains(s, chars_of("SMS").as_slice()) || contains(s, chars_of("CALL").as_slice())
        || contains(s, chars_of("PHONE").as_slice()) || contains(s, chars_of("STORAGE").as_slice())
}

fn chain_found(t: &[char], marks: &Vec<Vec<char>>) -> (r: bool)
    ensures
        r == (chain_end(t@, marks@.map_values(|m: Vec<char>| m@), 0, t@.len() as int) is Some),
{
    let ghost ms = marks@.map_values(|m: Vec<char>| m@);
    let mut i: usize = 0;
    let mut p: usize = 0;
    assert(ms.subrange(0, ms.len() as int) =~= ms);
    while i < marks.len()
        invariant
            i <= marks@.len(),
            ms == marks@.map_values(|m: Vec<char>| m@),
            chain_end(t@, ms, 0, t@.len() as int) == chain_end(
                t@,
                ms.subrange(i as int, ms.len() as int),
                p as int,
                t@.len() as int,
            ),
        decreases marks@.len() - i,
    {
        let m = &marks[i];
        let ghost rest = ms.subrange(i as int, ms.len() as int);
        assert(rest[0] == m@);
        assert(rest.drop_first() =~= ms.subrange(i + 1, ms.len() as int));
        match find(t, m.as_slice(), p, t.len()) {
            Some(q) => {
                proof {
                    lemma_find_from_found(t@, m@, p as int, t@.len() as int);
                }
                p = q + m.len();
            },
            None => {
                return false;
            },
        }
        i = i + 1;
    }
    true
}

fn chain_for(name: &[char]) -> (r: Vec<Vec<char>>)
    ensures
        r@.map_values(|m: Vec<char>| m@) == launcher_chain(name@),
{
    let head = join(join(chars_of("activity: name='").as_slice(), name).as_slice(), chars_of("'").as_slice());
    let r = vec![
        head,
        chars_of("action: name='android.intent.action.MAIN'"),
        chars_of("category: name='android.intent.category.LAUNCHER'"),
    ];
    assert(r@.map_values(|m: Vec<char>| m@) =~= launcher_chain(name@));
    r
}

/// The launcher activity named in badging output, else its first activity.
pub fn extract_main_activity_from_output(output: &str) -> (r: Option<String>)
    ensures
        match r {
            Some(a) => badging_main_activity(output@) == Some(a@),
            None => badging_main_activity(output@) is None,
        },
{
    let t = chars_of(output);
    let names = collect_quoted(t.as_slice(), chars_of("activity: name='").as_slice());
    let ghost ns = names@.map_values(|n: Vec<char>| n@);
    let mut k: usize = 0;
    while k < names.len()
        invariant
            k <= names@.len(),
            t@ == output@,
            ns == names@.map_values(|n: Vec<char>| n@),
            ns == all_quoted(output@, "activity: name='"@, 0),
            first_launcher_in(t@, ns, 0) == first_launcher_in(t@, ns, k as int),
        decreases names@.len() - k,
    {
        assert(ns[k as int] == names@[k as int]@);
        let chain = chain_for(names[k].as_slice());
        if chain_found(t.as_slice(), &chain) {
            return Some(text_from(names[k].as_slice()));
        }
        k = k + 1;
    }
    if names.len() > 0 {
        assert(ns[0] == names@[0]@);
        Some(text_from(names[0].as_slice()))
    } else {
        None
    }
}

/// Issuer and subject from badging output, when it carries either.
pub fn extract_signature_info_from_aapt_output(output: &str) -> (r: Option<SignatureInfo>)
    ensures
        match r {
            Some(s) => badging_signature(output@) == Some(s@),
            None => badging_signature(output@) is None,
        },
{
    let issuer = extract_from_aapt_output(output, "Issuer: ", ValueShape::RestOfLine);
    let subject = extract_from_aapt_output(output, "Subject: ", ValueShape::RestOfLine);
    if issuer.is_none() && subject.is_none() {
        return None;
    }
    let issuer = match issuer {
        Some(v) => v,
        None => "unknown".to_string(),
    };
    let subject = match subject {
        Some(v) => v,
        None => "unknown".to_string(),
    };
    Some(
        SignatureInfo {
            issuer,
            subject,
            valid_from: "unknown".to_string(),
            valid_to: "unknown".to_string(),
            fingerprint_sha1: None,
            fingerprint_sha256: None,
        },
    )
}

/// Reads package facts, permissions, launcher activity and signer out of
/// badging output; each missing fact takes its default.
pub fn parse_badging(output: &str) -> (r: BadgingInfo)
    ensures
        reads_badging(r, output@),
{
    let t = chars_of(output);
    let perms = collect_quoted(t.as_slice(), chars_of("uses-permission: name='").as_slice());
    let ghost ps = perms@.map_values(|n: Vec<char>| n@);
    let mut permissions: Vec<Permission> = Vec::new();
    let mut k: usize = 0;
    while k < perms.len()
        invariant
            k <= perms@.len(),
            ps == perms@.map_values(|n: Vec<char>| n@),
            permissions@.len() == k,
            forall|j: int|
                0 <= j < k ==> (#[trigger] permissions@[j]).name@ == ps[j]
                    && permissions@[j].is_dangerous == is_risky_permission(ps[j]),
        decreases perms@.len() - k,
    {
        assert(ps[k as int] == perms@[k as int]@);
        let name = text_from(perms[k].as_slice());
        let d = is_dangerous_permission(name.as_str());
        permissions.push(Permission { name, is_dangerous: d });
        k = k + 1;
    }
    BadgingInfo {
        package_name: value_text_or(output, "package: name='", ValueShape::Quoted('\''), "unknown"),
        version_name: value_text_or(output, "versionName='", ValueShape::Quoted('\''), "unknown"),
        version_code: value_text_or(output, "versionCode='", ValueShape::DigitsThen('\''), "0"),
        min_sdk: value_text_or(output, "sdkVersion:'", ValueShape::DigitsThen('\''), "unknown"),
        target_sdk: value_text_or(output, "targetSdkVersion:'", ValueShape::DigitsThen('\''), "unknown"),
        permissions,
        main_activity: extract_main_activity_from_output(output),
        signature_info: extract_signature_info_from_aapt_output(output),
    }
}

} // verus!
