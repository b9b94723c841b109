//! Declared permissions, and their classification against the runtime
//! ("dangerous") permission set.
use vstd::prelude::*;
use crate::text::{
    chars_of, copy_range, find, find_from, first_capture, first_value,
    lemma_capture_bounds, lemma_find_from_found, matches_at, occurs_at, ValueShape,
};

verus! {

/// One declared permission.
pub struct Permission {
    pub name: String,
    pub is_dangerous: bool,
}

/// The runtime permissions that the platform asks the user to grant.
pub open spec fn dangerous_names() -> Seq<Seq<char>> {
    seq![
        "android.permission.READ_CALENDAR"@,
        "android.permission.WRITE_CALENDAR"@,
        "android.permission.CAMERA"@,
        "android.permission.READ_CONTACTS"@,
        "android.permission.WRITE_CONTACTS"@,
        "android.permission.GET_ACCOUNTS"@,
        "android.permission.ACCESS_FINE_LOCATION"@,
        "android.permission.ACCESS_COARSE_LOCATION"@,
        "android.permission.ACCESS_BACKGROUND_LOCATION"@,
        "android.permission.RECORD_AUDIO"@,
        "android.permission.READ_PHONE_STATE"@,
        "android.permission.READ_PHONE_NUMBERS"@,
        "android.permission.CALL_PHONE"@,
        "android.permission.ANSWER_PHONE_CALLS"@,
        "android.permission.READ_CALL_LOG"@,
        "android.permission.WRITE_CALL_LOG"@,
        "android.permission.ADD_VOICEMAIL"@,
        "android.permission.USE_SIP"@,
        "android.permission.PROCESS_OUTGOING_CALLS"@,
        "android.permission.BODY_SENSORS"@,
        "android.permission.BODY_SENSORS_BACKGROUND"@,
        "android.permission.ACTIVITY_RECOGNITION"@,
        "android.permission.SEND_SMS"@,
        "android.permission.RECEIVE_SMS"@,
        "android.permission.READ_SMS"@,
        "android.permission.RECEIVE_WAP_PUSH"@,
        "android.permission.RECEIVE_MMS"@,
        "android.permission.READ_EXTERNAL_STORAGE"@,
        "android.permission.WRITE_EXTERNAL_STORAGE"@,
        "android.permission.READ_MEDIA_IMAGES"@,
        "android.permission.READ_MEDIA_VIDEO"@,
        "android.permission.READ_MEDIA_AUDIO"@,
        "android.permission.MANAGE_EXTERNAL_STORAGE"@,
        "android.permission.USE_BIOMETRIC"@,
        "android.permission.USE_FINGERPRINT"@,
        "android.permission.BLUETOOTH_CONNECT"@,
        "android.permission.BLUETOOTH_SCAN"@,
        "android.permission.BLUETOOTH_ADVERTISE"@,
        "android.permission.POST_NOTIFICATIONS"@,
        "android.permission.NEARBY_WIFI_DEVICES"@,
        "android.permission.READ_MEDIA_VISUAL_USER_SELECTED"@,
    ]
}

pub open spec fn is_dangerous_name(name: Seq<char>) -> bool {
    dangerous_names().contains(name)
}

/// The `android:name` value of a `tag` element opening at `i`, with the
/// position just past the element's closing `>`.
pub open spec fn tag_value_at(t: Seq<char>, i: int, tag: Seq<char>) -> Option<(Seq<char>, int)> {
    if !occurs_at(t, i, tag) {
        None
    } else {
        let s = i + tag.len();
        match find_from(t, ">"@, s, t.len() as int) {
            None => None,
            Some(g) => match first_capture(t, "android:name=\""@, s, g, ValueShape::Quoted('"')) {
                None => None,
                Some((v, e)) => Some((t.subrange(v, e), g + ">"@.len())),
            },
        }
    }
}

/// The names of all `tag` elements opening at or after `i`, in document order.
pub open spec fn tag_values(t: Seq<char>, i: int, tag: Seq<char>) -> Seq<Seq<char>>
    decreases t.len() - i,
{
    if i < 0 || i >= t.len() {
        seq![]
    } else {
        match tag_value_at(t, i, tag) {
            Some((n, next)) => if i < next <= t.len() {
                seq![n] + tag_values(t, next, tag)
            } else {
                seq![n]
            },
            None => tag_values(t, i + 1, tag),
        }
    }
}

/// The `<uses-permission>` names; when there are none, the names that
/// `<permission>` elements declare instead.
pub open spec fn declared_permissions(t: Seq<char>) -> Seq<Seq<char>> {
    let used = tag_values(t, 0, "<uses-permission"@);
    if used.len() > 0 {
        used
    } else {
        tag_values(t, 0, "<permission"@)
    }
}

/// Whether two character sequences are equal.
pub fn same_text(a: &[char], b: &[char]) -> (r: bool)
    ensures
        r == (a@ == b@),
{
    if a.len() != b.len() {
        return false;
    }
    let r = matches_at(a, 0, b);
    assert(r ==> a@.subrange(0, b@.len() as int) =~= a@);
    assert(a@ == b@ ==> a@.subrange(0, b@.len() as int) =~= b@);
    r
}

/// Whether `name` belongs to the set that `names` lists.
pub fn listed(names: &Vec<Vec<char>>, name: &[char]) -> (r: bool)
    ensures
        r == names@.map_values(|n: Vec<char>| n@).contains(name@),
{
    let ghost ns = names@.map_values(|n: Vec<char>| n@);
    let mut i: usize = 0;
    while i < names.len()
        invariant
            i <= names@.len(),
            ns == names@.map_values(|n: Vec<char>| n@),
            forall|k: int| 0 <= k < i ==> ns[k] != name@,
        decreases names@.len() - i,
    {
        if same_text(names[i].as_slice(), name) {
            assert(ns[i as int] == name@);
            return true;
        }
        i = i + 1;
    }
    false
}

pub fn dangerous_list() -> (r: Vec<Vec<char>>)
    ensures
        r@.map_values(|n: Vec<char>| n@) == dangerous_names(),
{
    let r = vec![
        chars_of("android.permission.READ_CALENDAR"),
        chars_of("android.permission.WRITE_CALENDAR"),
        chars_of("android.permission.CAMERA"),
        chars_of("android.permission.READ_CONTACTS"),
        chars_of("android.permission.WRITE_CONTACTS"),
        chars_of("android.permission.GET_ACCOUNTS"),
        chars_of("android.permission.ACCESS_FINE_LOCATION"),
        chars_of("android.permission.ACCESS_COARSE_LOCATION"),
        chars_of("android.permission.ACCESS_BACKGROUND_LOCATION"),
        chars_of("android.permission.RECORD_AUDIO"),
        chars_of("android.permission.READ_PHONE_STATE"),
        chars_of("android.permission.READ_PHONE_NUMBERS"),
        chars_of("android.permission.CALL_PHONE"),
        chars_of("android.permission.ANSWER_PHONE_CALLS"),
        chars_of("android.permission.READ_CALL_LOG"),
        chars_of("android.permission.WRITE_CALL_LOG"),
        chars_of("android.permission.ADD_VOICEMAIL"),
        chars_of("android.permission.USE_SIP"),
        chars_of("android.permission.PROCESS_OUTGOING_CALLS"),
        chars_of("android.permission.BODY_SENSORS"),
        chars_of("android.permission.BODY_SENSORS_BACKGROUND"),
        chars_of("android.permission.ACTIVITY_RECOGNITION"),
        chars_of("android.permission.SEND_SMS"),
        chars_of("android.permission.RECEIVE_SMS"),
        chars_of("android.permission.READ_SMS"),
        chars_of("android.permission.RECEIVE_WAP_PUSH"),
        chars_of("android.permission.RECEIVE_MMS"),
        chars_of("android.permission.READ_EXTERNAL_STORAGE"),
        chars_of("android.permission.WRITE_EXTERNAL_STORAGE"),
        chars_of("android.permission.READ_MEDIA_IMAGES"),
        chars_of("android.permission.READ_MEDIA_VIDEO"),
        chars_of("android.permission.READ_MEDIA_AUDIO"),
        chars_of("android.permission.MANAGE_EXTERNAL_STORAGE"),
        chars_of("android.permission.USE_BIOMETRIC"),
        chars_of("android.permission.USE_FINGERPRINT"),
        chars_of("android.permission.BLUETOOTH_CONNECT"),
        chars_of("android.permission.BLUETOOTH_SCAN"),
        chars_of("android.permission.BLUETOOTH_ADVERTISE"),
        chars_of("android.permission.POST_NOTIFICATIONS"),
        chars_of("android.permission.NEARBY_WIFI_DEVICES"),
        chars_of("android.permission.READ_MEDIA_VISUAL_USER_SELECTED"),
    ];
    assert(r@.map_values(|n: Vec<char>| n@) =~= dangerous_names());
    r
}

/// Whether `name` is one of the runtime permissions.
pub fn is_dangerous(name: &str) -> (r: bool)
    ensures
        r == is_dangerous_name(name@),
{
    let names = dangerous_list();
    let n = chars_of(name);
    listed(&names, n.as_slice())
}

fn tag_value_exec(t: &[char], i: usize, tag: &[char]) -> (r: Option<(Vec<char>, usize)>)
    ensures
        match r {
            Some((n, next)) => tag_value_at(t@, i as int, tag@) == Some((n@, next as int)) && next
                > i,
            None => tag_value_at(t@, i as int, tag@) is None,
        },
{
    let n = t.len();
    if !matches_at(t, i, tag) {
        return None;
    }
    assert(i + tag@.len() <= n);
    let s = i + tag.len();
    let gt = chars_of(">");
    let g = match find(t, gt.as_slice(), s, t.len()) {
        Some(g) => g,
        None => return None,
    };
    proof {
        lemma_find_from_found(t@, gt@, s as int, t@.len() as int);
    }
    let key = chars_of("android:name=\"");
    match first_value(t, key.as_slice(), s, g, ValueShape::Quoted('"')) {
        Some((v, e)) => {
            proof {
                lemma_capture_bounds(t@, key@, s as int, g as int, ValueShape::Quoted('"'));
            }
            Some((copy_range(t, v, e), g + gt.len()))
        },
        None => None,
    }
}

/// All names of `tag` elements, in document order.
pub fn collect_tag_values(t: &[char], tag: &[char]) -> (r: Vec<Vec<char>>)
    ensures
        r@.map_values(|n: Vec<char>| n@) == tag_values(t@, 0, tag@),
{
    let mut r: Vec<Vec<char>> = Vec::new();
    let mut i: usize = 0;
    while i < t.len()
        invariant
            i <= t@.len(),
            r@.map_values(|n: Vec<char>| n@) + tag_values(t@, i as int, tag@) == tag_values(
                t@,
                0,
                tag@,
            ),
        decreases t@.len() - i,
    {
        let ghost before = r@.map_values(|n: Vec<char>| n@);
        match tag_value_exec(t, i, tag) {
            Some((n, next)) => {
                let ghost nv = n@;
                r.push(n);
                assert(r@.map_values(|n: Vec<char>| n@) =~= before.push(nv));
                if next > t.len() {
                    assert(tag_values(t@, t@.len() as int, tag@) =~= seq![]);
                    assert(before.push(nv) + tag_values(t@, t@.len() as int, tag@) =~= before
                        + seq![nv]);
                    i = t.len();
                } else {
                    assert(tag_values(t@, i as int, tag@) == seq![nv] + tag_values(
                        t@,
                        next as int,
                        tag@,
                    ));
                    assert(before.push(nv) + tag_values(t@, next as int, tag@) =~= before + (
                    seq![nv] + tag_values(t@, next as int, tag@)));
                    i = next;
                }
            },
            None => {
                i = i + 1;
            },
        }
    }
    assert(r@.map_values(|n: Vec<char>| n@) + tag_values(t@, i as int, tag@) =~= r@.map_values(
        |n: Vec<char>| n@,
    ));
    r
}

/// Pairs each name with its classification.
pub fn classify(names: &Vec<Vec<char>>) -> (r: Vec<Permission>)
    ensures
        r@.len() == names@.len(),
        forall|k: int|
            0 <= k < r@.len() ==> (#[trigger] r@[k]).name@ == names@[k]@ && r@[k].is_dangerous
                == is_dangerous_name(names@[k]@),
{
    let dangerous = dangerous_list();
    let mut r: Vec<Permission> = Vec::new();
    let mut i: usize = 0;
    while i < names.len()
        invariant
            i <= names@.len(),
            r@.len() == i,
            dangerous@.map_values(|n: Vec<char>| n@) == dangerous_names(),
            forall|k: int|
                0 <= k < i ==> (#[trigger] r@[k]).name@ == names@[k]@ && r@[k].is_dangerous
                    == is_dangerous_name(names@[k]@),
        decreases names@.len() - i,
    {
        let d = listed(&dangerous, names[i].as_slice());
        r.push(Permission { name: crate::text::text_from(names[i].as_slice()), is_dangerous: d });
        i = i + 1;
    }
    r
}

impl crate::parser::ApkParser {
    /// The permissions that the manifest requests with `<uses-permission>`, in
    /// document order and with duplicates kept; when it requests none, the
    /// permissions that it declares with `<permission>`.
    pub fn parse_permissions(manifest_xml: &str) -> (r: Vec<Permission>)
        ensures
            r@.len() == declared_permissions(manifest_xml@).len(),
            forall|k: int|
                0 <= k < r@.len() ==> (#[trigger] r@[k]).name@ == declared_permissions(
                    manifest_xml@,
                )[k] && r@[k].is_dangerous == is_dangerous_name(
                    declared_permissions(manifest_xml@)[k],
                ),
    {
        let t = chars_of(manifest_xml);
        let uses = chars_of("<uses-permission");
        let mut names = collect_tag_values(t.as_slice(), uses.as_slice());
        if names.len() == 0 {
            let decl = chars_of("<permission");
            names = collect_tag_values(t.as_slice(), decl.as_slice());
        }
        proof {
            assert(names@.map_values(|n: Vec<char>| n@) == declared_permissions(manifest_xml@));
            assert forall|k: int| 0 <= k < names@.len() implies names@[k]@ == declared_permissions(
                manifest_xml@,
            )[k] by {
                assert(names@.map_values(|n: Vec<char>| n@)[k] == names@[k]@);
            }
        }
        classify(&names)
    }
}

} // verus!
