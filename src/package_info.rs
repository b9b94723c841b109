//! Package identity, version and SDK bounds read from manifest text.
use vstd::prelude::*;
use crate::text::{
    captured, chars_of, contains, contains_text, copy_range, find, find_from, first_capture,
    first_value, lemma_capture_bounds, lemma_find_from_found, matches_at, occurs_at, text_from,
    value_after, ValueShape,
};

verus! {

/// The package facts that the manifest declares.
pub struct PackageRecord {
    pub package_name: String,
    pub version_name: String,
    pub version_code: String,
    pub min_sdk: String,
    pub target_sdk: String,
    pub main_activity: Option<String>,
}

/// The text of the first non-empty double-quoted value after `key`.
pub open spec fn attribute(t: Seq<char>, key: Seq<char>) -> Option<Seq<char>> {
    captured(t, first_capture(t, key, 0, t.len() as int, ValueShape::Quoted('"')))
}

pub open spec fn attribute_or(t: Seq<char>, key: Seq<char>, default: Seq<char>) -> Seq<char> {
    match attribute(t, key) {
        Some(v) => v,
        None => default,
    }
}

/// The markers that must follow an activity's opening tag, in this order and
/// on the same line, for it to count as the launcher activity.
pub open spec fn launcher_markers() -> Seq<Seq<char>> {
    seq![
        "<intent-filter>"@,
        "<action android:name=\"android.intent.action.MAIN\""@,
        ">"@,
        "<category android:name=\"android.intent.category.LAUNCHER\""@,
        ">"@,
        "</intent-filter>"@,
    ]
}

/// Position after the last of `marks`, each found after the previous one
/// inside `[pos, hi)`.
pub open spec fn chain_end(t: Seq<char>, marks: Seq<Seq<char>>, pos: int, hi: int) -> Option<int>
    decreases marks.len(),
{
    if marks.len() == 0 {
        Some(pos)
    } else {
        match find_from(t, marks[0], pos, hi) {
            Some(p) => chain_end(t, marks.drop_first(), p + marks[0].len(), hi),
            None => None,
        }
    }
}

/// End of the line that holds position `k`.
pub open spec fn line_end(t: Seq<char>, k: int) -> int {
    match find_from(t, "\n"@, k, t.len() as int) {
        Some(p) => p,
        None => t.len() as int,
    }
}

/// The name of an activity whose opening tag starts at `i`, provided the
/// launcher markers follow that tag on its line.
pub open spec fn launcher_at(t: Seq<char>, i: int) -> Option<Seq<char>> {
    if !occurs_at(t, i, "<activity"@) {
        None
    } else {
        let s = i + "<activity"@.len();
        match find_from(t, ">"@, s, t.len() as int) {
            None => None,
            Some(g) => match first_capture(t, "android:name=\""@, s, g, ValueShape::Quoted('"')) {
                None => None,
                Some((v, e)) => if chain_end(
                    t,
                    launcher_markers(),
                    g + ">"@.len(),
                    line_end(t, g + ">"@.len()),
                ) is Some {
                    Some(t.subrange(v, e))
                } else {
                    None
                },
            },
        }
    }
}

/// The launcher activity named by the leftmost qualifying activity tag at or after `i`.
pub open spec fn launcher_from(t: Seq<char>, i: int) -> Option<Seq<char>>
    decreases t.len() - i,
{
    if i < 0 || i >= t.len() {
        None
    } else {
        match launcher_at(t, i) {
            Some(n) => Some(n),
            None => launcher_from(t, i + 1),
        }
    }
}

/// An activity name without a dot is relative to the package.
pub open spec fn qualified(package: Seq<char>, name: Seq<char>) -> Seq<char> {
    if contains_text(name, "."@) {
        name
    } else {
        package + "."@ + name
    }
}

pub open spec fn package_of(t: Seq<char>) -> Seq<char> {
    attribute_or(t, "package=\""@, "unknown"@)
}

pub open spec fn min_sdk_of(t: Seq<char>) -> Seq<char> {
    attribute_or(t, "android:minSdkVersion=\""@, "1"@)
}

pub open spec fn target_sdk_of(t: Seq<char>) -> Seq<char> {
    attribute_or(t, "android:targetSdkVersion=\""@, min_sdk_of(t))
}

pub open spec fn main_activity_of(t: Seq<char>) -> Option<Seq<char>> {
    match launcher_from(t, 0) {
        Some(n) => Some(qualified(package_of(t), n)),
        None => None,
    }
}

/// A manifest that declares no target SDK takes the minimum SDK that was
/// found (or its default) as its target.
pub proof fn lemma_target_sdk_defaults_to_min(t: Seq<char>)
    requires
        attribute(t, "android:targetSdkVersion=\""@) is None,
    ensures
        target_sdk_of(t) == min_sdk_of(t),
{
}

/// `a` followed by `b`.
pub fn join(a: &[char], b: &[char]) -> (r: Vec<char>)
    ensures
        r@ == a@ + b@,
{
    let mut r: Vec<char> = Vec::new();
    let mut k: usize = 0;
    while k < a.len()
        invariant
            k <= a@.len(),
            r@ == a@.subrange(0, k as int),
        decreases a@.len() - k,
    {
        r.push(a[k]);
        k = k + 1;
        assert(r@ =~= a@.subrange(0, k as int));
    }
    let mut j: usize = 0;
    while j < b.len()
        invariant
            j <= b@.len(),
            r@ == a@ + b@.subrange(0, j as int),
        decreases b@.len() - j,
    {
        r.push(b[j]);
        j = j + 1;
        assert(r@ =~= a@ + b@.subrange(0, j as int));
    }
    assert(b@.subrange(0, b@.len() as int) =~= b@);
    r
}

/// `a` followed by `b`, as a string.
pub fn concat_text(a: &str, b: &str) -> (r: String)
    ensures
        r@ == a@ + b@,
{
    let ac = chars_of(a);
    let bc = chars_of(b);
    text_from(join(ac.as_slice(), bc.as_slice()).as_slice())
}

fn attribute_text(t: &[char], key: &str, default: &[char]) -> (r: Vec<char>)
    ensures
        r@ == attribute_or(t@, key@, default@),
{
    let k = chars_of(key);
    match value_after(t, k.as_slice(), 0, t.len(), ValueShape::Quoted('"')) {
        Some(v) => v,
        None => copy_range(default, 0, default.len()),
    }
}

fn chain_ends(t: &[char], marks: &Vec<Vec<char>>, pos: usize, hi: usize) -> (r: bool)
    requires
        hi <= t@.len(),
    ensures
        r == (chain_end(t@, marks@.map_values(|m: Vec<char>| m@), pos as int, hi as int) is Some),
{
    let ghost ms = marks@.map_values(|m: Vec<char>| m@);
    let mut i: usize = 0;
    let mut p: usize = pos;
    assert(ms.subrange(0, ms.len() as int) =~= ms);
    while i < marks.len()
        invariant
            i <= marks@.len(),
            hi <= t@.len(),
            ms == marks@.map_values(|m: Vec<char>| m@),
            chain_end(t@, ms, pos as int, hi as int) == chain_end(
                t@,
                ms.subrange(i as int, ms.len() as int),
                p as int,
                hi as int,
            ),
        decreases marks@.len() - i,
    {
        let m = &marks[i];
        let ghost rest = ms.subrange(i as int, ms.len() as int);
        assert(rest[0] == m@);
        assert(rest.drop_first() =~= ms.subrange(i + 1, ms.len() as int));
        match find(t, m.as_slice(), p, hi) {
            Some(q) => {
                proof {
                    lemma_find_from_found(t@, m@, p as int, hi as int);
                }
                p = q + m.len();
            },
            None => {
                return false;
            },
        }
        i = i + 1;
    }
    true
}

fn markers() -> (r: Vec<Vec<char>>)
    ensures
        r@.map_values(|m: Vec<char>| m@) == launcher_markers(),
{
    let r = vec![
        chars_of("<intent-filter>"),
        chars_of("<action android:name=\"android.intent.action.MAIN\""),
        chars_of(">"),
        chars_of("<category android:name=\"android.intent.category.LAUNCHER\""),
        chars_of(">"),
        chars_of("</intent-filter>"),
    ];
    assert(r@.map_values(|m: Vec<char>| m@) =~= launcher_markers());
    r
}

fn launcher_at_exec(t: &[char], i: usize, marks: &Vec<Vec<char>>) -> (r: Option<Vec<char>>)
    requires
        marks@.map_values(|m: Vec<char>| m@) == launcher_markers(),
    ensures
        match r {
            Some(n) => launcher_at(t@, i as int) == Some(n@),
            None => launcher_at(t@, i as int) is None,
        },
{
    let open_tag = chars_of("<activity");
    let n = t.len();
    if !matches_at(t, i, open_tag.as_slice()) {
        return None;
    }
    assert(i + open_tag@.len() <= n);
    let s = i + open_tag.len();
    let gt = chars_of(">");
    let g = match find(t, gt.as_slice(), s, t.len()) {
        Some(g) => g,
        None => return None,
    };
    proof {
        lemma_find_from_found(t@, gt@, s as int, t@.len() as int);
    }
    let key = chars_of("android:name=\"");
    let (v, e) = match first_value(t, key.as_slice(), s, g, ValueShape::Quoted('"')) {
        Some(c) => c,
        None => return None,
    };
    proof {
        lemma_capture_bounds(t@, key@, s as int, g as int, ValueShape::Quoted('"'));
    }
    let after = g + gt.len();
    let nl = chars_of("\n");
    let hi = match find(t, nl.as_slice(), after, t.len()) {
        Some(p) => p,
        None => t.len(),
    };
    proof {
        lemma_find_from_found(t@, nl@, after as int, t@.len() as int);
    }
    if chain_ends(t, marks, after, hi) {
        Some(copy_range(t, v, e))
    } else {
        None
    }
}

fn launcher_activity(t: &[char]) -> (r: Option<Vec<char>>)
    ensures
        match r {
            Some(n) => launcher_from(t@, 0) == Some(n@),
            None => launcher_from(t@, 0) is None,
        },
{
    let marks = markers();
    let mut i: usize = 0;
    while i < t.len()
        invariant
            i <= t@.len(),
            marks@.map_values(|m: Vec<char>| m@) == launcher_markers(),
            launcher_from(t@, 0) == launcher_from(t@, i as int),
        decreases t@.len() - i,
    {
        match launcher_at_exec(t, i, &marks) {
            Some(n) => {
                return Some(n);
            },
            None => {},
        }
        i = i + 1;
    }
    None
}

impl crate::parser::ApkParser {
    /// Reads the package facts out of manifest text. Each field falls back to
    /// its own default when its attribute is absent: the package to
    /// "unknown", the version name to "1.0", the version code and the minimum
    /// SDK to "1", and the target SDK to the minimum SDK that was found.
    pub fn parse_package_info(manifest_xml: &str) -> (r: PackageRecord)
        ensures
            r.package_name@ == package_of(manifest_xml@),
            r.version_name@ == attribute_or(manifest_xml@, "android:versionName=\""@, "1.0"@),
            r.version_code@ == attribute_or(manifest_xml@, "android:versionCode=\""@, "1"@),
            r.min_sdk@ == min_sdk_of(manifest_xml@),
            r.target_sdk@ == target_sdk_of(manifest_xml@),
            match r.main_activity {
                Some(a) => main_activity_of(manifest_xml@) == Some(a@),
                None => main_activity_of(manifest_xml@) is None,
            },
    {
        let t = chars_of(manifest_xml);
        let unknown = chars_of("unknown");
        let package = attribute_text(t.as_slice(), "package=\"", unknown.as_slice());
        let one_zero = chars_of("1.0");
        let one = chars_of("1");
        let version_name = attribute_text(t.as_slice(), "android:versionName=\"", one_zero.as_slice());
        let version_code = attribute_text(t.as_slice(), "android:versionCode=\"", one.as_slice());
        let min_sdk = attribute_text(t.as_slice(), "android:minSdkVersion=\"", one.as_slice());
        let target_sdk = attribute_text(t.as_slice(), "android:targetSdkVersion=\"", min_sdk.as_slice());
        let main_activity = match launcher_activity(t.as_slice()) {
            Some(n) => {
                let dot = chars_of(".");
                if contains(n.as_slice(), dot.as_slice()) {
                    Some(text_from(n.as_slice()))
                } else {
                    let prefix = join(package.as_slice(), dot.as_slice());
                    Some(text_from(join(prefix.as_slice(), n.as_slice()).as_slice()))
                }
            },
            None => None,
        };
        PackageRecord {
            package_name: text_from(package.as_slice()),
            version_name: text_from(version_name.as_slice()),
            version_code: text_from(version_code.as_slice()),
            min_sdk: text_from(min_sdk.as_slice()),
            target_sdk: text_from(target_sdk.as_slice()),
            main_activity,
        }
    }
}

} // verus!
