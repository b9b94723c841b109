//! The launcher icon: manifest-guided paths, then conventional resource
//! paths, then any entry that looks like an icon.
use vstd::prelude::*;
use base64::Engine;
use crate::archive::{ApkArchive, EntryRead};
use crate::package_info::join;
use crate::text::{
    captured, chars_of, contains, contains_text, copy_range, ends_with, find, find_from,
    has_prefix, has_suffix, is_white_space, lemma_find_from_found, lemma_run_end_bounds,
    lemma_views_push, matches_at, occurs_at, pair_view, run_end, scan_run, starts_with, text_from,
    white_space, ValueShape,
};

verus! {

/// The standard Base64 alphabet.
pub open spec fn base64_alphabet() -> Seq<char> {
    seq!['A', 'B', 'C', 'D', 'E', 'F', 'G', 'H', 'I', 'J', 'K', 'L', 'M', 'N', 'O', 'P', 'Q', 'R', 'S', 'T', 'U', 'V', 'W', 'X', 'Y', 'Z', 'a', 'b', 'c', 'd', 'e', 'f', 'g', 'h', 'i', 'j', 'k', 'l', 'm', 'n', 'o', 'p', 'q', 'r', 's', 't', 'u', 'v', 'w', 'x', 'y', 'z', '0', '1', '2', '3', '4', '5', '6', '7', '8', '9', '+', '/']
}

pub open spec fn b64(n: int) -> char {
    base64_alphabet()[n]
}

/// Standard Base64 with `=` padding: each group of three bytes gives four
/// characters; a final group of one or two bytes is padded to four.
pub open spec fn base64_text(b: Seq<u8>) -> Seq<char>
    decreases b.len(),
{
    if b.len() == 0 {
        seq![]
    } else {
        let x0 = b[0] as int;
        let x1 = if b.len() > 1 {
            b[1] as int
        } else {
            0
        };
        let x2 = if b.len() > 2 {
            b[2] as int
        } else {
            0
        };
        let c0 = b64(x0 / 4);
        let c1 = b64((x0 % 4) * 16 + x1 / 16);
        let c2 = b64((x1 % 16) * 4 + x2 / 64);
        let c3 = b64(x2 % 64);
        if b.len() == 1 {
            seq![c0, c1, '=', '=']
        } else if b.len() == 2 {
            seq![c0, c1, c2, '=']
        } else {
            seq![c0, c1, c2, c3] + base64_text(b.subrange(3, b.len() as int))
        }
    }
}

/// Relies on base64's `STANDARD` engine `encode`: padded Base64 over the
/// standard alphabet.
#[verifier::external_body]
fn encode_base64(b: &[u8]) -> (r: String)
    ensures
        r@ == base64_text(b@),
{
    base64::engine::general_purpose::STANDARD.encode(b)
}

/// Bounds of the double-quoted, non-empty value of `attribute` written at
/// `p` as `attribute = "value"` (white space allowed around `=`), all inside
/// `[0, hi)`.
pub open spec fn attribute_value_at(t: Seq<char>, attribute: Seq<char>, p: int, hi: int) -> Option<
    (int, int),
> {
    if occurs_at(t, p, attribute) && p + attribute.len() <= hi && hi <= t.len() {
        let q1 = run_end(t, p + attribute.len(), hi, ValueShape::Blank);
        if q1 < hi && t[q1] == '=' {
            let q2 = run_end(t, q1 + 1, hi, ValueShape::Blank);
            if q2 < hi && t[q2] == '"' {
                let e = run_end(t, q2 + 1, hi, ValueShape::Quoted('"'));
                if q2 + 1 < e && e < hi {
                    Some((q2 + 1, e))
                } else {
                    None
                }
            } else {
                None
            }
        } else {
            None
        }
    } else {
        None
    }
}

/// The leftmost value of `attribute` written at or after `lo` inside `[lo, hi)`.
pub open spec fn first_attribute_value(t: Seq<char>, attribute: Seq<char>, lo: int, hi: int) -> Option<
    (int, int),
>
    decreases hi + 1 - lo,
{
    if lo < 0 || hi > t.len() || lo + attribute.len() > hi {
        None
    } else {
        match attribute_value_at(t, attribute, lo, hi) {
            Some(r) => Some(r),
            None => first_attribute_value(t, attribute, lo + 1, hi),
        }
    }
}

/// The value of `attribute` inside a `<tag` element opening at `i`: the
/// tag name must be followed by white space, and the value must be
/// double-quoted and lie before the element's first `>`.
pub open spec fn tag_attribute_at(t: Seq<char>, i: int, tag: Seq<char>, attribute: Seq<char>) -> Option<
    Seq<char>,
> {
    let open = "<"@ + tag;
    let s = i + open.len();
    if !occurs_at(t, i, open) || s >= t.len() || !is_white_space(t[s]) {
        None
    } else {
        match find_from(t, ">"@, s, t.len() as int) {
            None => None,
            Some(g) => captured(t, first_attribute_value(t, attribute, s, g)),
        }
    }
}

/// The attribute value of the leftmost `<tag` element that has one.
pub open spec fn tag_attribute_from(t: Seq<char>, i: int, tag: Seq<char>, attribute: Seq<char>) -> Option<
    Seq<char>,
>
    decreases t.len() - i,
{
    if i < 0 || i >= t.len() {
        None
    } else {
        match tag_attribute_at(t, i, tag, attribute) {
            Some(r) => Some(r),
            None => tag_attribute_from(t, i + 1, tag, attribute),
        }
    }
}

pub open spec fn icon_reference(t: Seq<char>) -> Option<Seq<char>> {
    tag_attribute_from(t, 0, "application"@, "android:icon"@)
}

pub open spec fn densities() -> Seq<Seq<char>> {
    seq!["xxxhdpi"@, "xxhdpi"@, "xhdpi"@, "hdpi"@, "mdpi"@]
}

pub open spec fn mipmap_paths(name: Seq<char>) -> Seq<Seq<char>> {
    densities().map_values(|d: Seq<char>| "res/mipmap-"@ + d + "/"@ + name + ".png"@)
}

/// Concrete paths for a symbolic `@drawable/` or `@mipmap/` reference.
pub open spec fn guided_paths(reference: Seq<char>) -> Seq<Seq<char>> {
    if starts_with(reference, "@drawable/"@) {
        seq![
            "res/drawable/"@ + reference.subrange("@drawable/"@.len() as int, reference.len() as int)
                + ".png"@,
        ]
    } else if starts_with(reference, "@mipmap/"@) {
        mipmap_paths(reference.subrange("@mipmap/"@.len() as int, reference.len() as int))
    } else {
        seq![]
    }
}

pub open spec fn manifest_paths(manifest: Option<Seq<char>>) -> Seq<Seq<char>> {
    match manifest {
        Some(t) => match icon_reference(t) {
            Some(r) => guided_paths(r),
            None => seq![],
        },
        None => seq![],
    }
}

/// The conventional icon locations, best first.
pub open spec fn conventional_paths() -> Seq<Seq<char>> {
    seq![
        "res/mipmap-xxxhdpi/ic_launcher.png"@,
        "res/mipmap-xxhdpi/ic_launcher.png"@,
        "res/mipmap-xhdpi/ic_launcher.png"@,
        "res/mipmap-hdpi/ic_launcher.png"@,
        "res/mipmap-mdpi/ic_launcher.png"@,
        "res/mipmap-xxxhdpi/ic_launcher_round.png"@,
        "res/mipmap-xxhdpi/ic_launcher_round.png"@,
        "res/mipmap-xhdpi/ic_launcher_round.png"@,
        "res/mipmap-hdpi/ic_launcher_round.png"@,
        "res/mipmap-mdpi/ic_launcher_round.png"@,
        "res/mipmap-xxxhdpi/ic_launcher_foreground.png"@,
        "res/mipmap-xxhdpi/ic_launcher_foreground.png"@,
        "res/mipmap-xhdpi/ic_launcher_foreground.png"@,
        "res/mipmap-hdpi/ic_launcher_foreground.png"@,
        "res/mipmap-mdpi/ic_launcher_foreground.png"@,
        "res/drawable/ic_launcher.png"@,
        "res/drawable-xxxhdpi/ic_launcher.png"@,
        "res/drawable-xxhdpi/ic_launcher.png"@,
        "res/drawable-xhdpi/ic_launcher.png"@,
        "res/drawable-hdpi/ic_launcher.png"@,
        "res/drawable-mdpi/ic_launcher.png"@,
        "res/mipmap-xxxhdpi/icon.png"@,
        "res/mipmap-xxhdpi/icon.png"@,
        "res/mipmap-xhdpi/icon.png"@,
        "res/mipmap-hdpi/icon.png"@,
        "res/mipmap-mdpi/icon.png"@,
        "res/drawable/icon.png"@,
        "res/drawable-xxxhdpi/icon.png"@,
        "res/drawable-xxhdpi/icon.png"@,
        "res/drawable-xhdpi/icon.png"@,
        "res/drawable-hdpi/icon.png"@,
        "res/drawable-mdpi/icon.png"@,
        "res/drawable/app_icon.png"@,
        "assets/icon.png"@,
        "assets/app_icon.png"@,
        "assets/icons/app_icon.png"@,
        "assets/images/icon.png"@,
        "res/mipmap-xxxhdpi/ic_launcher.webp"@,
        "res/mipmap-xxhdpi/ic_launcher.webp"@,
        "res/mipmap-xhdpi/ic_launcher.webp"@,
        "res/mipmap-hdpi/ic_launcher.webp"@,
        "res/mipmap-mdpi/ic_launcher.webp"@,
        "res/drawable/ic_launcher.webp"@,
        "res/drawable/ic_launcher.jpg"@,
        "res/drawable/icon.jpg"@,
    ]
}

pub open spec fn icon_candidates(manifest: Option<Seq<char>>) -> Seq<Seq<char>> {
    manifest_paths(manifest) + conventional_paths()
}

/// Bytes of the first candidate at or after `k` that exists and reads.
pub open spec fn first_readable(
    files: Map<Seq<char>, Option<Seq<u8>>>,
    cands: Seq<Seq<char>>,
    k: int,
) -> Option<Seq<u8>>
    decreases cands.len() - k,
{
    if k < 0 || k >= cands.len() {
        None
    } else if files.contains_key(cands[k]) && files[cands[k]] is Some {
        files[cands[k]]
    } else {
        first_readable(files, cands, k + 1)
    }
}

/// An entry name that looks like an icon image.
pub open spec fn looks_like_icon(name: Seq<char>) -> bool {
    (contains_text(name, "/icon"@) || contains_text(name, "/ic_launcher"@) || contains_text(
        name,
        "/app_icon"@,
    ) || contains_text(name, "/logo"@)) && (ends_with(name, ".png"@) || ends_with(name, ".webp"@)
        || ends_with(name, ".jpg"@) || ends_with(name, ".jpeg"@))
}

pub open spec fn entry_name(e: (Seq<char>, Option<Seq<u8>>)) -> Seq<char> {
    e.0
}

pub open spec fn entry_data(e: (Seq<char>, Option<Seq<u8>>)) -> Option<Seq<u8>> {
    e.1
}

/// Bytes of the first readable icon-like entry at index `i` or later.
pub open spec fn first_icon_entry(entries: Seq<Option<(Seq<char>, Option<Seq<u8>>)>>, i: int) -> Option<
    Seq<u8>,
>
    decreases entries.len() - i,
{
    if i < 0 || i >= entries.len() {
        None
    } else if entries[i] is Some && looks_like_icon(entry_name(entries[i]->0)) && entry_data(
        entries[i]->0,
    ) is Some {
        entry_data(entries[i]->0)
    } else {
        first_icon_entry(entries, i + 1)
    }
}

pub open spec fn icon_bytes(
    files: Map<Seq<char>, Option<Seq<u8>>>,
    entries: Seq<Option<(Seq<char>, Option<Seq<u8>>)>>,
    manifest: Option<Seq<char>>,
) -> Option<Seq<u8>> {
    match first_readable(files, icon_candidates(manifest), 0) {
        Some(d) => Some(d),
        None => first_icon_entry(entries, 0),
    }
}

pub open spec fn opt_str(o: Option<&str>) -> Option<Seq<char>> {
    match o {
        Some(s) => Some(s@),
        None => None,
    }
}

fn tag_attribute_exec(
    t: &[char],
    i: usize,
    open: &[char],
    key: &[char],
    Ghost(tag): Ghost<Seq<char>>,
    Ghost(attribute): Ghost<Seq<char>>,
) -> (r: Option<Vec<char>>)
    requires
        open@ == "<"@ + tag,
        key@ == attribute,
    ensures
        match r {
            Some(v) => tag_attribute_at(t@, i as int, tag, attribute) == Some(v@),
            None => tag_attribute_at(t@, i as int, tag, attribute) is None,
        },
{
    let n = t.len();
    if !matches_at(t, i, open) {
        return None;
    }
    assert(i + open@.len() <= n);
    let s = i + open.len();
    if s >= t.len() || !white_space(t[s]) {
        return None;
    }
    let gt = chars_of(">");
    let g = match find(t, gt.as_slice(), s, t.len()) {
        Some(g) => g,
        None => return None,
    };
    proof {
        lemma_find_from_found(t@, gt@, s as int, t@.len() as int);
    }
    match first_attribute(t, key, s, g) {
        Some((v, e)) => Some(copy_range(t, v, e)),
        None => None,
    }
}

fn attribute_at(t: &[char], key: &[char], p: usize, hi: usize) -> (r: Option<(usize, usize)>)
    ensures
        pair_view(r) == attribute_value_at(t@, key@, p as int, hi as int),
        r matches Some((v, e)) ==> v < e < hi <= t@.len(),
{
    if hi > t.len() || p > hi || key.len() > hi - p || !matches_at(t, p, key) {
        return None;
    }
    let q1 = scan_run(t, p + key.len(), hi, ValueShape::Blank);
    proof {
        lemma_run_end_bounds(t@, p + key@.len(), hi as int, ValueShape::Blank);
    }
    if !(q1 < hi && t[q1] == '=') {
        return None;
    }
    let q2 = scan_run(t, q1 + 1, hi, ValueShape::Blank);
    proof {
        lemma_run_end_bounds(t@, q1 + 1, hi as int, ValueShape::Blank);
    }
    if !(q2 < hi && t[q2] == '"') {
        return None;
    }
    let e = scan_run(t, q2 + 1, hi, ValueShape::Quoted('"'));
    proof {
        lemma_run_end_bounds(t@, q2 + 1, hi as int, ValueShape::Quoted('"'));
    }
    if q2 + 1 < e && e < hi {
        Some((q2 + 1, e))
    } else {
        None
    }
}

fn first_attribute(t: &[char], key: &[char], lo: usize, hi: usize) -> (r: Option<(usize, usize)>)
    ensures
        pair_view(r) == first_attribute_value(t@, key@, lo as int, hi as int),
        r matches Some((v, e)) ==> v < e < hi <= t@.len(),
{
    if hi > t.len() || key.len() > hi {
        return None;
    }
    let last = hi - key.len();
    let mut i: usize = lo;
    while i <= last
        invariant
            lo <= i,
            hi <= t.len(),
            last + key.len() == hi,
            first_attribute_value(t@, key@, lo as int, hi as int) == first_attribute_value(
                t@,
                key@,
                i as int,
                hi as int,
            ),
        decreases last - i,
    {
        let c = attribute_at(t, key, i, hi);
        if c.is_some() {
            return c;
        }
        if i == last {
            assert(first_attribute_value(t@, key@, i + 1, hi as int) is None);
            return None;
        }
        i = i + 1;
    }
    None
}

fn tag_attribute(t: &[char], tag: &str, attribute: &str) -> (r: Option<Vec<char>>)
    ensures
        match r {
            Some(v) => tag_attribute_from(t@, 0, tag@, attribute@) == Some(v@),
            None => tag_attribute_from(t@, 0, tag@, attribute@) is None,
        },
{
    let open = join(chars_of("<").as_slice(), chars_of(tag).as_slice());
    let key = chars_of(attribute);
    let mut i: usize = 0;
    while i < t.len()
        invariant
            i <= t@.len(),
            open@ == "<"@ + tag@,
            key@ == attribute@,
            tag_attribute_from(t@, 0, tag@, attribute@) == tag_attribute_from(
                t@,
                i as int,
                tag@,
                attribute@,
            ),
        decreases t@.len() - i,
    {
        match tag_attribute_exec(t, i, open.as_slice(), key.as_slice(), Ghost(tag@), Ghost(attribute@)) {
            Some(v) => {
                return Some(v);
            },
            None => {},
        }
        i = i + 1;
    }
    None
}

fn concat3(a: &str, b: &[char], c: &str) -> (r: String)
    ensures
        r@ == a@ + b@ + c@,
{
    let ac = chars_of(a);
    let cc = chars_of(c);
    let ab = join(ac.as_slice(), b);
    text_from(join(ab.as_slice(), cc.as_slice()).as_slice())
}

fn guided_paths_exec(reference: &[char]) -> (r: Vec<String>)
    ensures
        r@.map_values(|s: String| s@) == guided_paths(reference@),
{
    let drawable = chars_of("@drawable/");
    let mipmap = chars_of("@mipmap/");
    let mut r: Vec<String> = Vec::new();
    if has_prefix(reference, drawable.as_slice()) {
        let name = copy_range(reference, drawable.len(), reference.len());
        r.push(concat3("res/drawable/", name.as_slice(), ".png"));
        assert(r@.map_values(|s: String| s@) =~= guided_paths(reference@));
    } else if has_prefix(reference, mipmap.as_slice()) {
        let name = copy_range(reference, mipmap.len(), reference.len());
        let ds = vec!["xxxhdpi", "xxhdpi", "xhdpi", "hdpi", "mdpi"];
        assert(ds@.map_values(|d: &str| d@) =~= densities());
        let mut k: usize = 0;
        while k < ds.len()
            invariant
                k <= ds@.len(),
                ds@.map_values(|d: &str| d@) == densities(),
                r@.map_values(|s: String| s@) == mipmap_paths(name@).subrange(0, k as int),
            decreases ds@.len() - k,
        {
            let ghost before = r@;
            let dir = concat3("res/mipmap-", chars_of(ds[k]).as_slice(), "/");
            let path = concat3(dir.as_str(), name.as_slice(), ".png");
            proof {
                assert(densities()[k as int] == ds@[k as int]@);
                assert(mipmap_paths(name@)[k as int] == path@);
            }
            r.push(path);
            proof {
                lemma_views_push(before, path);
                assert(mipmap_paths(name@).subrange(0, k + 1) =~= mipmap_paths(name@).subrange(
                    0,
                    k as int,
                ).push(path@));
            }
            k = k + 1;
        }
        assert(mipmap_paths(name@).subrange(0, 5) =~= mipmap_paths(name@));
    } else {
        assert(r@.map_values(|s: String| s@) =~= guided_paths(reference@));
    }
    r
}

fn conventional_list() -> (r: Vec<&'static str>)
    ensures
        r@.map_values(|p: &'static str| p@) == conventional_paths(),
{
    let r = vec![
        "res/mipmap-xxxhdpi/ic_launcher.png",
        "res/mipmap-xxhdpi/ic_launcher.png",
        "res/mipmap-xhdpi/ic_launcher.png",
        "res/mipmap-hdpi/ic_launcher.png",
        "res/mipmap-mdpi/ic_launcher.png",
        "res/mipmap-xxxhdpi/ic_launcher_round.png",
        "res/mipmap-xxhdpi/ic_launcher_round.png",
        "res/mipmap-xhdpi/ic_launcher_round.png",
        "res/mipmap-hdpi/ic_launcher_round.png",
        "res/mipmap-mdpi/ic_launcher_round.png",
        "res/mipmap-xxxhdpi/ic_launcher_foreground.png",
        "res/mipmap-xxhdpi/ic_launcher_foreground.png",
        "res/mipmap-xhdpi/ic_launcher_foreground.png",
        "res/mipmap-hdpi/ic_launcher_foreground.png",
        "res/mipmap-mdpi/ic_launcher_foreground.png",
        "res/drawable/ic_launcher.png",
        "res/drawable-xxxhdpi/ic_launcher.png",
        "res/drawable-xxhdpi/ic_launcher.png",
        "res/drawable-xhdpi/ic_launcher.png",
        "res/drawable-hdpi/ic_launcher.png",
        "res/drawable-mdpi/ic_launcher.png",
        "res/mipmap-xxxhdpi/icon.png",
        "res/mipmap-xxhdpi/icon.png",
        "res/mipmap-xhdpi/icon.png",
        "res/mipmap-hdpi/icon.png",
        "res/mipmap-mdpi/icon.png",
        "res/drawable/icon.png",
        "res/drawable-xxxhdpi/icon.png",
        "res/drawable-xxhdpi/icon.png",
        "res/drawable-xhdpi/icon.png",
        "res/drawable-hdpi/icon.png",
        "res/drawable-mdpi/icon.png",
        "res/drawable/app_icon.png",
        "assets/icon.png",
        "assets/app_icon.png",
        "assets/icons/app_icon.png",
        "assets/images/icon.png",
        "res/mipmap-xxxhdpi/ic_launcher.webp",
        "res/mipmap-xxhdpi/ic_launcher.webp",
        "res/mipmap-xhdpi/ic_launcher.webp",
        "res/mipmap-hdpi/ic_launcher.webp",
        "res/mipmap-mdpi/ic_launcher.webp",
        "res/drawable/ic_launcher.webp",
        "res/drawable/ic_launcher.jpg",
        "res/drawable/icon.jpg",
    ];
    assert(r@.map_values(|p: &'static str| p@) =~= conventional_paths());
    r
}

/// The full candidate list for a manifest, guided paths first.
pub fn candidate_paths(manifest: Option<&str>) -> (r: Vec<String>)
    ensures
        r@.map_values(|s: String| s@) == icon_candidates(opt_str(manifest)),
{
    let mut r: Vec<String> = match manifest {
        Some(m) => {
            let t = chars_of(m);
            match tag_attribute(t.as_slice(), "application", "android:icon") {
                Some(reference) => guided_paths_exec(reference.as_slice()),
                None => Vec::new(),
            }
        },
        None => Vec::new(),
    };
    let ghost guided = r@.map_values(|s: String| s@);
    assert(guided == manifest_paths(opt_str(manifest)));
    let fixed = conventional_list();
    let mut k: usize = 0;
    while k < fixed.len()
        invariant
            k <= fixed@.len(),
            fixed@.map_values(|p: &'static str| p@) == conventional_paths(),
            r@.map_values(|s: String| s@) == guided + conventional_paths().subrange(0, k as int),
        decreases fixed@.len() - k,
    {
        let ghost before = r@;
        let p = fixed[k].to_string();
        proof {
            assert(conventional_paths()[k as int] == fixed@[k as int]@);
            assert(p@ == fixed@[k as int]@);
        }
        r.push(p);
        proof {
            lemma_views_push(before, p);
            assert(guided + conventional_paths().subrange(0, k + 1) =~= (guided
                + conventional_paths().subrange(0, k as int)).push(p@));
        }
        k = k + 1;
    }
    assert(conventional_paths().subrange(0, fixed@.len() as int) =~= conventional_paths());
    r
}

/// Whether an entry name looks like an icon image.
pub fn is_icon_name(name: &str) -> (r: bool)
    ensures
        r == looks_like_icon(name@),
{
    let n = chars_of(name);
    let s = n.as_slice();
    let marked = contains(s, chars_of("/icon").as_slice()) || contains(
        s,
        chars_of("/ic_launcher").as_slice(),
    ) || contains(s, chars_of("/app_icon").as_slice()) || contains(s, chars_of("/logo").as_slice());
    let image = has_suffix(s, chars_of(".png").as_slice()) || has_suffix(
        s,
        chars_of(".webp").as_slice(),
    ) || has_suffix(s, chars_of(".jpg").as_slice()) || has_suffix(s, chars_of(".jpeg").as_slice());
    marked && image
}

impl crate::parser::ApkParser {
    /// The value of `attribute` on the first `<tag` element that carries it
    /// (double-quoted, before the element's closing `>`).
    pub fn extract_from_manifest(manifest: &str, tag: &str, attribute: &str) -> (r: Option<String>)
        ensures
            match r {
                Some(v) => tag_attribute_from(manifest@, 0, tag@, attribute@) == Some(v@),
                None => tag_attribute_from(manifest@, 0, tag@, attribute@) is None,
            },
    {
        let t = chars_of(manifest);
        match tag_attribute(t.as_slice(), tag, attribute) {
            Some(v) => Some(text_from(v.as_slice())),
            None => None,
        }
    }

    /// The launcher icon as Base64 text: the first candidate path that exists
    /// and reads, else the first readable entry that looks like an icon, in
    /// container order; `None` when there is neither.
    pub fn extract_icon(archive: &mut ApkArchive, manifest: Option<&str>) -> (r: Option<String>)
        ensures
            final(archive).files() == old(archive).files(),
            final(archive).entries() == old(archive).entries(),
            match icon_bytes(old(archive).files(), old(archive).entries(), opt_str(manifest)) {
                Some(d) => r matches Some(s) && s@ == base64_text(d),
                None => r is None,
            },
    {
        let cands = candidate_paths(manifest);
        let ghost cs = cands@.map_values(|s: String| s@);
        let ghost files = archive.files();
        let ghost entries = archive.entries();
        let mut k: usize = 0;
        while k < cands.len()
            invariant
                k <= cands@.len(),
                cs == cands@.map_values(|s: String| s@),
                cs == icon_candidates(opt_str(manifest)),
                archive.files() == files,
                archive.entries() == entries,
                files == old(archive).files(),
                entries == old(archive).entries(),
                first_readable(files, cs, 0) == first_readable(files, cs, k as int),
            decreases cands@.len() - k,
        {
            assert(cs[k as int] == cands@[k as int]@);
            match archive.read(cands[k].as_str()) {
                EntryRead::Bytes(d) => {
                    return Some(encode_base64(d.as_slice()));
                },
                _ => {},
            }
            k = k + 1;
        }
        let n = archive.len();
        let mut i: usize = 0;
        while i < n
            invariant
                i <= n,
                n == entries.len(),
                archive.files() == files,
                archive.entries() == entries,
                files == old(archive).files(),
                entries == old(archive).entries(),
                first_readable(files, cs, 0) is None,
                cs == icon_candidates(opt_str(manifest)),
                first_icon_entry(entries, 0) == first_icon_entry(entries, i as int),
            decreases n - i,
        {
            match archive.name_at(i) {
                Some(name) => {
                    if is_icon_name(name.as_str()) {
                        match archive.read_at(i) {
                            Some(d) => {
                                return Some(encode_base64(d.as_slice()));
                            },
                            None => {},
                        }
                    }
                },
                None => {},
            }
            i = i + 1;
        }
        None
    }
}

} // verus!
