//! The package parser: runs the extractors in order and assembles one record.
use vstd::prelude::*;
use crate::archive::{opens_as_zip, zip_entries_of, zip_files_of, ApkArchive};
use crate::badging::{badging_facts, badging_signature, parse_badging};
use crate::clock::unix_now;
use crate::digest::{describes_file, FileInfo};
use crate::icon::{base64_text, icon_bytes};
use crate::manifest::{manifest_entry, manifest_resolution, opt_string, Failure};
use crate::package_info::{
    attribute_or, concat_text, main_activity_of, min_sdk_of, package_of, target_sdk_of,
};
use crate::permission::{declared_permissions, is_dangerous_name, Permission};
use crate::signature::{signature_of, SignatureInfo};

verus! {

/// Why a package could not be parsed.
pub enum ApkParserError {
    /// The package file, or an entry of it, could not be read.
    Io(String),
    /// The package is not a ZIP container.
    Zip(String),
    /// The package lacks its manifest entry.
    InvalidApk(String),
}

impl ApkParserError {
    /// A one-line description of the error.
    pub fn message(&self) -> (r: String)
        ensures
            r@ == match self {
                ApkParserError::Io(m) => "I/O error: "@ + m@,
                ApkParserError::Zip(m) => "ZIP error: "@ + m@,
                ApkParserError::InvalidApk(m) => "invalid APK: "@ + m@,
            },
    {
        match self {
            ApkParserError::Io(m) => concat_text("I/O error: ", m.as_str()),
            ApkParserError::Zip(m) => concat_text("ZIP error: ", m.as_str()),
            ApkParserError::InvalidApk(m) => concat_text("invalid APK: ", m.as_str()),
        }
    }
}

/// Entry point of the extraction pipeline.
pub struct ApkParser;

/// Everything learnt of one package.
pub struct ApkInfo {
    pub package_name: String,
    pub version_name: String,
    pub version_code: String,
    pub min_sdk: String,
    pub target_sdk: String,
    pub signature_info: Option<SignatureInfo>,
    pub permissions: Option<Vec<Permission>>,
    pub file_info: Option<FileInfo>,
    pub main_activity: Option<String>,
    pub icon_base64: Option<String>,
}

/// `ps` lists `names` in order, each classified against the runtime set.
pub open spec fn lists_permissions(ps: Seq<Permission>, names: Seq<Seq<char>>) -> bool {
    &&& ps.len() == names.len()
    &&& forall|k: int|
        0 <= k < ps.len() ==> (#[trigger] ps[k]).name@ == names[k] && ps[k].is_dangerous
            == is_dangerous_name(names[k])
}

/// `icon` is the Base64 form of `bytes`, or absent with it.
pub open spec fn icon_matches(icon: Option<String>, bytes: Option<Seq<u8>>) -> bool {
    match bytes {
        Some(d) => icon matches Some(s) && s@ == base64_text(d),
        None => icon is None,
    }
}

/// An entry count as the record stores it.
pub open spec fn stored_count(n: nat) -> u32 {
    if n > u32::MAX {
        u32::MAX
    } else {
        n as u32
    }
}

/// The record that the internal pipeline builds from manifest text `t`.
pub open spec fn internal_record(
    info: ApkInfo,
    t: Seq<char>,
    files: Map<Seq<char>, Option<Seq<u8>>>,
    entries: Seq<Option<(Seq<char>, Option<Seq<u8>>)>>,
    data: Seq<u8>,
    now: int,
) -> bool {
    &&& info.package_name@ == package_of(t)
    &&& info.version_name@ == attribute_or(t, "android:versionName=\""@, "1.0"@)
    &&& info.version_code@ == attribute_or(t, "android:versionCode=\""@, "1"@)
    &&& info.min_sdk@ == min_sdk_of(t)
    &&& info.target_sdk@ == target_sdk_of(t)
    &&& match info.main_activity {
        Some(a) => main_activity_of(t) == Some(a@),
        None => main_activity_of(t) is None,
    }
    &&& info.signature_info matches Some(s) && s@ == signature_of(files, now)
    &&& info.permissions matches Some(ps) && lists_permissions(ps@, declared_permissions(t))
    &&& info.file_info matches Some(fi) && describes_file(fi, data, stored_count(entries.len()))
    &&& icon_matches(info.icon_base64, icon_bytes(files, entries, Some(t)))
}

/// `r` is what the internal pipeline returns for a container with these
/// entries, the file bytes `data`, the decoder's dump and the time `now`.
pub open spec fn archive_outcome(
    r: Result<ApkInfo, ApkParserError>,
    files: Map<Seq<char>, Option<Seq<u8>>>,
    entries: Seq<Option<(Seq<char>, Option<Seq<u8>>)>>,
    data: Seq<u8>,
    dump: Option<Seq<char>>,
    now: int,
) -> bool {
    match manifest_resolution(files, dump) {
        Err(Failure::MissingManifest) => r matches Err(ApkParserError::InvalidApk(_)),
        Err(Failure::Unreadable) => r matches Err(ApkParserError::Io(_)),
        Ok((t, _)) => r matches Ok(info) && internal_record(info, t, files, entries, data, now),
    }
}

/// The manifest text that the icon search is guided by, if any.
pub open spec fn guiding_manifest(
    files: Map<Seq<char>, Option<Seq<u8>>>,
    dump: Option<Seq<char>>,
) -> Option<Seq<char>> {
    match manifest_resolution(files, dump) {
        Ok((t, _)) => Some(t),
        Err(_) => None,
    }
}

/// The record that the badging path builds from decoder output `t`.
/// The contents of a container, by name and by index.
pub type Contents = (Map<Seq<char>, Option<Seq<u8>>>, Seq<Option<(Seq<char>, Option<Seq<u8>>)>>);

pub open spec fn contents_of(archive: Option<ApkArchive>) -> Option<Contents> {
    match archive {
        Some(a) => Some((a.files(), a.entries())),
        None => None,
    }
}

/// The contents of the container that `data` opens as, if it opens as one.
pub open spec fn package_contents(data: Seq<u8>) -> Option<Contents> {
    if opens_as_zip(data) {
        Some((zip_files_of(data), zip_entries_of(data)))
    } else {
        None
    }
}

pub open spec fn badging_record(
    info: ApkInfo,
    t: Seq<char>,
    archive: Option<Contents>,
    data: Seq<u8>,
    dump: Option<Seq<char>>,
    now: int,
) -> bool {
    &&& info.permissions matches Some(ps) && badging_facts(
        info.package_name@,
        info.version_name@,
        info.version_code@,
        info.min_sdk@,
        info.target_sdk@,
        ps@,
        info.main_activity,
        t,
    )
    &&& info.file_info matches Some(fi) && describes_file(fi, data, 0)
    &&& match badging_signature(t) {
        Some(v) => info.signature_info matches Some(s) && s@ == v,
        None => match archive {
            Some((files, _)) => info.signature_info matches Some(s) && s@ == signature_of(
                files,
                now,
            ),
            None => info.signature_info is None,
        },
    }
    &&& match archive {
        Some((files, entries)) => icon_matches(
            info.icon_base64,
            icon_bytes(files, entries, guiding_manifest(files, dump)),
        ),
        None => info.icon_base64 is None,
    }
}

/// Whatever a decoder's dump says, a container without a manifest entry
/// resolves to the missing-manifest failure.
pub proof fn lemma_missing_manifest_rejected(
    files: Map<Seq<char>, Option<Seq<u8>>>,
    dump: Option<Seq<char>>,
)
    requires
        !files.contains_key(manifest_entry()),
    ensures
        manifest_resolution(files, dump) == Err::<(Seq<char>, crate::manifest::ManifestSource), Failure>(Failure::MissingManifest),
{
}

fn entry_count_of(archive: &ApkArchive) -> (r: u32)
    ensures
        r == stored_count(archive.entries().len()),
{
    let n = archive.len();
    if n > 4294967295usize {
        u32::MAX
    } else {
        n as u32
    }
}

impl ApkParser {
    /// The internal pipeline on an opened container whose file bytes are
    /// `data`: manifest, package facts, signature, permissions, icon and
    /// digests. It fails only when the manifest entry is missing (invalid
    /// package) or cannot be read (I/O), and then returns no record.
    pub fn analyze_archive(archive: &mut ApkArchive, data: &[u8], dump: Option<String>, now: i64) -> (r: Result<
        ApkInfo,
        ApkParserError,
    >)
        ensures
            final(archive).files() == old(archive).files(),
            final(archive).entries() == old(archive).entries(),
            !old(archive).files().contains_key(manifest_entry()) ==> r matches Err(
                ApkParserError::InvalidApk(_),
            ),
            archive_outcome(
                r,
                old(archive).files(),
                old(archive).entries(),
                data@,
                opt_string(dump),
                now as int,
            ),
    {
        let manifest = match Self::extract_manifest_xml(archive, dump) {
            Ok(m) => m,
            Err(e) => {
                return Err(e);
            },
        };
        let record = Self::parse_package_info(manifest.as_str());
        let signature_info = Self::signature_info_at(archive, now);
        let permissions = Self::parse_permissions(manifest.as_str());
        let icon_base64 = Self::extract_icon(archive, Some(manifest.as_str()));
        let count = entry_count_of(archive);
        let file_info = Self::file_info(data, count);
        Ok(
            ApkInfo {
                package_name: record.package_name,
                version_name: record.version_name,
                version_code: record.version_code,
                min_sdk: record.min_sdk,
                target_sdk: record.target_sdk,
                signature_info: Some(signature_info),
                permissions: Some(permissions),
                file_info: Some(file_info),
                main_activity: record.main_activity,
                icon_base64,
            },
        )
    }

    /// The badging path: package facts from the decoder's badging output,
    /// the signer from that output or else from the container, and the icon
    /// and digests from the package itself. `archive` is the opened container,
    /// absent when the package does not open as one. It always yields a record.
    pub fn analyze_badging(
        output: &str,
        archive: Option<ApkArchive>,
        data: &[u8],
        dump: Option<String>,
        now: i64,
    ) -> (r: ApkInfo)
        ensures
            badging_record(r, output@, contents_of(archive), data@, opt_string(dump), now as int),
    {
        let facts = parse_badging(output);
        let mut archive = archive;
        let signature_info = match facts.signature_info {
            Some(s) => Some(s),
            None => match &mut archive {
                Some(a) => Some(Self::signature_info_at(a, now)),
                None => None,
            },
        };
        let icon_base64 = match &mut archive {
            Some(a) => {
                let guide = match Self::extract_manifest_xml(a, dump) {
                    Ok(m) => Some(m),
                    Err(_) => None,
                };
                match guide {
                    Some(m) => Self::extract_icon(a, Some(m.as_str())),
                    None => Self::extract_icon(a, None),
                }
            },
            None => None,
        };
        let file_info = Self::file_info(data, 0);
        ApkInfo {
            package_name: facts.package_name,
            version_name: facts.version_name,
            version_code: facts.version_code,
            min_sdk: facts.min_sdk,
            target_sdk: facts.target_sdk,
            signature_info,
            permissions: Some(facts.permissions),
            file_info: Some(file_info),
            main_activity: facts.main_activity,
            icon_base64,
        }
    }
}

impl ApkParser {
    /// Parses a package from its file bytes. `badging` is the external
    /// decoder's badging dump and `dump` its manifest dump, each present only
    /// when the decoder ran and succeeded. With a badging dump the record
    /// always comes back; without one the bytes must open as a ZIP container
    /// holding a manifest entry.
    pub fn parse(data: &[u8], badging: Option<String>, dump: Option<String>) -> (r: Result<
        ApkInfo,
        ApkParserError,
    >)
        ensures
            match badging {
                Some(b) => r matches Ok(info) && exists|t: int|
                    #[trigger] badging_record(
                        info,
                        b@,
                        package_contents(data@),
                        data@,
                        opt_string(dump),
                        t,
                    ),
                None => {
                    &&& (r matches Err(ApkParserError::Zip(_))) == !opens_as_zip(data@)
                    &&& opens_as_zip(data@) ==> exists|t: int|
                        #[trigger] archive_outcome(
                            r,
                            zip_files_of(data@),
                            zip_entries_of(data@),
                            data@,
                            opt_string(dump),
                            t,
                        )
                },
            },
    {
        let now = unix_now();
        let opened = ApkArchive::open(data);
        match badging {
            Some(out) => {
                let container = match opened {
                    Ok(a) => Some(a),
                    Err(_) => None,
                };
                let ghost c = container;
                assert(contents_of(c) == package_contents(data@));
                let info = Self::analyze_badging(out.as_str(), container, data, dump, now);
                assert(badging_record(
                    info,
                    out@,
                    package_contents(data@),
                    data@,
                    opt_string(dump),
                    now as int,
                ));
                Ok(info)
            },
            None => match opened {
                Ok(a) => {
                    let mut a = a;
                    let ghost before = a;
                    let r = Self::analyze_archive(&mut a, data, dump, now);
                    assert(archive_outcome(
                        r,
                        before.files(),
                        before.entries(),
                        data@,
                        opt_string(dump),
                        now as int,
                    ));
                    r
                },
                Err(e) => Err(ApkParserError::Zip(e)),
            },
        }
    }
}

} // verus!
