//! Obtaining the manifest as text, through a chain of fallbacks.
use vstd::prelude::*;
use crate::archive::{ApkArchive, EntryRead};
use crate::parser::{ApkParser, ApkParserError};
use vstd::utf8::{decode_utf8, valid_utf8};
use crate::text::{chars_of, contains, contains_text, decode_lossy, has_prefix, starts_with, utf8_lossy};

verus! {

/// Name of the manifest entry.
pub open spec fn manifest_entry() -> Seq<char> {
    "AndroidManifest.xml"@
}

/// The document used when the manifest cannot be turned into text: the root
/// element alone.
pub open spec fn minimal_manifest() -> Seq<char> {
    "<?xml version=\"1.0\" encoding=\"utf-8\"?>\n<manifest xmlns:android=\"http://schemas.android.com/apk/res/android\">\n</manifest>"@
}

/// Text that already reads as an XML manifest.
pub open spec fn looks_textual(t: Seq<char>) -> bool {
    starts_with(t, "<?xml"@) || contains_text(t, "<manifest"@)
}

/// Which fallback produced the manifest text.
#[derive(PartialEq, Eq, Structural, Clone, Copy)]
pub enum ManifestSource {
    /// The external decoder's dump.
    Decoder,
    /// The entry itself, which was already text.
    PlainText,
    /// The entry is binary XML or unreadable as text. Its tree is not
    /// decoded here, and the minimal document stands in for it.
    Placeholder,
}

pub struct ResolvedManifest {
    pub text: String,
    pub source: ManifestSource,
}

/// The kinds of failure, for contracts.
pub enum Failure {
    Unreadable,
    MissingManifest,
}

pub open spec fn opt_string(o: Option<String>) -> Option<Seq<char>> {
    match o {
        Some(s) => Some(s@),
        None => None,
    }
}

/// The manifest text that the entries and the decoder's dump give, with its
/// source.
pub open spec fn manifest_resolution(
    files: Map<Seq<char>, Option<Seq<u8>>>,
    dump: Option<Seq<char>>,
) -> Result<(Seq<char>, ManifestSource), Failure> {
    if !files.contains_key(manifest_entry()) {
        Err(Failure::MissingManifest)
    } else {
        match files[manifest_entry()] {
            None => Err(Failure::Unreadable),
            Some(b) => match dump {
                Some(d) => Ok((d, ManifestSource::Decoder)),
                None => if looks_textual(utf8_lossy(b)) {
                    Ok((utf8_lossy(b), ManifestSource::PlainText))
                } else {
                    Ok((minimal_manifest(), ManifestSource::Placeholder))
                },
            },
        }
    }
}

/// Text taken from the entry itself is that entry's UTF-8 decoding whenever
/// the entry is valid UTF-8.
pub open spec fn plain_text_decoded(
    r: Result<ResolvedManifest, ApkParserError>,
    files: Map<Seq<char>, Option<Seq<u8>>>,
) -> bool {
    match r {
        Ok(m) => m.source == ManifestSource::PlainText && files.contains_key(manifest_entry())
            && files[manifest_entry()] is Some && valid_utf8(files[manifest_entry()]->0) ==> m.text@
            == decode_utf8(files[manifest_entry()]->0),
        Err(_) => true,
    }
}

/// `r` is the outcome that `manifest_resolution` describes.
pub open spec fn resolves_as(
    r: Result<ResolvedManifest, ApkParserError>,
    expected: Result<(Seq<char>, ManifestSource), Failure>,
) -> bool {
    match expected {
        Ok((t, s)) => r matches Ok(m) && m.text@ == t && m.source == s,
        Err(Failure::MissingManifest) => r matches Err(ApkParserError::InvalidApk(_)),
        Err(Failure::Unreadable) => r matches Err(ApkParserError::Io(_)),
    }
}

pub fn minimal_manifest_text() -> (r: String)
    ensures
        r@ == minimal_manifest(),
{
    "<?xml version=\"1.0\" encoding=\"utf-8\"?>\n<manifest xmlns:android=\"http://schemas.android.com/apk/res/android\">\n</manifest>".to_string()
}

impl ApkParser {
    /// The manifest as text, with the fallback that produced it. An
    /// external decoder's dump (`dump`, when the decoder ran and succeeded)
    /// comes first; then the entry's own text when it already reads as XML;
    /// then the minimal document, whether or not the entry decodes as binary
    /// XML. The one failure of substance is a missing manifest entry.
    pub fn resolve_manifest(archive: &mut ApkArchive, dump: Option<String>) -> (r: Result<
        ResolvedManifest,
        ApkParserError,
    >)
        ensures
            final(archive).files() == old(archive).files(),
            final(archive).entries() == old(archive).entries(),
            resolves_as(r, manifest_resolution(old(archive).files(), opt_string(dump))),
            plain_text_decoded(r, old(archive).files()),
    {
        match archive.read("AndroidManifest.xml") {
            EntryRead::Missing => Err(
                ApkParserError::InvalidApk("AndroidManifest.xml not found".to_string()),
            ),
            EntryRead::Unreadable => Err(
                ApkParserError::Io("AndroidManifest.xml could not be read".to_string()),
            ),
            EntryRead::Bytes(b) => {
                match dump {
                    Some(d) => {
                        return Ok(ResolvedManifest { text: d, source: ManifestSource::Decoder });
                    },
                    None => {},
                }
                let text = decode_lossy(b.as_slice());
                let t = chars_of(text.as_str());
                if has_prefix(t.as_slice(), chars_of("<?xml").as_slice()) || contains(
                    t.as_slice(),
                    chars_of("<manifest").as_slice(),
                ) {
                    Ok(ResolvedManifest { text, source: ManifestSource::PlainText })
                } else {
                    Ok(ResolvedManifest { text: minimal_manifest_text(), source: ManifestSource::Placeholder })
                }
            },
        }
    }

    /// The manifest as text; see `resolve_manifest`.
    pub fn extract_manifest_xml(archive: &mut ApkArchive, dump: Option<String>) -> (r: Result<
        String,
        ApkParserError,
    >)
        ensures
            final(archive).files() == old(archive).files(),
            final(archive).entries() == old(archive).entries(),
            match manifest_resolution(old(archive).files(), opt_string(dump)) {
                Ok((t, _)) => r matches Ok(s) && s@ == t,
                Err(Failure::MissingManifest) => r matches Err(ApkParserError::InvalidApk(_)),
                Err(Failure::Unreadable) => r matches Err(ApkParserError::Io(_)),
            },
    {
        match Self::resolve_manifest(archive, dump) {
            Ok(m) => Ok(m.text),
            Err(e) => Err(e),
        }
    }
}

} // verus!
