//! The signing certificate, recovered from the archive's signature block.
use vstd::prelude::*;
use x509_parser::prelude::FromDer;
use x509_parser::certificate::X509Certificate;
use crate::archive::{ApkArchive, EntryRead};
use crate::clock::{
    date_text, display_date, display_date_months_later, display_date_next_day, months_later_text,
    unix_now,
};
use crate::digest::{
    colon_hex, hex_lower, sha1_bytes, sha1_digest, sha256_bytes, sha256_digest, to_colon_hex,
    to_hex,
};
use crate::package_info::join;
use crate::text::{
    chars_of, decode_lossy, find, find_from, has_prefix, has_suffix, copy_range, ends_with,
    is_white_space, lemma_find_from_found, starts_with, text_from, utf8_lossy, white_space,
};

verus! {

/// What was learnt of the signer.
pub struct SignatureInfo {
    pub issuer: String,
    pub subject: String,
    pub valid_from: String,
    pub valid_to: String,
    pub fingerprint_sha1: Option<String>,
    pub fingerprint_sha256: Option<String>,
}

pub struct SignatureView {
    pub issuer: Seq<char>,
    pub subject: Seq<char>,
    pub valid_from: Seq<char>,
    pub valid_to: Seq<char>,
    pub fingerprint_sha1: Option<Seq<char>>,
    pub fingerprint_sha256: Option<Seq<char>>,
}

pub open spec fn opt_text(o: Option<String>) -> Option<Seq<char>> {
    match o {
        Some(s) => Some(s@),
        None => None,
    }
}

impl View for SignatureInfo {
    type V = SignatureView;

    open spec fn view(&self) -> SignatureView {
        SignatureView {
            issuer: self.issuer@,
            subject: self.subject@,
            valid_from: self.valid_from@,
            valid_to: self.valid_to@,
            fingerprint_sha1: opt_text(self.fingerprint_sha1),
            fingerprint_sha256: opt_text(self.fingerprint_sha256),
        }
    }
}

/// The fields of a parsed certificate that the record shows.
pub struct CertificateFields {
    pub issuer: String,
    pub subject: String,
    pub not_before: Option<String>,
    pub not_after: Option<String>,
    pub tbs: Vec<u8>,
}

pub uninterp spec fn is_der_certificate(der: Seq<u8>) -> bool;

pub uninterp spec fn cert_issuer(der: Seq<u8>) -> Seq<char>;

pub uninterp spec fn cert_subject(der: Seq<u8>) -> Seq<char>;

pub uninterp spec fn cert_not_before(der: Seq<u8>) -> Option<Seq<char>>;

pub uninterp spec fn cert_not_after(der: Seq<u8>) -> Option<Seq<char>>;

pub uninterp spec fn cert_tbs(der: Seq<u8>) -> Seq<u8>;

/// Relies on x509-parser: `X509Certificate::from_der` parses (and does not
/// validate) a DER certificate; issuer and subject are `X509Name`'s display
/// form, the validity bounds `ASN1Time::to_rfc2822`, and the to-be-signed
/// bytes `TbsCertificate::as_ref`.
#[verifier::external_body]
fn parse_certificate(der: &[u8]) -> (r: Option<CertificateFields>)
    ensures
        r is Some == is_der_certificate(der@),
        r matches Some(c) ==> c.issuer@ == cert_issuer(der@) && c.subject@ == cert_subject(der@)
            && opt_text(c.not_before) == cert_not_before(der@) && opt_text(c.not_after)
            == cert_not_after(der@) && c.tbs@ == cert_tbs(der@),
{
    match X509Certificate::from_der(der) {
        Ok((_, cert)) => {
            let tbs = &cert.tbs_certificate;
            Some(CertificateFields {
                issuer: tbs.issuer.to_string(),
                subject: tbs.subject.to_string(),
                not_before: tbs.validity.not_before.to_rfc2822().ok(),
                not_after: tbs.validity.not_after.to_rfc2822().ok(),
                tbs: tbs.as_ref().to_vec(),
            })
        },
        Err(_) => None,
    }
}

/// The signature-related entries, in the order they are looked for.
pub open spec fn signature_paths() -> Seq<Seq<char>> {
    seq![
        "META-INF/CERT.RSA"@,
        "META-INF/CERT.DSA"@,
        "META-INF/CERT.EC"@,
        "META-INF/ANDROID.RSA"@,
        "META-INF/ANDROIDD.RSA"@,
        "META-INF/CERT.SF"@,
        "META-INF/MANIFEST.MF"@,
    ]
}

pub open spec fn or_unknown(o: Option<Seq<char>>) -> Seq<char> {
    match o {
        Some(s) => s,
        None => "unknown"@,
    }
}

/// `s` without its trailing white space.
pub open spec fn trim_end(s: Seq<char>) -> Seq<char>
    decreases s.len(),
{
    if s.len() > 0 && is_white_space(s.last()) {
        trim_end(s.drop_last())
    } else {
        s
    }
}

/// The first line at or after position `i` that starts with "Created-By:",
/// without trailing white space.
pub open spec fn created_by_from(t: Seq<char>, i: int) -> Option<Seq<char>>
    decreases t.len() - i,
{
    if i < 0 || i > t.len() {
        None
    } else {
        let end = match find_from(t, "\n"@, i, t.len() as int) {
            Some(p) => p,
            None => t.len() as int,
        };
        if starts_with(t.subrange(i, end), "Created-By:"@) {
            Some(trim_end(t.subrange(i, end)))
        } else if end < t.len() && i < end + 1 {
            created_by_from(t, end + 1)
        } else {
            None
        }
    }
}

pub open spec fn created_by(data: Seq<u8>) -> Seq<char> {
    match created_by_from(utf8_lossy(data), 0) {
        Some(l) => l,
        None => "Created-By: Unknown"@,
    }
}

pub open spec fn source_note(path: Seq<char>) -> Seq<char> {
    "signature details from "@ + path
}

/// Digests of the raw entry bytes, tagged with the algorithm.
pub open spec fn raw_sha1(data: Seq<u8>) -> Seq<char> {
    "SHA1:"@ + hex_lower(sha1_digest(data))
}

pub open spec fn raw_sha256(data: Seq<u8>) -> Seq<char> {
    "SHA256:"@ + hex_lower(sha256_digest(data))
}

/// The record for the signature entry `path` holding `data`, `now` being
/// the current time in seconds.
pub open spec fn signature_for(path: Seq<char>, data: Seq<u8>, now: int) -> SignatureView {
    if is_der_certificate(data) {
        SignatureView {
            issuer: cert_issuer(data),
            subject: cert_subject(data),
            valid_from: or_unknown(cert_not_before(data)),
            valid_to: or_unknown(cert_not_after(data)),
            fingerprint_sha1: Some(colon_hex(sha1_digest(cert_tbs(data)))),
            fingerprint_sha256: Some(colon_hex(sha256_digest(cert_tbs(data)))),
        }
    } else if ends_with(path, ".SF"@) || ends_with(path, ".MF"@) {
        SignatureView {
            issuer: created_by(data),
            subject: source_note(path),
            valid_from: "unknown"@,
            valid_to: "unknown"@,
            fingerprint_sha1: Some(raw_sha1(data)),
            fingerprint_sha256: Some(raw_sha256(data)),
        }
    } else {
        SignatureView {
            issuer: source_note(path),
            subject: "Android application signature"@,
            valid_from: date_text(now),
            valid_to: months_later_text(now, 60),
            fingerprint_sha1: Some(raw_sha1(data)),
            fingerprint_sha256: Some(raw_sha256(data)),
        }
    }
}

/// The record used when the archive holds no readable signature entry.
pub open spec fn missing_signature(now: int) -> SignatureView {
    SignatureView {
        issuer: "unknown"@,
        subject: "unknown"@,
        valid_from: date_text(now),
        valid_to: date_text(now + 86400),
        fingerprint_sha1: Some("missing signature file"@),
        fingerprint_sha256: Some("missing signature file"@),
    }
}

/// The first readable signature entry among `signature_paths()[k..]`.
pub open spec fn first_signature_entry(files: Map<Seq<char>, Option<Seq<u8>>>, k: int) -> Option<
    (Seq<char>, Seq<u8>),
>
    decreases signature_paths().len() - k,
{
    if k < 0 || k >= signature_paths().len() {
        None
    } else {
        let p = signature_paths()[k];
        if files.contains_key(p) && files[p] is Some {
            Some((p, files[p]->0))
        } else {
            first_signature_entry(files, k + 1)
        }
    }
}

pub open spec fn signature_of(files: Map<Seq<char>, Option<Seq<u8>>>, now: int) -> SignatureView {
    match first_signature_entry(files, 0) {
        Some((p, d)) => signature_for(p, d, now),
        None => missing_signature(now),
    }
}

/// For an entry that parses as a DER certificate, the record's fingerprints
/// are the colon-separated digests of the certificate's to-be-signed bytes,
/// the same on every derivation: they depend neither on the entry's path nor
/// on the time.
pub proof fn lemma_certificate_fingerprints_stable(
    path1: Seq<char>,
    path2: Seq<char>,
    data: Seq<u8>,
    now1: int,
    now2: int,
)
    requires
        is_der_certificate(data),
    ensures
        signature_for(path1, data, now1).fingerprint_sha1 == Some(
            colon_hex(sha1_digest(cert_tbs(data))),
        ),
        signature_for(path1, data, now1).fingerprint_sha256 == Some(
            colon_hex(sha256_digest(cert_tbs(data))),
        ),
        signature_for(path1, data, now1) == signature_for(path2, data, now2),
{
}

fn trim_end_exec(s: &[char]) -> (r: Vec<char>)
    ensures
        r@ == trim_end(s@),
{
    let mut n = s.len();
    assert(s@.subrange(0, n as int) =~= s@);
    while n > 0 && white_space(s[n - 1])
        invariant
            n <= s@.len(),
            trim_end(s@) == trim_end(s@.subrange(0, n as int)),
        decreases n,
    {
        assert(s@.subrange(0, n as int).drop_last() =~= s@.subrange(0, n - 1));
        n = n - 1;
    }
    copy_range(s, 0, n)
}

fn created_by_exec(data: &[u8]) -> (r: Vec<char>)
    ensures
        r@ == created_by(data@),
{
    let text = decode_lossy(data);
    let t = chars_of(text.as_str());
    let nl = chars_of("\n");
    let prefix = chars_of("Created-By:");
    let mut i: usize = 0;
    while i <= t.len()
        invariant
            i <= t@.len() + 1,
            t@ == utf8_lossy(data@),
            nl@ == "\n"@,
            prefix@ == "Created-By:"@,
            created_by_from(t@, 0) == created_by_from(t@, i as int),
        decreases t@.len() + 1 - i,
    {
        let end = match find(t.as_slice(), nl.as_slice(), i, t.len()) {
            Some(p) => p,
            None => t.len(),
        };
        proof {
            lemma_find_from_found(t@, nl@, i as int, t@.len() as int);
        }
        let line = copy_range(t.as_slice(), i, end);
        assert(line@ == t@.subrange(i as int, end as int));
        if has_prefix(line.as_slice(), prefix.as_slice()) {
            assert(created_by_from(t@, i as int) == Some(trim_end(line@)));
            return trim_end_exec(line.as_slice());
        }
        if end < t.len() {
            i = end + 1;
        } else {
            return chars_of("Created-By: Unknown");
        }
    }
    chars_of("Created-By: Unknown")
}

fn raw_digest_text(tag: &str, hex: &[char]) -> (r: String)
    ensures
        r@ == tag@ + hex@,
{
    let t = chars_of(tag);
    text_from(join(t.as_slice(), hex).as_slice())
}

/// The record for one signature entry, trying in turn a DER certificate, the
/// text of a signature manifest, and a record synthesised from the path.
pub fn signature_from_entry(path: &str, data: &[u8], now: i64) -> (r: SignatureInfo)
    ensures
        r@ == signature_for(path@, data@, now as int),
{
    match parse_certificate(data) {
        Some(cert) => {
            let valid_from = match cert.not_before {
                Some(s) => s,
                None => "unknown".to_string(),
            };
            let valid_to = match cert.not_after {
                Some(s) => s,
                None => "unknown".to_string(),
            };
            let sha1 = to_colon_hex(sha1_bytes(cert.tbs.as_slice()).as_slice());
            let sha256 = to_colon_hex(sha256_bytes(cert.tbs.as_slice()).as_slice());
            return SignatureInfo {
                issuer: cert.issuer,
                subject: cert.subject,
                valid_from,
                valid_to,
                fingerprint_sha1: Some(text_from(sha1.as_slice())),
                fingerprint_sha256: Some(text_from(sha256.as_slice())),
            };
        },
        None => {},
    }
    let sha1 = raw_digest_text("SHA1:", to_hex(sha1_bytes(data).as_slice()).as_slice());
    let sha256 = raw_digest_text("SHA256:", to_hex(sha256_bytes(data).as_slice()).as_slice());
    let p = chars_of(path);
    let note = chars_of("signature details from ");
    let source = text_from(join(note.as_slice(), p.as_slice()).as_slice());
    let sf = chars_of(".SF");
    let mf = chars_of(".MF");
    if has_suffix(p.as_slice(), sf.as_slice()) || has_suffix(p.as_slice(), mf.as_slice()) {
        SignatureInfo {
            issuer: text_from(created_by_exec(data).as_slice()),
            subject: source,
            valid_from: "unknown".to_string(),
            valid_to: "unknown".to_string(),
            fingerprint_sha1: Some(sha1),
            fingerprint_sha256: Some(sha256),
        }
    } else {
        SignatureInfo {
            issuer: source,
            subject: "Android application signature".to_string(),
            valid_from: display_date(now),
            valid_to: display_date_months_later(now, 60),
            fingerprint_sha1: Some(sha1),
            fingerprint_sha256: Some(sha256),
        }
    }
}

/// The record used when no signature entry can be read.
pub fn missing_signature_info(now: i64) -> (r: SignatureInfo)
    ensures
        r@ == missing_signature(now as int),
{
    SignatureInfo {
        issuer: "unknown".to_string(),
        subject: "unknown".to_string(),
        valid_from: display_date(now),
        valid_to: display_date_next_day(now),
        fingerprint_sha1: Some("missing signature file".to_string()),
        fingerprint_sha256: Some("missing signature file".to_string()),
    }
}

fn signature_path_list() -> (r: Vec<&'static str>)
    ensures
        r@.map_values(|p: &'static str| p@) == signature_paths(),
{
    let r = vec![
        "META-INF/CERT.RSA",
        "META-INF/CERT.DSA",
        "META-INF/CERT.EC",
        "META-INF/ANDROID.RSA",
        "META-INF/ANDROIDD.RSA",
        "META-INF/CERT.SF",
        "META-INF/MANIFEST.MF",
    ];
    assert(r@.map_values(|p: &'static str| p@) =~= signature_paths());
    r
}

impl crate::parser::ApkParser {
    /// The signature record of the archive at time `now`: the first readable
    /// signature entry decides it, whether or not it parses as a certificate.
    pub fn signature_info_at(archive: &mut ApkArchive, now: i64) -> (r: SignatureInfo)
        ensures
            final(archive).files() == old(archive).files(),
            final(archive).entries() == old(archive).entries(),
            r@ == signature_of(old(archive).files(), now as int),
    {
        let paths = signature_path_list();
        let ghost files = archive.files();
        let mut k: usize = 0;
        while k < paths.len()
            invariant
                k <= paths@.len(),
                paths@.map_values(|p: &'static str| p@) == signature_paths(),
                archive.files() == files,
                archive.entries() == old(archive).entries(),
                files == old(archive).files(),
                first_signature_entry(files, 0) == first_signature_entry(files, k as int),
            decreases paths@.len() - k,
        {
            let path = paths[k];
            assert(signature_paths()[k as int] == path@);
            match archive.read(path) {
                EntryRead::Bytes(data) => {
                    return signature_from_entry(path, data.as_slice(), now);
                },
                _ => {},
            }
            k = k + 1;
        }
        missing_signature_info(now)
    }

    /// The signature record of the archive, stamped with the current time
    /// where a record has to be synthesised.
    pub fn parse_signature_info(archive: &mut ApkArchive) -> (r: SignatureInfo)
        ensures
            final(archive).files() == old(archive).files(),
            final(archive).entries() == old(archive).entries(),
            exists|now: int| r@ == signature_of(old(archive).files(), now),
    {
        let now = unix_now();
        Self::signature_info_at(archive, now)
    }
}

} // verus!
