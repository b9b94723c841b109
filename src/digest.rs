//! Content digests of the package file and their text forms.
use vstd::prelude::*;
use sha1::Digest;
use crate::text::text_from;

verus! {

pub uninterp spec fn md5_digest(b: Seq<u8>) -> Seq<u8>;

pub uninterp spec fn sha1_digest(b: Seq<u8>) -> Seq<u8>;

pub uninterp spec fn sha256_digest(b: Seq<u8>) -> Seq<u8>;

/// Relies on `md5::compute`: the 16-byte MD5 digest of the input.
#[verifier::external_body]
pub(crate) fn md5_bytes(b: &[u8]) -> (r: Vec<u8>)
    ensures
        r@ == md5_digest(b@),
        r@.len() == 16,
{
    md5::compute(b).0.to_vec()
}

/// Relies on `Digest::digest` of `sha1::Sha1`: the 20-byte SHA-1 digest.
#[verifier::external_body]
pub(crate) fn sha1_bytes(b: &[u8]) -> (r: Vec<u8>)
    ensures
        r@ == sha1_digest(b@),
        r@.len() == 20,
{
    sha1::Sha1::digest(b).to_vec()
}

/// Relies on `Digest::digest` of `sha2::Sha256`: the 32-byte SHA-256 digest.
#[verifier::external_body]
pub(crate) fn sha256_bytes(b: &[u8]) -> (r: Vec<u8>)
    ensures
        r@ == sha256_digest(b@),
        r@.len() == 32,
{
    sha2::Sha256::digest(b).to_vec()
}

pub open spec fn lower_digits() -> Seq<char> {
    seq!['0', '1', '2', '3', '4', '5', '6', '7', '8', '9', 'a', 'b', 'c', 'd', 'e', 'f']
}

pub open spec fn upper_digits() -> Seq<char> {
    seq!['0', '1', '2', '3', '4', '5', '6', '7', '8', '9', 'A', 'B', 'C', 'D', 'E', 'F']
}

/// Two digits per byte, high nibble first.
pub open spec fn byte_hex(digits: Seq<char>, b: u8) -> Seq<char> {
    seq![digits[(b / 16) as int], digits[(b % 16) as int]]
}

/// Lowercase hex, two digits per byte, no separators.
pub open spec fn hex_lower(b: Seq<u8>) -> Seq<char>
    decreases b.len(),
{
    if b.len() == 0 {
        seq![]
    } else {
        hex_lower(b.drop_last()) + byte_hex(lower_digits(), b.last())
    }
}

pub proof fn lemma_hex_lower_len(b: Seq<u8>)
    ensures
        hex_lower(b).len() == 2 * b.len(),
    decreases b.len(),
{
    if b.len() > 0 {
        lemma_hex_lower_len(b.drop_last());
    }
}

/// Uppercase hex byte pairs joined by colons (`AB:CD:...`).
pub open spec fn colon_hex(b: Seq<u8>) -> Seq<char>
    decreases b.len(),
{
    if b.len() == 0 {
        seq![]
    } else if b.len() == 1 {
        byte_hex(upper_digits(), b[0])
    } else {
        colon_hex(b.drop_last()) + seq![':'] + byte_hex(upper_digits(), b.last())
    }
}

fn digit_table(upper: bool) -> (r: Vec<char>)
    ensures
        r@ == (if upper {
            upper_digits()
        } else {
            lower_digits()
        }),
{
    let r = if upper {
        vec!['0', '1', '2', '3', '4', '5', '6', '7', '8', '9', 'A', 'B', 'C', 'D', 'E', 'F']
    } else {
        vec!['0', '1', '2', '3', '4', '5', '6', '7', '8', '9', 'a', 'b', 'c', 'd', 'e', 'f']
    };
    assert(r@ =~= (if upper {
        upper_digits()
    } else {
        lower_digits()
    }));
    r
}

/// Lowercase hex text of `b`.
pub fn to_hex(b: &[u8]) -> (r: Vec<char>)
    ensures
        r@ == hex_lower(b@),
{
    let digits = digit_table(false);
    let mut r: Vec<char> = Vec::new();
    let mut i: usize = 0;
    assert(b@.subrange(0, 0) =~= seq![]);
    while i < b.len()
        invariant
            i <= b@.len(),
            digits@ == lower_digits(),
            r@ == hex_lower(b@.subrange(0, i as int)),
        decreases b@.len() - i,
    {
        let x = b[i];
        r.push(digits[(x / 16) as usize]);
        r.push(digits[(x % 16) as usize]);
        proof {
            let next = b@.subrange(0, i + 1);
            assert(next.drop_last() =~= b@.subrange(0, i as int));
            assert(r@ =~= hex_lower(next));
        }
        i = i + 1;
    }
    assert(b@.subrange(0, b@.len() as int) =~= b@);
    r
}

/// Uppercase, colon-separated hex text of `b`.
pub fn to_colon_hex(b: &[u8]) -> (r: Vec<char>)
    ensures
        r@ == colon_hex(b@),
{
    let digits = digit_table(true);
    let mut r: Vec<char> = Vec::new();
    let mut i: usize = 0;
    assert(b@.subrange(0, 0) =~= seq![]);
    while i < b.len()
        invariant
            i <= b@.len(),
            digits@ == upper_digits(),
            r@ == colon_hex(b@.subrange(0, i as int)),
        decreases b@.len() - i,
    {
        let x = b[i];
        if i > 0 {
            r.push(':');
        }
        r.push(digits[(x / 16) as usize]);
        r.push(digits[(x % 16) as usize]);
        proof {
            let next = b@.subrange(0, i + 1);
            assert(next.drop_last() =~= b@.subrange(0, i as int));
            assert(r@ =~= colon_hex(next));
        }
        i = i + 1;
    }
    assert(b@.subrange(0, b@.len() as int) =~= b@);
    r
}


/// Digests and size of the package file.
pub struct FileInfo {
    pub md5: String,
    pub sha1: String,
    pub sha256: String,
    pub file_size: u64,
    pub file_type: String,
    pub entry_count: u32,
}

/// The media type of an Android package.
pub open spec fn package_media_type() -> Seq<char> {
    "application/vnd.android.package-archive"@
}

/// `info` describes the file `data` of a container with `entry_count` entries.
pub open spec fn describes_file(info: FileInfo, data: Seq<u8>, entry_count: u32) -> bool {
    &&& info.md5@ == hex_lower(md5_digest(data))
    &&& info.sha1@ == hex_lower(sha1_digest(data))
    &&& info.sha256@ == hex_lower(sha256_digest(data))
    &&& info.file_size == data.len()
    &&& info.file_type@ == package_media_type()
    &&& info.entry_count == entry_count
}

impl crate::parser::ApkParser {
    /// Lowercase hex MD5 of the file's bytes.
    pub fn calculate_md5_hash(data: &[u8]) -> (r: String)
        ensures
            r@ == hex_lower(md5_digest(data@)),
            r@.len() == 32,
    {
        proof {
            lemma_hex_lower_len(md5_digest(data@));
        }
        text_from(to_hex(md5_bytes(data).as_slice()).as_slice())
    }

    /// Lowercase hex SHA-1 of the file's bytes.
    pub fn calculate_sha1_hash(data: &[u8]) -> (r: String)
        ensures
            r@ == hex_lower(sha1_digest(data@)),
            r@.len() == 40,
    {
        proof {
            lemma_hex_lower_len(sha1_digest(data@));
        }
        text_from(to_hex(sha1_bytes(data).as_slice()).as_slice())
    }

    /// Lowercase hex SHA-256 of the file's bytes.
    pub fn calculate_sha256_hash(data: &[u8]) -> (r: String)
        ensures
            r@ == hex_lower(sha256_digest(data@)),
            r@.len() == 64,
    {
        proof {
            lemma_hex_lower_len(sha256_digest(data@));
        }
        text_from(to_hex(sha256_bytes(data).as_slice()).as_slice())
    }

    /// The digest record of a package file.
    pub fn file_info(data: &[u8], entry_count: u32) -> (r: FileInfo)
        ensures
            describes_file(r, data@, entry_count),
    {
        let n: usize = data.len();
        assert(n as int <= u64::MAX) by {
            assert(usize::MAX <= u64::MAX);
        }
        FileInfo {
            md5: Self::calculate_md5_hash(data),
            sha1: Self::calculate_sha1_hash(data),
            sha256: Self::calculate_sha256_hash(data),
            file_size: n as u64,
            file_type: "application/vnd.android.package-archive".to_string(),
            entry_count,
        }
    }
}

} // verus!
