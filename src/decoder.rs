//! Choosing the external manifest decoder among candidate files on disk.
use vstd::prelude::*;
use crate::package_info::concat_text;

verus! {

/// Files shorter than this are stand-ins, not the real tool.
pub const MIN_DECODER_SIZE: usize = 1000;

/// A candidate that is too small to be the real tool, or that lacks the
/// "MZ" header of a native executable.
pub open spec fn is_placeholder(content: Seq<u8>) -> bool {
    content.len() < MIN_DECODER_SIZE || !(content[0] == 0x4Du8 && content[1] == 0x5Au8)
}

/// Index of the first candidate that could be read and is not a placeholder.
pub open spec fn first_usable(cands: Seq<Option<Seq<u8>>>, k: int) -> Option<int>
    decreases cands.len() - k,
{
    if k < 0 || k >= cands.len() {
        None
    } else if cands[k] matches Some(c) && !is_placeholder(c) {
        Some(k)
    } else {
        first_usable(cands, k + 1)
    }
}

pub open spec fn contents_view(cands: Seq<Option<Vec<u8>>>) -> Seq<Option<Seq<u8>>> {
    cands.map_values(|c: Option<Vec<u8>>| match c {
        Some(v) => Some(v@),
        None => None,
    })
}

/// Where the decoder is looked for: beside the running program when its
/// directory is known, then two paths relative to the working directory.
pub open spec fn candidate_locations(exe_dir: Option<Seq<char>>) -> Seq<Seq<char>> {
    let dev = seq!["src-tauri/resources/aapt2.exe"@, "resources/aapt2.exe"@];
    match exe_dir {
        Some(d) => seq![d + "/resources/aapt2.exe"@] + dev,
        None => dev,
    }
}

impl crate::parser::ApkParser {
    /// Whether a candidate decoder file is a placeholder rather than the tool.
    pub fn is_placeholder_aapt2(content: &[u8]) -> (r: bool)
        ensures
            r == is_placeholder(content@),
    {
        content.len() < MIN_DECODER_SIZE || !(content[0] == 0x4Du8 && content[1] == 0x5Au8)
    }

    /// The first usable candidate, given each candidate's contents in search
    /// order (`None` where it is missing or unreadable).
    pub fn select_decoder(candidates: &Vec<Option<Vec<u8>>>) -> (r: Option<usize>)
        ensures
            match first_usable(contents_view(candidates@), 0) {
                Some(k) => r == Some(k as usize),
                None => r is None,
            },
    {
        let ghost cs = contents_view(candidates@);
        let mut k: usize = 0;
        while k < candidates.len()
            invariant
                k <= candidates@.len(),
                cs == contents_view(candidates@),
                first_usable(cs, 0) == first_usable(cs, k as int),
            decreases candidates@.len() - k,
        {
            match &candidates[k] {
                Some(c) => {
                    assert(cs[k as int] == Some(c@));
                    if !Self::is_placeholder_aapt2(c.as_slice()) {
                        return Some(k);
                    }
                },
                None => {
                    assert(cs[k as int] is None);
                },
            }
            k = k + 1;
        }
        None
    }

    /// The decoder locations, in search order.
    pub fn decoder_locations(exe_dir: Option<&str>) -> (r: Vec<String>)
        ensures
            r@.map_values(|s: String| s@) == candidate_locations(match exe_dir {
                Some(d) => Some(d@),
                None => None,
            }),
    {
        let mut r: Vec<String> = Vec::new();
        match exe_dir {
            Some(d) => {
                r.push(concat_text(d, "/resources/aapt2.exe"));
            },
            None => {},
        }
        r.push("src-tauri/resources/aapt2.exe".to_string());
        r.push("resources/aapt2.exe".to_string());
        assert(r@.map_values(|s: String| s@) =~= candidate_locations(match exe_dir {
            Some(d) => Some(d@),
            None => None,
        }));
        r
    }
}

} // verus!
