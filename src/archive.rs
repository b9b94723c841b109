//! The package as a ZIP container held in memory.
use vstd::prelude::*;
use std::io::Cursor;
use std::io::Read;
use zip::ZipArchive;

verus! {

#[verifier::external_type_specification]
#[verifier::external_body]
#[verifier::reject_recursive_types(T)]
pub struct ExCursor<T>(Cursor<T>);

#[verifier::external_type_specification]
#[verifier::external_body]
#[verifier::reject_recursive_types(R)]
pub struct ExZipArchive<R>(ZipArchive<R>);

/// What a lookup by exact name finds: for each name that the container can
/// open, the entry's bytes, or `None` when they cannot be read out.
pub uninterp spec fn zip_files(a: ZipArchive<Cursor<Vec<u8>>>) -> Map<Seq<char>, Option<Seq<u8>>>;

/// The entries in the container's own order: for each index, `None` when the
/// entry cannot be opened, else its name and its bytes (`None` when they cannot
/// be read out).
pub uninterp spec fn zip_entries(a: ZipArchive<Cursor<Vec<u8>>>) -> Seq<
    Option<(Seq<char>, Option<Seq<u8>>)>,
>;

/// Whether `ZipArchive::new` accepts these bytes as a ZIP container.
pub uninterp spec fn opens_as_zip(b: Seq<u8>) -> bool;

/// `zip_files` of the container that these bytes open as.
pub uninterp spec fn zip_files_of(b: Seq<u8>) -> Map<Seq<char>, Option<Seq<u8>>>;

/// `zip_entries` of the container that these bytes open as.
pub uninterp spec fn zip_entries_of(b: Seq<u8>) -> Seq<Option<(Seq<char>, Option<Seq<u8>>)>>;

/// Outcome of reading an entry by name.
pub enum EntryRead {
    Missing,
    Unreadable,
    Bytes(Vec<u8>),
}

/// Relies on `ZipArchive::new` over an in-memory cursor, whose outcome and
/// whose entries depend on the bytes alone; its error is kept as text.
#[verifier::external_body]
fn open_container(bytes: &[u8]) -> (r: Result<ZipArchive<Cursor<Vec<u8>>>, String>)
    ensures
        r is Ok == opens_as_zip(bytes@),
        r matches Ok(a) ==> zip_files(a) == zip_files_of(bytes@) && zip_entries(a)
            == zip_entries_of(bytes@),
{
    match ZipArchive::new(Cursor::new(bytes.to_vec())) {
        Ok(a) => Ok(a),
        Err(e) => Err(e.to_string()),
    }
}

/// Relies on `ZipArchive::len`: the number of entries.
#[verifier::external_body]
fn container_len(a: &ZipArchive<Cursor<Vec<u8>>>) -> (r: usize)
    ensures
        r == zip_entries(*a).len(),
{
    a.len()
}

/// Relies on `ZipArchive::by_name` and `Read::read_to_end` on the entry found.
#[verifier::external_body]
fn read_by_name(a: &mut ZipArchive<Cursor<Vec<u8>>>, name: &str) -> (r: EntryRead)
    ensures
        zip_files(*final(a)) == zip_files(*old(a)),
        zip_entries(*final(a)) == zip_entries(*old(a)),
        match r {
            EntryRead::Missing => !zip_files(*old(a)).contains_key(name@),
            EntryRead::Unreadable => zip_files(*old(a)).contains_key(name@) && zip_files(
                *old(a),
            )[name@] is None,
            EntryRead::Bytes(d) => zip_files(*old(a)).contains_key(name@) && zip_files(
                *old(a),
            )[name@] == Some(d@),
        },
{
    match a.by_name(name) {
        Ok(mut f) => {
            let mut buf = Vec::new();
            match f.read_to_end(&mut buf) {
                Ok(_) => EntryRead::Bytes(buf),
                Err(_) => EntryRead::Unreadable,
            }
        },
        Err(_) => EntryRead::Missing,
    }
}

/// Relies on `ZipArchive::by_index` and `ZipFile::name`.
#[verifier::external_body]
fn name_by_index(a: &mut ZipArchive<Cursor<Vec<u8>>>, i: usize) -> (r: Option<String>)
    requires
        i < zip_entries(*old(a)).len(),
    ensures
        zip_files(*final(a)) == zip_files(*old(a)),
        zip_entries(*final(a)) == zip_entries(*old(a)),
        match r {
            Some(n) => zip_entries(*old(a))[i as int] matches Some(e) && e.0 == n@,
            None => zip_entries(*old(a))[i as int] is None,
        },
{
    match a.by_index(i) {
        Ok(f) => match f.name() {
            Ok(n) => Some(n.into_owned()),
            Err(_) => None,
        },
        Err(_) => None,
    }
}

/// Relies on `ZipArchive::by_index`, `ZipFile::name` (an entry counts as
/// opened only when its name decodes) and `Read::read_to_end` on that entry.
#[verifier::external_body]
fn read_by_index(a: &mut ZipArchive<Cursor<Vec<u8>>>, i: usize) -> (r: Option<Vec<u8>>)
    requires
        i < zip_entries(*old(a)).len(),
    ensures
        zip_files(*final(a)) == zip_files(*old(a)),
        zip_entries(*final(a)) == zip_entries(*old(a)),
        match r {
            Some(d) => zip_entries(*old(a))[i as int] matches Some(e) && e.1 == Some(d@),
            None => !(zip_entries(*old(a))[i as int] matches Some(e) && e.1 is Some),
        },
{
    match a.by_index(i) {
        Ok(mut f) => {
            if f.name().is_err() {
                return None;
            }
            let mut buf = Vec::new();
            match f.read_to_end(&mut buf) {
                Ok(_) => Some(buf),
                Err(_) => None,
            }
        },
        Err(_) => None,
    }
}

/// An opened package container.
pub struct ApkArchive {
    inner: ZipArchive<Cursor<Vec<u8>>>,
}

impl ApkArchive {
    /// Entries reachable by exact name, with their bytes when readable.
    pub closed spec fn files(&self) -> Map<Seq<char>, Option<Seq<u8>>> {
        zip_files(self.inner)
    }

    /// Entries in container order.
    pub closed spec fn entries(&self) -> Seq<Option<(Seq<char>, Option<Seq<u8>>)>> {
        zip_entries(self.inner)
    }

    /// Opens the bytes of a package as a ZIP container; fails with the
    /// container's own complaint when they are not one.
    pub fn open(bytes: &[u8]) -> (r: Result<ApkArchive, String>)
        ensures
            r is Ok == opens_as_zip(bytes@),
            r matches Ok(a) ==> a.files() == zip_files_of(bytes@) && a.entries()
                == zip_entries_of(bytes@),
    {
        match open_container(bytes) {
            Ok(inner) => Ok(ApkArchive { inner }),
            Err(e) => Err(e),
        }
    }

    /// Number of entries.
    pub fn len(&self) -> (r: usize)
        ensures
            r == self.entries().len(),
    {
        container_len(&self.inner)
    }

    /// Reads the entry with exactly this name.
    pub fn read(&mut self, name: &str) -> (r: EntryRead)
        ensures
            final(self).files() == old(self).files(),
            final(self).entries() == old(self).entries(),
            match r {
                EntryRead::Missing => !old(self).files().contains_key(name@),
                EntryRead::Unreadable => old(self).files().contains_key(name@) && old(
                    self,
                ).files()[name@] is None,
                EntryRead::Bytes(d) => old(self).files().contains_key(name@) && old(
                    self,
                ).files()[name@] == Some(d@),
            },
    {
        read_by_name(&mut self.inner, name)
    }

    /// Name of the entry at `i`, when it can be opened.
    pub fn name_at(&mut self, i: usize) -> (r: Option<String>)
        requires
            i < old(self).entries().len(),
        ensures
            final(self).files() == old(self).files(),
            final(self).entries() == old(self).entries(),
            match r {
                Some(n) => old(self).entries()[i as int] matches Some(e) && e.0 == n@,
                None => old(self).entries()[i as int] is None,
            },
    {
        name_by_index(&mut self.inner, i)
    }

    /// Bytes of the entry at `i`, when they can be read.
    pub fn read_at(&mut self, i: usize) -> (r: Option<Vec<u8>>)
        requires
            i < old(self).entries().len(),
        ensures
            final(self).files() == old(self).files(),
            final(self).entries() == old(self).entries(),
            match r {
                Some(d) => old(self).entries()[i as int] matches Some(e) && e.1 == Some(d@),
                None => !(old(self).entries()[i as int] matches Some(e) && e.1 is Some),
            },
    {
        read_by_index(&mut self.inner, i)
    }
}

} // verus!
