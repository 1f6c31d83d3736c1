//! Session-level decisions of the high-level client: which extensions the
//! server supports, and how directory listings, existence checks and
//! resolved names are read from the replies.

use vstd::prelude::*;

use crate::client::error::Error;
use crate::client::fs::{Metadata, ReadDir};
use crate::client::rawsession::{Limits, SftpResult};
use crate::extensions;
use crate::protocol::{FileAttributes, Name, StatusCode, Version};
use crate::text::{owned, str_equals};

verus! {

/// Extensions the server announced support for.
#[derive(Debug, Clone, Copy)]
pub struct Extensions {
    pub hardlink: bool,
    pub fsync: bool,
    pub statvfs: bool,
    pub limits: Option<Limits>,
}

/// The data the server announced for extension `name`: the first entry
/// with that name.
pub open spec fn extension_data(exts: Seq<(String, String)>, name: Seq<char>) -> Option<
    Seq<char>,
>
    decreases exts.len(),
{
    if exts.len() == 0 {
        None
    } else if exts[0].0@ == name {
        Some(exts[0].1@)
    } else {
        extension_data(exts.drop_first(), name)
    }
}

/// Each extension name occurs at most once, as in a map from name to data.
pub open spec fn names_distinct(exts: Seq<(String, String)>) -> bool {
    forall|i: int, j: int| 0 <= i < j < exts.len() ==> exts[i].0@ != exts[j].0@
}

/// Where each name occurs at most once, the data found for a name is that
/// of the one entry carrying it, wherever the entry stands, and a name
/// that no entry carries has no data: the lookup is that of a map from
/// name to data.
pub proof fn lookup_is_map_lookup(exts: Seq<(String, String)>, name: Seq<char>)
    requires
        names_distinct(exts),
    ensures
        forall|i: int|
            0 <= i < exts.len() && #[trigger] exts[i].0@ == name ==> extension_data(exts, name)
                == Some(exts[i].1@),
        (forall|i: int| 0 <= i < exts.len() ==> #[trigger] exts[i].0@ != name) ==> extension_data(
            exts,
            name,
        ) is None,
    decreases exts.len(),
{
    if exts.len() > 0 {
        let rest = exts.drop_first();
        assert(names_distinct(rest)) by {
            assert forall|i: int, j: int| 0 <= i < j < rest.len() implies rest[i].0@
                != rest[j].0@ by {
                assert(rest[i] == exts[i + 1] && rest[j] == exts[j + 1]);
            }
        }
        lookup_is_map_lookup(rest, name);
        assert forall|i: int| 0 <= i < exts.len() && #[trigger] exts[i].0@ == name implies extension_data(
            exts,
            name,
        ) == Some(exts[i].1@) by {
            if i > 0 {
                assert(exts[0].0@ != exts[i].0@);
                assert(rest[i - 1] == exts[i]);
            }
        }
        if forall|i: int| 0 <= i < exts.len() ==> #[trigger] exts[i].0@ != name {
            assert(exts[0].0@ != name);
            assert forall|i: int| 0 <= i < rest.len() implies #[trigger] rest[i].0@ != name by {
                assert(rest[i] == exts[i + 1]);
            }
        }
    }
}

/// The server announced extension `name` with data `value`.
pub open spec fn announces(v: Version, name: Seq<char>, value: Seq<char>) -> bool {
    extension_data(v.extensions@, name) == Some(value)
}

/// Looks up the data announced for extension `name`.
pub fn extension_value<'a>(exts: &'a Vec<(String, String)>, name: &str) -> (r: Option<&'a String>)
    ensures
        match r {
            Some(s) => extension_data(exts@, name@) == Some(s@),
            None => extension_data(exts@, name@) is None,
        },
{
    let mut i: usize = 0;
    assert(exts@.skip(0) =~= exts@);
    while i < exts.len()
        invariant
            i <= exts.len(),
            extension_data(exts@, name@) == extension_data(exts@.skip(i as int), name@),
        decreases exts.len() - i,
    {
        proof {
            assert(exts@.skip(i as int).drop_first() =~= exts@.skip(i + 1));
            assert(exts@.skip(i as int)[0] == exts@[i as int]);
        }
        if str_equals(exts[i].0.as_str(), name) {
            return Some(&exts[i].1);
        }
        i = i + 1;
    }
    None
}

/// Whether the server announced extension `name` with exactly `value`.
pub fn announces_with(v: &Version, name: &str, value: &str) -> (r: bool)
    ensures
        r == announces(*v, name@, value@),
{
    match extension_value(&v.extensions, name) {
        Some(s) => str_equals(s.as_str(), value),
        None => false,
    }
}

/// The extensions a version reply enables: hard links and fsync at
/// version "1", statvfs at version "2"; limits are fetched separately.
pub fn extensions_of(v: &Version) -> (r: Extensions)
    ensures
        r.hardlink == announces(*v, extensions::HARDLINK@, "1"@),
        r.fsync == announces(*v, extensions::FSYNC@, "1"@),
        r.statvfs == announces(*v, extensions::STATVFS@, "2"@),
        r.limits is None,
{
    Extensions {
        hardlink: announces_with(v, extensions::HARDLINK, "1"),
        fsync: announces_with(v, extensions::FSYNC, "1"),
        statvfs: announces_with(v, extensions::STATVFS, "2"),
        limits: None,
    }
}

/// Whether the server's limits should be fetched (`limits@openssh.com`
/// at version "1").
pub fn wants_limits(v: &Version) -> (r: bool)
    ensures
        r == announces(*v, extensions::LIMITS@, "1"@),
{
    announces_with(v, extensions::LIMITS, "1")
}

/// The answer to "does this path exist" given the reply to `stat`: yes
/// when attributes came back, no for a "no such file" status, the
/// failure otherwise.
pub open spec fn exists_outcome(reply: SftpResult<Metadata>) -> SftpResult<bool> {
    match reply {
        Ok(_) => Ok(true),
        Err(Error::Status(s)) => if s.status_code == StatusCode::NoSuchFile {
            Ok(false)
        } else {
            Err(Error::Status(s))
        },
        Err(e) => Err(e),
    }
}

/// Interprets the reply to `stat` as an existence check.
pub fn try_exists_outcome(reply: SftpResult<Metadata>) -> (r: SftpResult<bool>)
    ensures
        r == exists_outcome(reply),
{
    match reply {
        Ok(_) => Ok(true),
        Err(Error::Status(s)) => {
            if s.status_code == StatusCode::NoSuchFile {
                Ok(false)
            } else {
                Err(Error::Status(s))
            }
        },
        Err(e) => Err(e),
    }
}

/// The file name a `realpath`/`readlink` reply resolves to: the first
/// entry's name; a reply without entries is unexpected behavior.
pub fn first_filename(name: Name) -> (r: SftpResult<String>)
    ensures
        name.files@.len() > 0 ==> r == Ok::<String, Error>(name.files@[0].filename),
        name.files@.len() == 0 ==> (r matches Err(Error::UnexpectedBehavior(m)) && m@
            == "no file"@),
{
    if name.files.len() > 0 {
        Ok(name.files[0].filename.clone())
    } else {
        Err(Error::UnexpectedBehavior(owned("no file")))
    }
}

/// The (name, attributes) pairs of a reply's entries.
pub open spec fn entries_of(name: Name) -> Seq<(String, FileAttributes)> {
    name.files@.map_values(|f: crate::protocol::File| (f.filename, f.attrs))
}

/// Adds one `readdir` reply to the entries listed so far: the new batch
/// goes in front of the earlier ones.
pub fn prepend_entries(name: Name, listed: Vec<(String, Metadata)>) -> (r: Vec<(String, Metadata)>)
    ensures
        r@ == entries_of(name) + listed@,
{
    let mut r: Vec<(String, Metadata)> = Vec::new();
    let files = name.files;
    let n = files.len();
    let mut i: usize = 0;
    while i < n
        invariant
            n == files.len(),
            files@ == name.files@,
            i <= n,
            r@ == entries_of(name).take(i as int),
        decreases n - i,
    {
        let f = &files[i];
        proof {
            assert(entries_of(name).take(i + 1) =~= entries_of(name).take(i as int).push(
                (f.filename, f.attrs),
            ));
        }
        r.push((f.filename.clone(), f.attrs));
        i = i + 1;
    }
    let mut listed = listed;
    let ghost before = r@;
    r.append(&mut listed);
    assert(entries_of(name).take(n as int) =~= entries_of(name));
    r
}

/// What a `readdir` reply means for a listing in progress.
pub enum DirStep {
    /// More entries arrived; keep reading.
    More(Name),
    /// The directory is exhausted.
    Done,
    /// The listing failed.
    Failed(Error),
}

/// Interprets one `readdir` reply: entries continue the listing, an
/// end-of-file status ends it, anything else fails it.
pub fn dir_step(reply: SftpResult<Name>) -> (r: DirStep)
    ensures
        reply matches Ok(n) ==> r == DirStep::More(n),
        (reply matches Err(Error::Status(s)) && s.status_code == StatusCode::Eof) ==> r is Done,
        (reply matches Err(e) && !(e matches Error::Status(s) && s.status_code
            == StatusCode::Eof)) ==> r == DirStep::Failed(reply->Err_0),
{
    match reply {
        Ok(n) => DirStep::More(n),
        Err(Error::Status(s)) => {
            if s.status_code == StatusCode::Eof {
                DirStep::Done
            } else {
                DirStep::Failed(Error::Status(s))
            }
        },
        Err(e) => DirStep::Failed(e),
    }
}

/// A finished listing.
pub fn read_dir_of(entries: Vec<(String, Metadata)>) -> (r: ReadDir)
    ensures
        r.entries@ == entries@,
{
    ReadDir { entries }
}

/// Only a "no such file" status means a path is absent: attributes mean
/// it is present, and every other failure (a timeout, an I/O failure, any
/// other status) is passed on unchanged rather than read as an answer.
pub proof fn only_no_such_file_means_absent(reply: SftpResult<Metadata>)
    ensures
        reply is Ok ==> exists_outcome(reply) == Ok::<bool, Error>(true),
        exists_outcome(reply) == Ok::<bool, Error>(false) <==> (reply matches Err(Error::Status(s))
            && s.status_code == StatusCode::NoSuchFile),
        reply matches Err(e) ==> (!(e matches Error::Status(s) && s.status_code
            == StatusCode::NoSuchFile) ==> exists_outcome(reply) == Err::<bool, Error>(e)),
{
}

} // verus!
