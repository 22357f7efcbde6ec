//! Unpacking the server bundle: a zip archive held in memory, read with the
//! `zip` crate, whose files are placed without their directories.

use vstd::prelude::*;
use vstd::string::*;
use crate::llm::SERVER_FILENAME;
use crate::text::{chars_of, has_suffix, occurs_at, optional_text, text_result};

verus! {

/// An in-memory reader, opaque to the proofs.
#[verifier::external_type_specification]
#[verifier::external_body]
#[verifier::reject_recursive_types(T)]
pub struct ExCursor<T>(std::io::Cursor<T>);

/// An opened zip archive, opaque to the proofs.
#[verifier::external_type_specification]
#[verifier::external_body]
#[verifier::reject_recursive_types(R)]
pub struct ExZipArchive<R>(zip::ZipArchive<R>);

/// What one entry of an archive gives when it is looked up and when it is
/// read: its name and whether it is a directory, and its bytes, each
/// replaced by a message where the archive does not yield it.
pub struct EntryView {
    pub head: Result<(Seq<char>, bool), Seq<char>>,
    pub body: Result<Seq<u8>, Seq<char>>,
}

/// What `zip::ZipArchive::new` makes of `bytes`: an archive, or a message.
pub uninterp spec fn archive_read(bytes: Seq<u8>) -> Result<
    zip::ZipArchive<std::io::Cursor<Vec<u8>>>,
    Seq<char>,
>;

/// The entries that an archive holds, in the order of its directory.
pub uninterp spec fn archive_entries(
    archive: zip::ZipArchive<std::io::Cursor<Vec<u8>>>,
) -> Seq<EntryView>;

/// The view of an attempt to open an archive.
pub open spec fn open_view(
    r: Result<zip::ZipArchive<std::io::Cursor<Vec<u8>>>, String>,
) -> Result<zip::ZipArchive<std::io::Cursor<Vec<u8>>>, Seq<char>> {
    match r {
        Ok(a) => Ok(a),
        Err(e) => Err(e@),
    }
}

/// The view of an entry's head.
pub open spec fn head_view(r: Result<(String, bool), String>) -> Result<
    (Seq<char>, bool),
    Seq<char>,
> {
    match r {
        Ok(h) => Ok((h.0@, h.1)),
        Err(e) => Err(e@),
    }
}

/// The view of an entry's bytes.
pub open spec fn body_view(r: Result<Vec<u8>, String>) -> Result<Seq<u8>, Seq<char>> {
    match r {
        Ok(b) => Ok(b@),
        Err(e) => Err(e@),
    }
}

/// Opens an archive with `zip::ZipArchive::new` over a cursor on `bytes`;
/// a failure is given as the crate's message. The contract only names the
/// outcome, which depends on the bytes alone.
#[verifier::external_body]
fn open(bytes: Vec<u8>) -> (r: Result<zip::ZipArchive<std::io::Cursor<Vec<u8>>>, String>)
    ensures
        open_view(r) == archive_read(bytes@),
{
    zip::ZipArchive::new(std::io::Cursor::new(bytes)).map_err(|e| e.to_string())
}

/// The number of entries, as `ZipArchive::len` gives it.
#[verifier::external_body]
fn count(archive: &zip::ZipArchive<std::io::Cursor<Vec<u8>>>) -> (n: usize)
    ensures
        n == archive_entries(*archive).len(),
{
    archive.len()
}

/// Looks an entry up with `ZipArchive::by_index` and takes its name and
/// whether it is a directory. The archive holds the same entries afterwards.
#[verifier::external_body]
fn head(archive: &mut zip::ZipArchive<std::io::Cursor<Vec<u8>>>, i: usize) -> (r: Result<
    (String, bool),
    String,
>)
    ensures
        archive_entries(*final(archive)) == archive_entries(*old(archive)),
        i < archive_entries(*old(archive)).len() ==> head_view(r) == archive_entries(
            *old(archive),
        )[i as int].head,
{
    archive.by_index(i).map(|f| (f.name().to_string(), f.is_dir())).map_err(|e| e.to_string())
}

/// Looks an entry up with `ZipArchive::by_index` and reads it to its end.
/// The archive holds the same entries afterwards.
#[verifier::external_body]
fn body(archive: &mut zip::ZipArchive<std::io::Cursor<Vec<u8>>>, i: usize) -> (r: Result<
    Vec<u8>,
    String,
>)
    ensures
        archive_entries(*final(archive)) == archive_entries(*old(archive)),
        i < archive_entries(*old(archive)).len() ==> body_view(r) == archive_entries(
            *old(archive),
        )[i as int].body,
{
    let mut file = archive.by_index(i).map_err(|e| e.to_string())?;
    let mut content = Vec::new();
    std::io::Read::read_to_end(&mut file, &mut content).map_err(|e| e.to_string())?;
    Ok(content)
}

/// Whether `name` is a single path component on every platform: not
/// empty, not `.` or `..`, and without `/`, `\\` or `:`.
pub open spec fn plain_name(name: Seq<char>) -> bool {
    &&& name.len() > 0
    &&& name != seq!['.']
    &&& name != seq!['.', '.']
    &&& forall|k: int|
        0 <= k < name.len() ==> name[k] != '/' && name[k] != '\\' && name[k] != ':'
}

/// Whether `text` holds the character `c`.
pub open spec fn holds(text: Seq<char>, c: char) -> bool {
    exists|k: int| 0 <= k < text.len() && text[k] == c
}

/// What holds on every platform of `base`, the last component of `name`
/// read as a path. A name that is a single component is its own last
/// component. A last component is never empty and stands in the name as it
/// is; it holds no `/`, unless the name holds a `\\` (a name that begins
/// `\\?\` is taken literally on one platform, `/` and all).
pub open spec fn names(name: Seq<char>, base: Option<Seq<char>>) -> bool {
    &&& plain_name(name) ==> base == Some(name)
    &&& base is Some ==> {
        &&& base->Some_0.len() > 0
        &&& exists|i: int| occurs_at(name, base->Some_0, i)
        &&& !holds(name, '\\') ==> !holds(base->Some_0, '/')
    }
}

/// The last component of `name` read as a path, as `std::path::Path::file_name`
/// gives it. The platform decides what separates the components, so the
/// contract claims only what holds on each: see [`names`].
#[verifier::external_body]
fn base_name(name: &str) -> (r: Option<String>)
    ensures
        names(name@, optional_text(r)),
{
    std::path::Path::new(name).file_name().map(|n| n.to_string_lossy().to_string())
}

/// One entry of the downloaded archive. `base_name` is the last component
/// of `name` as a path, absent where the name has none.
pub struct ArchiveEntry {
    pub name: String,
    pub is_dir: bool,
    pub base_name: Option<String>,
}

/// What is done with one entry of the archive.
pub enum EntryStep {
    /// A directory: nothing is written.
    Skip,
    /// The entry cannot be placed: unpacking stops with this message.
    Fail(String),
    /// The entry is written to the installation directory as `to`, whatever
    /// directory it had in the archive; `server` says whether that name
    /// is the name of the server's executable.
    Extract { to: String, server: bool },
}

/// Decides what is done with one entry of the archive.
pub fn entry_step(entry: &ArchiveEntry) -> (r: EntryStep)
    ensures
        entry.is_dir ==> r is Skip,
        !entry.is_dir && entry.base_name is None ==> r is Fail && r->Fail_0@
            == "Invalid file name"@,
        !entry.is_dir && entry.base_name is Some ==> r is Extract && r->to@
            == entry.base_name->Some_0@ && r->server == (entry.base_name->Some_0@
            == SERVER_FILENAME@),
{
    if entry.is_dir {
        return EntryStep::Skip;
    }
    match &entry.base_name {
        None => EntryStep::Fail(String::from_str("Invalid file name")),
        Some(base) => {
            let v = chars_of(base.as_str());
            let wanted = chars_of(SERVER_FILENAME);
            let server = v.len() == wanted.len() && has_suffix(&v, &wanted);
            proof {
                assert(v@.subrange(0, v@.len() as int) =~= v@);
            }
            EntryStep::Extract { to: base.clone(), server }
        },
    }
}

/// The outcome of unpacking, once every entry was handled: a bundle without
/// the server's executable is an error.
pub fn finish_bundle(found_server: bool) -> (r: Result<String, String>)
    ensures
        found_server ==> text_result(r) == Ok::<Seq<char>, Seq<char>>(
            "Server downloaded and extracted"@,
        ),
        !found_server ==> text_result(r) == Err::<Seq<char>, Seq<char>>(
            "llama-server.exe not found in the downloaded zip"@,
        ),
{
    if found_server {
        Ok(String::from_str("Server downloaded and extracted"))
    } else {
        Err(String::from_str("llama-server.exe not found in the downloaded zip"))
    }
}

/// A file taken out of the bundle, to be written to the installation
/// directory under `name`.
pub struct ExtractedFile {
    pub name: String,
    pub content: Vec<u8>,
    pub server: bool,
}

/// What unpacking gave: the files to write, in the archive's order, and
/// the outcome to report once they are written.
pub struct Unpacked {
    pub files: Vec<ExtractedFile>,
    pub outcome: Result<String, String>,
}

/// The mathematical content of an [`ExtractedFile`].
pub struct FileView {
    pub name: Seq<char>,
    pub content: Seq<u8>,
    pub server: bool,
}

impl View for ExtractedFile {
    type V = FileView;

    open spec fn view(&self) -> FileView {
        FileView { name: self.name@, content: self.content@, server: self.server }
    }
}

/// The views of a list of files.
pub open spec fn files_view(files: Seq<ExtractedFile>) -> Seq<FileView> {
    Seq::new(files.len(), |i: int| files[i]@)
}

/// How far unpacking has come: the files taken out, whether the server's
/// executable is among them, and the message that stopped it, if any.
pub struct Unpacking {
    pub files: Seq<FileView>,
    pub found: bool,
    pub stopped: Option<Seq<char>>,
}

/// Unpacking after one more entry, whose name has the last component
/// `base`. A directory is passed over. Any other entry becomes a file
/// named `base`; an entry that cannot be looked up, has no last component
/// or cannot be read stops the unpacking with a message.
pub open spec fn unpack_entry(before: Unpacking, entry: EntryView, base: Option<Seq<char>>)
    -> Unpacking {
    if before.stopped is Some {
        before
    } else {
        match entry.head {
            Err(e) => Unpacking { stopped: Some(e), ..before },
            Ok((name, is_dir)) => if is_dir {
                before
            } else {
                match base {
                    None => Unpacking { stopped: Some("Invalid file name"@), ..before },
                    Some(to) => match entry.body {
                        Err(e) => Unpacking { stopped: Some(e), ..before },
                        Ok(content) => {
                            let server = to == SERVER_FILENAME@;
                            Unpacking {
                                files: before.files.push(FileView { name: to, content, server }),
                                found: before.found || server,
                                stopped: None,
                            }
                        },
                    },
                }
            },
        }
    }
}

/// Unpacking after the first `n` entries, where `bases` gives the last
/// component of each entry's name.
pub open spec fn unpacked(entries: Seq<EntryView>, bases: Seq<Option<Seq<char>>>, n: int)
    -> Unpacking
    decreases n,
{
    if n <= 0 {
        Unpacking { files: Seq::empty(), found: false, stopped: None }
    } else {
        unpack_entry(unpacked(entries, bases, n - 1), entries[n - 1], bases[n - 1])
    }
}

/// What is reported at the end of an unpacking: the message that stopped
/// it, else success where the server's executable was found.
pub open spec fn outcome_of(u: Unpacking) -> Result<Seq<char>, Seq<char>> {
    match u.stopped {
        Some(e) => Err(e),
        None => if u.found {
            Ok("Server downloaded and extracted"@)
        } else {
            Err("llama-server.exe not found in the downloaded zip"@)
        },
    }
}

/// Whether unpacking looked at the name of entry `j`: it had not stopped
/// before, and the entry could be looked up.
pub open spec fn reached(entries: Seq<EntryView>, bases: Seq<Option<Seq<char>>>, j: int) -> bool {
    unpacked(entries, bases, j).stopped is None && entries[j].head is Ok
}

/// Whether `bases` can be the last components of the names of `entries`,
/// as far as unpacking looked at them.
pub open spec fn named_by(entries: Seq<EntryView>, bases: Seq<Option<Seq<char>>>) -> bool {
    &&& bases.len() == entries.len()
    &&& forall|j: int|
        0 <= j < entries.len() && #[trigger] reached(entries, bases, j) ==> names(
            entries[j].head->Ok_0.0,
            bases[j],
        )
}

/// Whether `r` is what unpacking `entries` gives where the names have the
/// last components `bases`.
pub open spec fn unpacks(r: Unpacked, entries: Seq<EntryView>, bases: Seq<Option<Seq<char>>>)
    -> bool {
    let u = unpacked(entries, bases, entries.len() as int);
    named_by(entries, bases) && files_view(r.files@) == u.files && text_result(r.outcome)
        == outcome_of(u)
}

/// Once stopped, unpacking stays as it is.
pub proof fn lemma_stopped_stays(
    entries: Seq<EntryView>,
    bases: Seq<Option<Seq<char>>>,
    n: int,
    m: int,
)
    requires
        0 <= n <= m,
        unpacked(entries, bases, n).stopped is Some,
    ensures
        unpacked(entries, bases, m) == unpacked(entries, bases, n),
    decreases m - n,
{
    if n < m {
        lemma_stopped_stays(entries, bases, n, m - 1);
    }
}

/// Unpacking the first `n` entries looks at the first `n` names only.
pub proof fn lemma_unpacked_prefix(
    entries: Seq<EntryView>,
    a: Seq<Option<Seq<char>>>,
    b: Seq<Option<Seq<char>>>,
    n: int,
)
    requires
        forall|j: int| 0 <= j < n ==> a[j] == b[j],
    ensures
        unpacked(entries, a, n) == unpacked(entries, b, n),
    decreases n,
{
    if n > 0 {
        lemma_unpacked_prefix(entries, a, b, n - 1);
    }
}

/// The names seen so far, filled up to `len`.
pub open spec fn filled(bases: Seq<Option<Seq<char>>>, len: nat) -> Seq<Option<Seq<char>>> {
    Seq::new(
        len,
        |j: int|
            if j < bases.len() {
                bases[j]
            } else {
                None
            },
    )
}

/// An unpacking that stops at entry `i` is the unpacking of the whole
/// archive, whatever the names of the later entries are.
pub proof fn lemma_stopped_at(entries: Seq<EntryView>, seen: Seq<Option<Seq<char>>>, i: int)
    requires
        0 <= i < entries.len(),
        seen.len() == i + 1,
        forall|j: int|
            0 <= j <= i && entries[j].head is Ok ==> names(entries[j].head->Ok_0.0, seen[j]),
        unpacked(entries, seen, i + 1).stopped is Some,
    ensures
        named_by(entries, filled(seen, entries.len())),
        unpacked(entries, filled(seen, entries.len()), entries.len() as int) == unpacked(
            entries,
            seen,
            i + 1,
        ),
{
    let all = filled(seen, entries.len());
    lemma_unpacked_prefix(entries, all, seen, i + 1);
    lemma_stopped_stays(entries, all, i + 1, entries.len() as int);
    assert forall|j: int| 0 <= j < entries.len() && #[trigger] reached(entries, all, j) implies names(
        entries[j].head->Ok_0.0,
        all[j],
    ) by {
        if j > i {
            lemma_stopped_stays(entries, all, i + 1, j);
        }
    }
}

/// Unpacks the bundle. Directories are passed over; every other entry
/// becomes a file named by the last component of its name. Unpacking stops
/// at the first entry that cannot be looked up, read or named, and the
/// files before it are still handed out. The outcome is a success only
/// where every entry was handled and one of the files is the server's
/// executable, that is, named as it is. What the last component of a name
/// is, the platform decides: the result is exactly the unpacking under a
/// naming that meets [`names`] for every entry whose name was looked at.
pub fn unpack_bundle(bytes: Vec<u8>) -> (r: Unpacked)
    ensures
        archive_read(bytes@) is Err ==> r.files@.len() == 0 && text_result(r.outcome) == Err::<
            Seq<char>,
            Seq<char>,
        >(archive_read(bytes@)->Err_0),
        archive_read(bytes@) is Ok ==> exists|bases: Seq<Option<Seq<char>>>|
            unpacks(r, archive_entries(archive_read(bytes@)->Ok_0), bases),
{
    let ghost raw = bytes@;
    let mut archive = match open(bytes) {
        Ok(a) => a,
        Err(e) => {
            return Unpacked { files: Vec::new(), outcome: Err(e) };
        },
    };
    let ghost opened = archive;
    let ghost entries = archive_entries(archive);
    let ghost mut bases: Seq<Option<Seq<char>>> = Seq::empty();
    let mut files: Vec<ExtractedFile> = Vec::new();
    let mut found: bool = false;
    let n: usize = count(&archive);
    let mut i: usize = 0;
    proof {
        assert(files_view(files@) =~= unpacked(entries, bases, 0).files);
    }
    while i < n
        invariant
            i <= n,
            n == entries.len(),
            raw == bytes@,
            archive_read(raw) == Ok::<zip::ZipArchive<std::io::Cursor<Vec<u8>>>, Seq<char>>(opened),
            entries == archive_entries(opened),
            archive_entries(archive) == entries,
            bases.len() == i,
            forall|j: int|
                0 <= j < i && entries[j].head is Ok ==> names(entries[j].head->Ok_0.0, bases[j]),
            unpacked(entries, bases, i as int) == (Unpacking {
                files: files_view(files@),
                found,
                stopped: None,
            }),
        decreases n - i,
    {
        let ghost before = unpacked(entries, bases, i as int);
        let ghost seen = bases;
        let looked = head(&mut archive, i);
        let (name, is_dir) = match looked {
            Ok(h) => h,
            Err(e) => {
                let r = Unpacked { files, outcome: Err(e) };
                proof {
                    let last = seen.push(None);
                    lemma_unpacked_prefix(entries, last, seen, i as int);
                    lemma_stopped_at(entries, last, i as int);
                    assert(unpacks(
                        r,
                        archive_entries(archive_read(bytes@)->Ok_0),
                        filled(last, entries.len()),
                    ));
                }
                return r;
            },
        };
        let base = base_name(name.as_str());
        proof {
            bases = seen.push(optional_text(base));
            lemma_unpacked_prefix(entries, bases, seen, i as int);
        }
        let entry = ArchiveEntry { base_name: base, name, is_dir };
        match entry_step(&entry) {
            EntryStep::Skip => {},
            EntryStep::Fail(e) => {
                let r = Unpacked { files, outcome: Err(e) };
                proof {
                    lemma_stopped_at(entries, bases, i as int);
                    assert(unpacks(
                        r,
                        archive_entries(archive_read(bytes@)->Ok_0),
                        filled(bases, entries.len()),
                    ));
                }
                return r;
            },
            EntryStep::Extract { to, server } => {
                let content = match body(&mut archive, i) {
                    Ok(c) => c,
                    Err(e) => {
                        let r = Unpacked { files, outcome: Err(e) };
                        proof {
                            lemma_stopped_at(entries, bases, i as int);
                            assert(unpacks(
                                r,
                                archive_entries(archive_read(bytes@)->Ok_0),
                                filled(bases, entries.len()),
                            ));
                        }
                        return r;
                    },
                };
                let ghost old_files = files_view(files@);
                files.push(ExtractedFile { name: to, content, server });
                proof {
                    assert(files_view(files@) =~= old_files.push(
                        FileView { name: to@, content: content@, server },
                    ));
                }
                found = found || server;
            },
        }
        i += 1;
    }
    let r = Unpacked { files, outcome: finish_bundle(found) };
    proof {
        assert(unpacks(r, archive_entries(archive_read(bytes@)->Ok_0), bases));
    }
    r
}

} // verus!
