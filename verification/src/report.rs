//! Packing profiles into the report.
//!
//! The report is one zip archive under a fixed name. It is planned from a
//! listing of the profile directory: every regular file goes in, under its
//! own name. The caller removes the archive of an earlier report, reads the
//! files and hands them over; the archive is built in memory from exactly
//! those, or not at all.

use crate::artifact::{join_path, joined, DirEntry, DirEntryView};
use crate::processing::entry_views;
use vstd::prelude::*;
use vstd::utf8::encode_utf8;

verus! {

/// The name of the report's archive in the report directory.
pub const REPORT_FILE_NAME: &'static str = "report.zip";

/// The longest name, in bytes of UTF-8, that an archive member can have.
pub const MAX_MEMBER_NAME_BYTES: usize = 0xFFFF;

/// A file to put into the report.
#[derive(Clone, Debug, PartialEq, Eq)]
pub struct ReportSource {
    /// The name of the file in the archive.
    pub name: String,
    /// The path to read the file from.
    pub path: String,
}

/// What a `ReportSource` holds.
pub struct ReportSourceView {
    pub name: Seq<char>,
    pub path: Seq<char>,
}

impl View for ReportSource {
    type V = ReportSourceView;

    open spec fn view(&self) -> ReportSourceView {
        ReportSourceView { name: self.name@, path: self.path@ }
    }
}

/// How to make a report: the archive to replace, and the files that go into it.
#[derive(Clone, Debug, PartialEq, Eq)]
pub struct ReportPlan {
    /// The path of the archive. An archive found there is removed before the
    /// new one is written.
    pub archive: String,
    /// The files to read, in the order in which they are packed.
    pub sources: Vec<ReportSource>,
}

/// The sources of a plan, each by its view.
pub open spec fn source_views(sources: Seq<ReportSource>) -> Seq<ReportSourceView> {
    sources.map_values(|s: ReportSource| s@)
}

/// The regular files of a listing, in its order.
pub open spec fn files_in(listing: Seq<DirEntryView>) -> Seq<DirEntryView> {
    listing.filter(|e: DirEntryView| e.is_file)
}

/// The source that a file of the profile directory makes: packed under its
/// own name, read from the directory.
pub open spec fn source_of(entry: DirEntryView, profile_dir: Seq<char>) -> ReportSourceView {
    ReportSourceView { name: entry.name, path: joined(profile_dir, entry.name) }
}

/// The sources of the report on a profile directory: its regular files, in
/// the listing's order.
pub open spec fn report_sources(listing: Seq<DirEntryView>, profile_dir: Seq<char>) -> Seq<
    ReportSourceView,
> {
    files_in(listing).map_values(|e: DirEntryView| source_of(e, profile_dir))
}

/// Every regular file of the listing is a source of the report, under its name.
pub proof fn lemma_every_file_is_packed(
    listing: Seq<DirEntryView>,
    profile_dir: Seq<char>,
    i: int,
)
    requires
        0 <= i < listing.len(),
        listing[i].is_file,
    ensures
        report_sources(listing, profile_dir).contains(source_of(listing[i], profile_dir)),
{
    let is_file = |e: DirEntryView| e.is_file;
    let files = files_in(listing);
    listing.lemma_filter_contains(is_file, i);
    let k = choose|k: int| 0 <= k < files.len() && files[k] == listing[i];
    assert(report_sources(listing, profile_dir)[k] == source_of(listing[i], profile_dir));
}

/// Every source of the report is a regular file of the listing; nothing else
/// is packed, and nothing twice over.
pub proof fn lemma_only_files_are_packed(
    listing: Seq<DirEntryView>,
    profile_dir: Seq<char>,
    k: int,
)
    requires
        0 <= k < report_sources(listing, profile_dir).len(),
    ensures
        report_sources(listing, profile_dir).len() == files_in(listing).len(),
        files_in(listing).len() <= listing.len(),
        files_in(listing)[k].is_file,
        listing.contains(files_in(listing)[k]),
        report_sources(listing, profile_dir)[k].name == files_in(listing)[k].name,
{
    let is_file = |e: DirEntryView| e.is_file;
    let files = files_in(listing);
    listing.lemma_filter_len(is_file);
    listing.lemma_filter_pred(is_file, k);
    assert(files.contains(files[k]));
    listing.lemma_filter_contains_rev(is_file, files[k]);
}

/// Plans the report on a profile directory from its listing.
pub fn plan_report(listing: &Vec<DirEntry>, profile_dir: &str, report_dir: &str) -> (plan:
    ReportPlan)
    ensures
        plan.archive@ == joined(report_dir@, REPORT_FILE_NAME@),
        source_views(plan.sources@) == report_sources(entry_views(listing@), profile_dir@),
{
    let mut sources: Vec<ReportSource> = Vec::new();
    let ghost views = entry_views(listing@);
    let ghost is_file = |e: DirEntryView| e.is_file;
    let ghost source = |e: DirEntryView| source_of(e, profile_dir@);
    assert(views.take(0) =~= Seq::<DirEntryView>::empty());
    assert(source_views(sources@) =~= views.take(0).filter(is_file).map_values(source));
    let mut i: usize = 0;
    while i < listing.len()
        invariant
            i <= listing.len(),
            views == entry_views(listing@),
            is_file == |e: DirEntryView| e.is_file,
            source == |e: DirEntryView| source_of(e, profile_dir@),
            source_views(sources@) == views.take(i as int).filter(is_file).map_values(source),
        decreases listing.len() - i,
    {
        let entry = &listing[i];
        let ghost before = views.take(i as int);
        let ghost packed = sources@;
        proof {
            assert(views.take(i + 1) =~= before.push(entry@));
            before.lemma_filter_push(entry@, is_file);
        }
        if entry.is_file {
            let path = join_path(profile_dir, entry.name.as_str());
            sources.push(ReportSource { name: entry.name.clone(), path });
            assert(source_views(sources@) =~= source_views(packed).push(source(entry@)));
            assert(before.filter(is_file).push(entry@).map_values(source) =~= before.filter(
                is_file,
            ).map_values(source).push(source(entry@)));
        }
        i = i + 1;
    }
    assert(views.take(listing.len() as int) =~= views);
    ReportPlan { archive: join_path(report_dir, REPORT_FILE_NAME), sources }
}

/// A file handed over for packing.
#[derive(Clone, Debug, PartialEq, Eq)]
pub struct ReportFile {
    /// The name of the file in the archive.
    pub name: String,
    /// What the file holds, or `None` where it could not be read.
    pub contents: Option<Vec<u8>>,
}

/// What a `ReportFile` holds.
pub struct ReportFileView {
    pub name: Seq<char>,
    pub contents: Option<Seq<u8>>,
}

impl View for ReportFile {
    type V = ReportFileView;

    open spec fn view(&self) -> ReportFileView {
        ReportFileView {
            name: self.name@,
            contents: match self.contents {
                Some(bytes) => Some(bytes@),
                None => None,
            },
        }
    }
}

/// The files handed over, each by its view.
pub open spec fn file_views(files: Seq<ReportFile>) -> Seq<ReportFileView> {
    files.map_values(|f: ReportFile| f@)
}

/// Why no report was packed.
#[derive(Clone, Copy, Debug, PartialEq, Eq, Structural)]
pub enum PackError {
    /// The file at `index` could not be read, and none before it.
    Unreadable { index: usize },
    /// The name of the file at `index` is too long for an archive, and none before it.
    NameTooLong { index: usize },
    /// The archive writer refused a file: it takes no member of more than
    /// `MAX_MEMBER_BYTES`, before or after compression.
    Archive,
}

/// Whether a name is short enough for an archive member.
pub open spec fn name_fits(name: Seq<char>) -> bool {
    encode_utf8(name).len() <= MAX_MEMBER_NAME_BYTES
}

/// Whether `index` is the first file that was not read.
pub open spec fn first_unreadable(files: Seq<ReportFileView>, index: int) -> bool {
    &&& 0 <= index < files.len()
    &&& files[index].contents is None
    &&& forall|j: int| 0 <= j < index ==> (#[trigger] files[j]).contents is Some
}

/// Whether every file was read.
pub open spec fn all_readable(files: Seq<ReportFileView>) -> bool {
    forall|j: int| 0 <= j < files.len() ==> (#[trigger] files[j]).contents is Some
}

/// Whether `index` is the first file whose name is too long.
pub open spec fn first_misfit(files: Seq<ReportFileView>, index: int) -> bool {
    &&& 0 <= index < files.len()
    &&& !name_fits(files[index].name)
    &&& forall|j: int| 0 <= j < index ==> name_fits((#[trigger] files[j]).name)
}

/// Whether every name is short enough.
pub open spec fn all_fit(files: Seq<ReportFileView>) -> bool {
    forall|j: int| 0 <= j < files.len() ==> name_fits((#[trigger] files[j]).name)
}

/// The members of the archive made from `files`: each file's name and contents, in order.
pub open spec fn members(files: Seq<ReportFileView>) -> Seq<(Seq<char>, Seq<u8>)> {
    Seq::new(files.len(), |i: int| (files[i].name, files[i].contents->0))
}

/// The most bytes a member of the archive can hold.
pub const MAX_MEMBER_BYTES: u64 = 0xFFFF_FFFF;

/// A zip archive being written into memory by `zip::ZipWriter`.
#[verifier::external_body]
pub struct ReportArchive {
    writer: zip::ZipWriter<std::io::Cursor<Vec<u8>>>,
}

#[verifier::external_type_specification]
#[verifier::external_body]
pub struct ExZipError(zip::result::ZipError);

/// The members started in an archive so far, in order: the name each was
/// started under and the bytes written to it since.
pub uninterp spec fn archive_members(archive: ReportArchive) -> Seq<(Seq<char>, Seq<u8>)>;

/// Whether the archive is still being written: every call on it so far has
/// succeeded.
pub uninterp spec fn archive_open(archive: ReportArchive) -> bool;

/// Whether `zip::ZipWriter::start_file` succeeds for `name` on an archive
/// that holds `members`.
pub uninterp spec fn archive_starts(members: Seq<(Seq<char>, Seq<u8>)>, name: Seq<char>) -> bool;

/// Whether `zip::ZipWriter::finish` succeeds on an archive that holds `members`.
pub uninterp spec fn archive_finishes(members: Seq<(Seq<char>, Seq<u8>)>) -> bool;

/// The bytes of the finished archive whose members were each started with
/// default options and written in one piece.
pub uninterp spec fn archive_bytes(members: Seq<(Seq<char>, Seq<u8>)>) -> Seq<u8>;

/// Whether the archive writer takes `members`, one after the other: each is
/// started where the ones before it stand, each holds no more than
/// `MAX_MEMBER_BYTES`, and the archive is finished after the last.
pub open spec fn archive_accepts(members: Seq<(Seq<char>, Seq<u8>)>) -> bool {
    &&& forall|i: int|
        0 <= i < members.len() ==> #[trigger] archive_starts(members.take(i), members[i].0)
            && members[i].1.len() <= MAX_MEMBER_BYTES
    &&& archive_finishes(members)
}

/// `zip::ZipWriter::new` over an empty in-memory cursor: a writer that has
/// no members yet. On such a writer a first member of any name starts, and
/// the writer can be finished as it is.
#[verifier::external_body]
fn archive_new() -> (archive: ReportArchive)
    ensures
        archive_members(archive) == Seq::<(Seq<char>, Seq<u8>)>::empty(),
        archive_open(archive),
        archive_finishes(archive_members(archive)),
        forall|name: Seq<char>| #[trigger] archive_starts(archive_members(archive), name),
{
    ReportArchive { writer: zip::ZipWriter::new(std::io::Cursor::new(Vec::new())) }
}

/// `zip::ZipWriter::start_file` with `FileOptions::default()`. Whether it
/// succeeds is named by `archive_starts`. Where it does, a member named
/// `name` with no bytes yet has been started after the others. The name's
/// length in bytes has to fit the 16 bits the archive's headers keep for it,
/// and no earlier call on the archive may have failed.
#[verifier::external_body]
fn archive_start_file(archive: &mut ReportArchive, name: &str) -> (started: Result<
    (),
    zip::result::ZipError,
>)
    requires
        archive_open(*old(archive)),
        name_fits(name@),
    ensures
        started is Ok <==> archive_starts(archive_members(*old(archive)), name@),
        started is Ok ==> archive_open(*final(archive)) && archive_members(*final(archive))
            == archive_members(*old(archive)).push((name@, Seq::<u8>::empty())),
{
    archive.writer.start_file(name, zip::write::FileOptions::default())
}

/// `std::io::Write::write_all` on the `zip::ZipWriter`. It succeeds exactly
/// where `data` holds no more than `MAX_MEMBER_BYTES`, and then all of
/// `data` has been written to the member started last. It is called once for
/// a member, before anything else was written to it.
#[verifier::external_body]
fn archive_write_all(archive: &mut ReportArchive, data: &Vec<u8>) -> (written: Result<
    (),
    zip::result::ZipError,
>)
    requires
        archive_open(*old(archive)),
        archive_members(*old(archive)).len() > 0,
        archive_members(*old(archive)).last().1.len() == 0,
    ensures
        written is Ok <==> data@.len() <= MAX_MEMBER_BYTES,
        written is Ok ==> archive_open(*final(archive)) && archive_members(*final(archive))
            == archive_members(*old(archive)).drop_last().push(
            (archive_members(*old(archive)).last().0, data@),
        ),
{
    std::io::Write::write_all(&mut archive.writer, data).map_err(zip::result::ZipError::Io)
}

/// `zip::ZipWriter::finish`. Whether it succeeds is named by
/// `archive_finishes`. Where it does, the result is the bytes of the archive
/// that holds the members written.
#[verifier::external_body]
fn archive_finish(archive: ReportArchive) -> (bytes: Result<Vec<u8>, zip::result::ZipError>)
    requires
        archive_open(archive),
    ensures
        bytes is Ok <==> archive_finishes(archive_members(archive)),
        bytes matches Ok(b) ==> b@ == archive_bytes(archive_members(archive)),
{
    let mut archive = archive;
    archive.writer.finish().map(std::io::Cursor::into_inner)
}

/// The first file that could not be read, if there is one.
fn find_unreadable(files: &Vec<ReportFile>) -> (found: Option<usize>)
    ensures
        match found {
            Some(index) => first_unreadable(file_views(files@), index as int),
            None => all_readable(file_views(files@)),
        },
{
    let mut i: usize = 0;
    while i < files.len()
        invariant
            i <= files.len(),
            forall|j: int| 0 <= j < i ==> (#[trigger] file_views(files@)[j]).contents is Some,
        decreases files.len() - i,
    {
        assert(file_views(files@)[i as int] == files@[i as int]@);
        if files[i].contents.is_none() {
            return Some(i);
        }
        i = i + 1;
    }
    None
}

/// The first file whose name is too long, if there is one.
fn find_misfit(files: &Vec<ReportFile>) -> (found: Option<usize>)
    ensures
        match found {
            Some(index) => first_misfit(file_views(files@), index as int),
            None => all_fit(file_views(files@)),
        },
{
    let mut i: usize = 0;
    while i < files.len()
        invariant
            i <= files.len(),
            forall|j: int| 0 <= j < i ==> name_fits((#[trigger] file_views(files@)[j]).name),
        decreases files.len() - i,
    {
        assert(file_views(files@)[i as int] == files@[i as int]@);
        if files[i].name.as_str().as_bytes().len() > MAX_MEMBER_NAME_BYTES {
            return Some(i);
        }
        i = i + 1;
    }
    None
}

/// Packs `files` into a zip archive and hands back its bytes.
///
/// Packing is all or nothing. Where a file could not be read, or a name is
/// too long for an archive, nothing is packed and the error names the first
/// such file. Otherwise every file becomes one member, in order, under its
/// name, and the result is the archive of exactly these members, unless the
/// archive writer refuses one of them. No files give the archive without
/// members.
pub fn pack_report(files: &Vec<ReportFile>) -> (packed: Result<Vec<u8>, PackError>)
    ensures
        packed is Ok <==> all_readable(file_views(files@)) && all_fit(file_views(files@))
            && archive_accepts(members(file_views(files@))),
        files@.len() == 0 ==> packed is Ok,
        match packed {
            Ok(bytes) => bytes@ == archive_bytes(members(file_views(files@))),
            Err(PackError::Unreadable { index }) => first_unreadable(
                file_views(files@),
                index as int,
            ),
            Err(PackError::NameTooLong { index }) => all_readable(file_views(files@))
                && first_misfit(file_views(files@), index as int),
            Err(PackError::Archive) => all_readable(file_views(files@)) && all_fit(
                file_views(files@),
            ),
        },
{
    if let Some(index) = find_unreadable(files) {
        assert(file_views(files@)[index as int].contents is None);
        return Err(PackError::Unreadable { index });
    }
    if let Some(index) = find_misfit(files) {
        assert(!name_fits(file_views(files@)[index as int].name));
        return Err(PackError::NameTooLong { index });
    }
    let ghost views = file_views(files@);
    let ghost all = members(views);
    let mut archive = archive_new();
    let mut i: usize = 0;
    assert(archive_members(archive) =~= all.take(0));
    while i < files.len()
        invariant
            i <= files.len(),
            views == file_views(files@),
            all == members(views),
            all_readable(views),
            all_fit(views),
            archive_open(archive),
            archive_members(archive) == all.take(i as int),
            i == 0 ==> archive_finishes(archive_members(archive)),
            i == 0 ==> forall|name: Seq<char>|
                #[trigger] archive_starts(archive_members(archive), name),
            forall|j: int| 0 <= j < i ==> #[trigger] archive_starts(all.take(j), all[j].0),
            forall|j: int| 0 <= j < i ==> (#[trigger] all[j]).1.len() <= MAX_MEMBER_BYTES,
        decreases files.len() - i,
    {
        let file = &files[i];
        assert(views[i as int] == file@);
        assert(all[i as int].0 == file.name@);
        let ghost so_far = archive_members(archive);
        match archive_start_file(&mut archive, file.name.as_str()) {
            Ok(_) => {},
            Err(_) => {
                assert(!archive_starts(all.take(i as int), all[i as int].0));
                return Err(PackError::Archive);
            },
        }
        match &file.contents {
            Some(data) => {
                assert(all[i as int].1 == data@);
                match archive_write_all(&mut archive, data) {
                    Ok(_) => {},
                    Err(_) => {
                        assert(archive_starts(all.take(i as int), all[i as int].0));
                        assert(!(all[i as int].1.len() <= MAX_MEMBER_BYTES));
                        return Err(PackError::Archive);
                    },
                }
                assert(archive_members(archive) =~= so_far.push((file.name@, data@)));
            },
            None => {
                assert(false);
            },
        }
        assert(all.take(i + 1) =~= all.take(i as int).push(all[i as int]));
        assert(archive_starts(all.take(i as int), all[i as int].0));
        assert(all[i as int].1.len() <= MAX_MEMBER_BYTES);
        i = i + 1;
    }
    assert(all.take(files.len() as int) =~= all);
    match archive_finish(archive) {
        Ok(bytes) => Ok(bytes),
        Err(_) => Err(PackError::Archive),
    }
}

} // verus!
