//! The collector pipeline: which discovered files contribute to the report,
//! what each contributed record holds, and how the report is rendered.

use crate::text::{any_contains, matches_any};
use crate::util::{decode_text, is_utf8_text};
use vstd::prelude::*;
use vstd::string::StringExecFns;
use vstd::utf8::{decode_utf8, valid_utf8};

verus! {

/// The collector's configuration: the directory to walk and the two optional
/// substring filters.
pub struct App {
    /// The directory whose files are collected.
    pub path: String,
    /// Filename substrings to include; `None` keeps every name.
    pub file_names: Option<Vec<String>>,
    /// Path substrings to exclude; `None` excludes nothing.
    pub not_need_paths: Option<Vec<String>>,
}

/// What the directory walk observed of one regular file.
pub struct FileEntry {
    /// The file's name, the last component of its path.
    pub name: String,
    /// The file's rendered path.
    pub path: String,
    /// The bytes read from the start of the file, at most its first 1024.
    pub prefix: Vec<u8>,
    /// The file's full contents, or `None` when reading them failed.
    pub data: Option<Vec<u8>>,
}

/// One collected file: its rendered path and its contents decoded as UTF-8.
pub struct FileInfo {
    /// The file's rendered path.
    pub path: String,
    /// The file's contents.
    pub content: String,
}

/// Mathematical image of an [`App`].
pub ghost struct AppModel {
    pub path: Seq<char>,
    pub file_names: Option<Seq<Seq<char>>>,
    pub not_need_paths: Option<Seq<Seq<char>>>,
}

/// Mathematical image of a [`FileEntry`].
pub ghost struct EntryModel {
    pub name: Seq<char>,
    pub path: Seq<char>,
    pub prefix: Seq<u8>,
    pub data: Option<Seq<u8>>,
}

/// Mathematical image of a [`FileInfo`].
pub ghost struct RecordModel {
    pub path: Seq<char>,
    pub content: Seq<char>,
}

impl View for App {
    type V = AppModel;

    open spec fn view(&self) -> AppModel {
        AppModel {
            path: self.path@,
            file_names: self.file_names.deep_view(),
            not_need_paths: self.not_need_paths.deep_view(),
        }
    }
}

impl View for FileEntry {
    type V = EntryModel;

    open spec fn view(&self) -> EntryModel {
        EntryModel {
            name: self.name@,
            path: self.path@,
            prefix: self.prefix@,
            data: match self.data {
                Some(d) => Some(d@),
                None => None,
            },
        }
    }
}

impl View for FileInfo {
    type V = RecordModel;

    open spec fn view(&self) -> RecordModel {
        RecordModel { path: self.path@, content: self.content@ }
    }
}

/// The images of a sequence of entries.
pub open spec fn entries_model(es: Seq<FileEntry>) -> Seq<EntryModel> {
    es.map_values(|e: FileEntry| e@)
}

/// The images of a sequence of records.
pub open spec fn records_model(rs: Seq<FileInfo>) -> Seq<RecordModel> {
    rs.map_values(|f: FileInfo| f@)
}

/// Some configured exclude substring occurs in the rendered path.
pub open spec fn path_excluded(cfg: AppModel, path: Seq<char>) -> bool {
    match cfg.not_need_paths {
        Some(subs) => any_contains(subs, path),
        None => false,
    }
}

/// Either no include filter is configured, or some configured substring
/// occurs in the file's name.
pub open spec fn name_matched(cfg: AppModel, name: Seq<char>) -> bool {
    match cfg.file_names {
        Some(subs) => any_contains(subs, name),
        None => true,
    }
}

/// The file's contents were read and they decode as UTF-8.
pub open spec fn readable_text(data: Option<Seq<u8>>) -> bool {
    match data {
        Some(d) => valid_utf8(d),
        None => false,
    }
}

/// A file contributes to the report exactly when its leading bytes are valid
/// UTF-8, no exclude substring occurs in its path, its name passes the
/// include filter, and its full contents were read as UTF-8 text.
pub open spec fn entry_kept(cfg: AppModel, e: EntryModel) -> bool {
    &&& valid_utf8(e.prefix)
    &&& !path_excluded(cfg, e.path)
    &&& name_matched(cfg, e.name)
    &&& readable_text(e.data)
}

/// The record a kept entry contributes: its path and its decoded contents.
pub open spec fn record_of(e: EntryModel) -> RecordModel
    recommends
        readable_text(e.data),
{
    RecordModel {
        path: e.path,
        content: match e.data {
            Some(d) => decode_utf8(d),
            None => Seq::empty(),
        },
    }
}

/// What the collector decides about one entry, with the reasons ranked as the
/// walk tests them.
#[derive(Clone, Copy, Debug, PartialEq, Eq, Structural)]
pub enum Verdict {
    /// The entry passes every filter and contributes a record.
    Keep,
    /// The leading bytes are not valid UTF-8: the file counts as binary.
    NotText,
    /// An exclude substring occurs in the file's path.
    ExcludedPath,
    /// An include filter is configured and no substring occurs in the name.
    NameMismatch,
    /// The contents could not be read as UTF-8 text.
    ReadFailed,
}

/// The verdict an entry receives, testing the skip reasons in order.
pub open spec fn verdict_model(cfg: AppModel, e: EntryModel) -> Verdict {
    if !valid_utf8(e.prefix) {
        Verdict::NotText
    } else if path_excluded(cfg, e.path) {
        Verdict::ExcludedPath
    } else if !name_matched(cfg, e.name) {
        Verdict::NameMismatch
    } else if !readable_text(e.data) {
        Verdict::ReadFailed
    } else {
        Verdict::Keep
    }
}

impl App {
    /// Decides what becomes of one observed file: kept, or skipped for the
    /// first reason that applies.
    pub fn entry_verdict(&self, e: &FileEntry) -> (v: Verdict)
        ensures
            v == verdict_model(self@, e@),
            (v == Verdict::Keep) == entry_kept(self@, e@),
    {
        if !is_utf8_text(e.prefix.as_slice()) {
            return Verdict::NotText;
        }
        let excluded = match &self.not_need_paths {
            Some(subs) => matches_any(subs, e.path.as_str()),
            None => false,
        };
        if excluded {
            return Verdict::ExcludedPath;
        }
        let named = match &self.file_names {
            Some(subs) => matches_any(subs, e.name.as_str()),
            None => true,
        };
        if !named {
            return Verdict::NameMismatch;
        }
        match &e.data {
            Some(d) => {
                if is_utf8_text(d.as_slice()) {
                    Verdict::Keep
                } else {
                    Verdict::ReadFailed
                }
            },
            None => Verdict::ReadFailed,
        }
    }
}

/// The records the kept entries contribute, in discovery order.
pub open spec fn collect_model(cfg: AppModel, es: Seq<EntryModel>) -> Seq<RecordModel>
    decreases es.len(),
{
    if es.len() == 0 {
        Seq::empty()
    } else {
        collect_model(cfg, es.drop_last()) + if entry_kept(cfg, es.last()) {
            seq![record_of(es.last())]
        } else {
            Seq::empty()
        }
    }
}

impl App {
    /// Builds one record for each observed file that is kept: its leading
    /// bytes are UTF-8, no exclude substring occurs in its path, its name
    /// passes the include filter, and its contents decode as UTF-8.
    pub fn collect_entries(&self, entries: &Vec<FileEntry>) -> (r: Vec<FileInfo>)
        ensures
            records_model(r@) == collect_model(self@, entries_model(entries@)),
    {
        let mut results: Vec<FileInfo> = Vec::new();
        let mut i: usize = 0;
        while i < entries.len()
            invariant
                i <= entries@.len(),
                records_model(results@) == collect_model(
                    self@,
                    entries_model(entries@.take(i as int)),
                ),
            decreases entries@.len() - i,
        {
            let ghost prev = results@;
            let e = &entries[i];
            let v = self.entry_verdict(e);
            if v == Verdict::Keep {
                let data = e.data.as_ref().unwrap();
                let content = decode_text(data.as_slice()).unwrap();
                let rec = FileInfo { path: e.path.clone(), content };
                assert(rec@ == record_of(e@));
                results.push(rec);
            }
            proof {
                let taken = entries_model(entries@.take(i as int + 1));
                assert(taken.drop_last() =~= entries_model(entries@.take(i as int)));
                assert(taken.last() == entries@[i as int]@);
                if entry_kept(self@, e@) {
                    assert(records_model(results@) =~= records_model(prev) + seq![
                        results@.last()@,
                    ]);
                } else {
                    assert(records_model(results@) =~= records_model(prev) + Seq::empty());
                }
            }
            i += 1;
        }
        proof {
            assert(entries@.take(entries@.len() as int) =~= entries@);
        }
        results
    }
}

/// How one record renders: a label line, the path, a second label line, the
/// contents, the block closed by a newline.
pub open spec fn render_model(rec: RecordModel) -> Seq<char> {
    "文件路径：\n"@ + rec.path + "\n"@ + "文件内容：\n"@ + rec.content + "\n"@
}

/// How a sequence of records renders as one report: the blocks concatenated
/// in reverse order, the last collected record first.
pub open spec fn report_model(rs: Seq<RecordModel>) -> Seq<char>
    decreases rs.len(),
{
    if rs.len() == 0 {
        Seq::empty()
    } else {
        render_model(rs.last()) + report_model(rs.drop_last())
    }
}

impl FileInfo {
    /// Renders this record as its two-line header/body block.
    pub fn to_display_string(&self) -> (r: String)
        ensures
            r@ == render_model(self@),
    {
        let mut s = String::new();
        s.append("文件路径：\n");
        s.append(self.path.as_str());
        s.append("\n");
        s.append("文件内容：\n");
        s.append(self.content.as_str());
        s.append("\n");
        proof {
            assert(s@ =~= render_model(self@));
        }
        s
    }
}

/// Renders the whole report from the collected records, consuming them from
/// the last collected backwards, and counts the files included.
pub fn build_report(records: &Vec<FileInfo>) -> (r: (String, usize))
    ensures
        r.0@ == report_model(records_model(records@)),
        r.1 == records@.len(),
{
    let ghost all = records_model(records@);
    let mut out = String::new();
    let mut count: usize = 0;
    let mut i: usize = records.len();
    proof {
        assert(all.subrange(0, records@.len() as int) =~= all);
    }
    while i > 0
        invariant
            i <= records@.len(),
            records@.len() <= usize::MAX,
            all == records_model(records@),
            all.len() == records@.len(),
            count == records@.len() - i,
            out@ + report_model(all.subrange(0, i as int)) =~= report_model(all),
        decreases i,
    {
        i -= 1;
        let block = records[i].to_display_string();
        out.append(block.as_str());
        count += 1;
        proof {
            let sub = all.subrange(0, i as int + 1);
            assert(sub.drop_last() =~= all.subrange(0, i as int));
            assert(sub.last() == all[i as int]);
            assert(out@ + report_model(all.subrange(0, i as int)) =~= report_model(all));
        }
    }
    proof {
        assert(report_model(all.subrange(0, 0)) =~= Seq::<char>::empty());
        assert(out@ =~= report_model(all));
    }
    (out, count)
}

} // verus!
