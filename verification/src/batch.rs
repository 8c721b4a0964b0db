use vstd::prelude::*;

use crate::namegen::{
    clamp_number, effective_prefix, folder_summary_name, new_file_name, spec_clamp,
    spec_effective_prefix, spec_folder_summary_name, spec_is_date_stamp, spec_new_file_name,
    MAX_NUMBER,
};
use crate::paths::{
    extension_chars, file_name_chars, parent_chars, spec_extension, spec_file_name, spec_join,
    spec_parent, spec_with_file_name, with_file_name_chars,
};
use crate::scanner::spec_is_image_path;
use crate::text::{string_from_chars, to_char_vec};
use vstd::string::StringExecFns;

verus! {

/// One successful rename: the original and the new base name.
pub struct FileRename {
    pub original: String,
    pub new: String,
}

/// Why one file of a batch was not renamed.
pub enum FileFailure {
    /// The path does not exist or is not a regular file.
    FileNotFound,
    /// The extension is absent or not a supported image format.
    UnsupportedFormat,
    /// The rename itself failed; the payload is the system's error text.
    RenameFailed(String),
}

/// One failed rename: the base name and the reason.
pub struct FileError {
    pub file: String,
    pub failure: FileFailure,
}

/// A renamed containing folder: its original and its new base name.
pub struct FolderRename {
    pub original: String,
    pub new: String,
}

/// What a whole batch produced. Every file of the batch lands in exactly
/// one of `success` and `error`; at most one of the two folder fields is
/// set.
pub struct RenameResult {
    pub success: Vec<FileRename>,
    pub error: Vec<FileError>,
    pub folder_renamed: Option<FolderRename>,
    pub folder_rename_error: Option<String>,
}

/// The one failure that aborts a batch before any file is touched.
#[derive(Debug)]
pub enum BatchError {
    /// No files were supplied.
    EmptyBatch,
}

/// A rename the caller should attempt: full original path, full new path,
/// and the new base name.
pub struct RenamePlan {
    pub from: String,
    pub to: String,
    pub new_name: String,
}

/// A folder rename the caller should attempt.
pub struct FolderPlan {
    pub from: String,
    pub to: String,
    pub new_name: String,
}

impl FileFailure {
    /// A human-readable reason for the failure.
    pub fn message(&self) -> (r: String)
        ensures
            match self {
                FileFailure::FileNotFound => r@ == "file does not exist"@,
                FileFailure::UnsupportedFormat => r@ == "not a supported image format"@,
                FileFailure::RenameFailed(m) => r@ == m@,
            },
    {
        match self {
            FileFailure::FileNotFound => String::from_str("file does not exist"),
            FileFailure::UnsupportedFormat => String::from_str("not a supported image format"),
            FileFailure::RenameFailed(m) => m.clone(),
        }
    }
}

/// The sequence number of the file at position `i`, clamped to the
/// supported maximum.
pub open spec fn spec_current_number(start: u32, i: nat) -> u32 {
    if start + i > MAX_NUMBER {
        MAX_NUMBER
    } else {
        (start + i) as u32
    }
}

/// Extending a sequence by one element adds that element's membership and
/// nothing else.
pub proof fn lemma_push_contains(s: Seq<int>, x: int, j: int)
    ensures
        s.push(x).contains(j) <==> (s.contains(j) || j == x),
{
    if s.contains(j) {
        let i = choose|i: int| 0 <= i < s.len() && s[i] == j;
        assert(s.push(x)[i] == j);
    }
    if j == x {
        assert(s.push(x)[s.len() as int] == j);
    }
    if s.push(x).contains(j) && j != x {
        let i = choose|i: int| 0 <= i < s.push(x).len() && s.push(x)[i] == j;
        assert(0 <= i < s.len());
        assert(s[i] == j);
    }
}

/// One batch in flight. The caller drives it: it reports for each file in
/// turn whether the file exists, attempts the renames the batch plans, and
/// reports how they went; the batch holds all decisions and bookkeeping.
pub struct Batch {
    /// The files of the batch, in caller order.
    pub files: Vec<String>,
    /// Whether the containing folder should be renamed at the end.
    pub rename_folder: bool,
    /// The effective (already truncated) prefix.
    pub prefix: Vec<char>,
    /// The batch's one date stamp.
    pub date: Vec<char>,
    /// The clamped start number.
    pub start: u32,
    /// The last number assigned to an attempted rename, or `start`.
    pub end_number: u32,
    /// How many files are fully processed.
    pub idx: usize,
    /// Whether a planned rename is outstanding for the file at `idx`.
    pub awaiting: bool,
    /// The new base name of the outstanding rename.
    pub pending_new_name: Vec<char>,
    /// The successful renames so far.
    pub success: Vec<FileRename>,
    /// The failed renames so far.
    pub error: Vec<FileError>,
    /// The parent of the first file, if it has one.
    pub folder: Option<String>,
    /// The folder rename, once it succeeded.
    pub folder_renamed: Option<FolderRename>,
    /// The folder rename's error text, once it failed.
    pub folder_rename_error: Option<String>,
    /// For each success entry, the position in `files` it speaks of.
    pub owners_success: Ghost<Seq<int>>,
    /// For each error entry, the position in `files` it speaks of.
    pub owners_error: Ghost<Seq<int>>,
}

impl Batch {
    /// The internal invariant of a batch in flight.
    pub open spec fn wf(self) -> bool {
        &&& self.files@.len() <= usize::MAX
        &&& self.start <= MAX_NUMBER
        &&& self.start <= self.end_number <= MAX_NUMBER
        &&& self.idx <= self.files@.len()
        &&& self.success@.len() + self.error@.len() == self.idx as int
        &&& self.awaiting ==> self.idx < self.files@.len()
        &&& spec_is_date_stamp(self.date@)
        &&& !(self.folder_renamed is Some && self.folder_rename_error is Some)
        &&& self.outcomes_attributed()
    }

    /// Every processed file owns exactly one outcome entry: the owner
    /// sequences attribute each success and each error entry to a file
    /// position, in file order, and each processed position is claimed by
    /// exactly one of the two lists.
    pub open spec fn outcomes_attributed(self) -> bool {
        &&& self.owners_success@.len() == self.success@.len()
        &&& self.owners_error@.len() == self.error@.len()
        &&& (forall|k: int|
            0 <= k < self.owners_success@.len() ==> 0 <= #[trigger] self.owners_success@[k]
                < self.idx)
        &&& (forall|k: int|
            0 <= k < self.owners_error@.len() ==> 0 <= #[trigger] self.owners_error@[k]
                < self.idx)
        &&& (forall|k1: int, k2: int|
            0 <= k1 < k2 < self.owners_success@.len() ==> #[trigger] self.owners_success@[k1]
                < #[trigger] self.owners_success@[k2])
        &&& (forall|k1: int, k2: int|
            0 <= k1 < k2 < self.owners_error@.len() ==> #[trigger] self.owners_error@[k1]
                < #[trigger] self.owners_error@[k2])
        &&& (forall|j: int|
            0 <= j < self.idx ==> (self.owners_success@.contains(j) != #[trigger] self
                .owners_error@.contains(j)))
        &&& (forall|k: int|
            0 <= k < self.success@.len() ==> #[trigger] self.success@[k].original@
                == spec_file_name(self.files@[self.owners_success@[k]]@))
        &&& (forall|k: int|
            0 <= k < self.error@.len() ==> #[trigger] self.error@[k].file@ == spec_file_name(
                self.files@[self.owners_error@[k]]@,
            ))
    }

    /// All files processed and nothing outstanding.
    pub open spec fn spec_done(self) -> bool {
        self.idx == self.files@.len() && !self.awaiting
    }

    /// Whether the containing folder is to be renamed: the caller asked for
    /// it, the first file had a parent, that parent itself has a parent,
    /// and at least one file was renamed.
    pub open spec fn spec_folder_needed(self) -> bool {
        &&& self.rename_folder
        &&& self.folder is Some
        &&& spec_parent(self.folder->0@) is Some
        &&& self.success@.len() > 0
    }

    /// Record one error entry for the file at the current position and move
    /// past it, attributing the entry to that position.
    fn push_error_entry(&mut self, entry: FileError)
        requires
            old(self).wf(),
            old(self).idx < old(self).files@.len(),
            entry.file@ == spec_file_name(old(self).files@[old(self).idx as int]@),
        ensures
            final(self).wf(),
            final(self).error@ == old(self).error@.push(entry),
            final(self).idx == old(self).idx + 1,
            !final(self).awaiting,
            final(self).files == old(self).files,
            final(self).rename_folder == old(self).rename_folder,
            final(self).prefix == old(self).prefix,
            final(self).date == old(self).date,
            final(self).start == old(self).start,
            final(self).end_number == old(self).end_number,
            final(self).success == old(self).success,
            final(self).folder == old(self).folder,
            final(self).folder_renamed == old(self).folder_renamed,
            final(self).folder_rename_error == old(self).folder_rename_error,
    {
        let ghost j = self.idx as int;
        self.error.push(entry);
        self.owners_error = Ghost(self.owners_error@.push(j));
        self.idx = self.idx + 1;
        self.awaiting = false;
        proof {
            self.lemma_attribution_after_push(*old(self), j, false);
        }
    }

    /// Record one success entry for the file at the current position and
    /// move past it, attributing the entry to that position.
    fn push_success_entry(&mut self, entry: FileRename)
        requires
            old(self).wf(),
            old(self).idx < old(self).files@.len(),
            entry.original@ == spec_file_name(old(self).files@[old(self).idx as int]@),
        ensures
            final(self).wf(),
            final(self).success@ == old(self).success@.push(entry),
            final(self).idx == old(self).idx + 1,
            !final(self).awaiting,
            final(self).files == old(self).files,
            final(self).rename_folder == old(self).rename_folder,
            final(self).prefix == old(self).prefix,
            final(self).date == old(self).date,
            final(self).start == old(self).start,
            final(self).end_number == old(self).end_number,
            final(self).error == old(self).error,
            final(self).folder == old(self).folder,
            final(self).folder_renamed == old(self).folder_renamed,
            final(self).folder_rename_error == old(self).folder_rename_error,
    {
        let ghost j = self.idx as int;
        self.success.push(entry);
        self.owners_success = Ghost(self.owners_success@.push(j));
        self.idx = self.idx + 1;
        self.awaiting = false;
        proof {
            self.lemma_attribution_after_push(*old(self), j, true);
        }
    }

    /// After one entry was pushed for position `j` (to the success list
    /// when `to_success`, else to the error list) and `idx` moved past it,
    /// the attribution invariant still holds.
    proof fn lemma_attribution_after_push(self, prev: Batch, j: int, to_success: bool)
        requires
            prev.outcomes_attributed(),
            j == prev.idx,
            prev.idx < prev.files@.len(),
            self.files == prev.files,
            self.idx == prev.idx + 1,
            if to_success {
                &&& self.owners_success@ == prev.owners_success@.push(j)
                &&& self.owners_error@ == prev.owners_error@
                &&& self.error@ == prev.error@
                &&& self.success@.len() == prev.success@.len() + 1
                &&& self.success@ == prev.success@.push(self.success@.last())
                &&& self.success@.last().original@ == spec_file_name(self.files@[j]@)
            } else {
                &&& self.owners_error@ == prev.owners_error@.push(j)
                &&& self.owners_success@ == prev.owners_success@
                &&& self.success@ == prev.success@
                &&& self.error@.len() == prev.error@.len() + 1
                &&& self.error@ == prev.error@.push(self.error@.last())
                &&& self.error@.last().file@ == spec_file_name(self.files@[j]@)
            },
        ensures
            self.outcomes_attributed(),
    {
        assert forall|i: int| 0 <= i < self.idx implies (self.owners_success@.contains(i)
            != #[trigger] self.owners_error@.contains(i)) by {
            if to_success {
                lemma_push_contains(prev.owners_success@, j, i);
            } else {
                lemma_push_contains(prev.owners_error@, j, i);
            }
            if i < prev.idx {
                assert(prev.owners_success@.contains(i) != prev.owners_error@.contains(i));
            } else {
                // the new position is claimed only by the pushed entry:
                // every earlier owner is below it
                if prev.owners_success@.contains(i) {
                    let k = choose|k: int|
                        0 <= k < prev.owners_success@.len() && prev.owners_success@[k] == i;
                    assert(prev.owners_success@[k] < prev.idx);
                }
                if prev.owners_error@.contains(i) {
                    let k = choose|k: int|
                        0 <= k < prev.owners_error@.len() && prev.owners_error@[k] == i;
                    assert(prev.owners_error@[k] < prev.idx);
                }
            }
        }
    }

    /// Start a batch. Fails only on an empty file list. The effective
    /// prefix, the clamped start number and the target folder are fixed
    /// here, before any file is touched.
    pub fn new(
        files: Vec<String>,
        prefix: &str,
        start_number: u32,
        rename_folder: bool,
        date: &str,
    ) -> (r: Result<Batch, BatchError>)
        requires
            spec_is_date_stamp(date@),
        ensures
            match r {
                Err(e) => files@.len() == 0 && e is EmptyBatch,
                Ok(b) => {
                    &&& files@.len() > 0
                    &&& b.wf()
                    &&& b.files == files
                    &&& b.rename_folder == rename_folder
                    &&& b.prefix@ == spec_effective_prefix(prefix@, start_number, files@.len())
                    &&& b.date@ == date@
                    &&& b.start == spec_clamp(start_number)
                    &&& b.end_number == b.start
                    &&& b.idx == 0
                    &&& !b.awaiting
                    &&& b.success@.len() == 0
                    &&& b.error@.len() == 0
                    &&& (match b.folder {
                        Some(f) => spec_parent(files@[0]@) == Some(f@),
                        None => spec_parent(files@[0]@) is None,
                    })
                    &&& b.folder_renamed is None
                    &&& b.folder_rename_error is None
                },
            },
    {
        if files.len() == 0 {
            return Err(BatchError::EmptyBatch);
        }
        let start = clamp_number(start_number);
        let prefix_chars = to_char_vec(prefix);
        let eff = effective_prefix(&prefix_chars, start_number, files.len());
        let date_chars = to_char_vec(date);
        let first = to_char_vec(files[0].as_str());
        let folder: Option<String> = match parent_chars(&first) {
            Some(d) => Some(string_from_chars(&d)),
            None => None,
        };
        Ok(
            Batch {
                files,
                rename_folder,
                prefix: eff,
                date: date_chars,
                start,
                end_number: start,
                idx: 0,
                awaiting: false,
                pending_new_name: Vec::new(),
                success: Vec::new(),
                error: Vec::new(),
                folder,
                folder_renamed: None,
                folder_rename_error: None,
                owners_success: Ghost(Seq::empty()),
                owners_error: Ghost(Seq::empty()),
            },
        )
    }

    /// All files processed and nothing outstanding.
    pub fn done(&self) -> (r: bool)
        ensures
            r == self.spec_done(),
    {
        self.idx == self.files.len() && !self.awaiting
    }

    /// The path of the file to handle next.
    pub fn current_path(&self) -> (r: String)
        requires
            !self.awaiting,
            self.idx < self.files@.len(),
        ensures
            r@ == self.files@[self.idx as int]@,
    {
        self.files[self.idx].clone()
    }

    /// Handle the file at the current position, given whether it exists as
    /// a regular file. A missing file or an unsupported extension is
    /// recorded as that file's one error entry and consumes its sequence
    /// number slot without advancing `end_number`. A qualifying file gets
    /// the next sequence number, `end_number` advances to it, and the
    /// planned rename is returned for the caller to attempt; the entry is
    /// recorded by `record_renamed` or `record_rename_failed`.
    pub fn process_file(&mut self, exists: bool) -> (r: Option<RenamePlan>)
        requires
            old(self).wf(),
            !old(self).awaiting,
            old(self).idx < old(self).files@.len(),
        ensures
            final(self).wf(),
            final(self).files == old(self).files,
            final(self).rename_folder == old(self).rename_folder,
            final(self).prefix == old(self).prefix,
            final(self).date == old(self).date,
            final(self).start == old(self).start,
            final(self).folder == old(self).folder,
            final(self).folder_renamed == old(self).folder_renamed,
            final(self).folder_rename_error == old(self).folder_rename_error,
            ({
                let p = old(self).files@[old(self).idx as int]@;
                let qualifies = exists && spec_is_image_path(p);
                if qualifies {
                    &&& r is Some
                    &&& final(self).awaiting
                    &&& final(self).idx == old(self).idx
                    &&& final(self).success == old(self).success
                    &&& final(self).error == old(self).error
                    &&& final(self).end_number == spec_current_number(
                        old(self).start,
                        old(self).idx as nat,
                    )
                    &&& final(self).pending_new_name@ == spec_new_file_name(
                        old(self).prefix@,
                        old(self).date@,
                        final(self).end_number,
                        spec_extension(p)->0,
                    )
                    &&& r->0.new_name@ == final(self).pending_new_name@
                    &&& r->0.from@ == p
                    &&& r->0.to@ == spec_with_file_name(p, final(self).pending_new_name@)
                } else {
                    &&& r is None
                    &&& !final(self).awaiting
                    &&& final(self).idx == old(self).idx + 1
                    &&& final(self).success == old(self).success
                    &&& final(self).end_number == old(self).end_number
                    &&& final(self).error@.len() == old(self).error@.len() + 1
                    &&& final(self).error@.subrange(0, old(self).error@.len() as int) == old(
                        self,
                    ).error@
                    &&& final(self).error@.last().file@ == spec_file_name(p)
                    &&& (if !exists {
                        final(self).error@.last().failure is FileNotFound
                    } else {
                        final(self).error@.last().failure is UnsupportedFormat
                    })
                }
            }),
    {
        let path_chars = to_char_vec(self.files[self.idx].as_str());
        let fname = file_name_chars(&path_chars);
        if !exists {
            let entry = FileError {
                file: string_from_chars(&fname),
                failure: FileFailure::FileNotFound,
            };
            self.push_error_entry(entry);
            proof {
                assert(self.error@.subrange(0, old(self).error@.len() as int) =~= old(
                    self,
                ).error@);
            }
            return None;
        }
        let ext = match extension_chars(&path_chars) {
            Some(e) => {
                if crate::namegen::is_supported_extension(&e) {
                    Some(e)
                } else {
                    None
                }
            },
            None => None,
        };
        match ext {
            None => {
                let entry = FileError {
                    file: string_from_chars(&fname),
                    failure: FileFailure::UnsupportedFormat,
                };
                self.push_error_entry(entry);
                proof {
                    assert(self.error@.subrange(0, old(self).error@.len() as int) =~= old(
                        self,
                    ).error@);
                }
                None
            },
            Some(e) => {
                let num: u32 = if self.idx > (MAX_NUMBER - self.start) as usize {
                    MAX_NUMBER
                } else {
                    self.start + self.idx as u32
                };
                self.end_number = num;
                let new_name = new_file_name(&self.prefix, &self.date, num, &e);
                let new_path = with_file_name_chars(&path_chars, &new_name);
                let plan = RenamePlan {
                    from: self.files[self.idx].clone(),
                    to: string_from_chars(&new_path),
                    new_name: string_from_chars(&new_name),
                };
                self.pending_new_name = new_name;
                self.awaiting = true;
                Some(plan)
            },
        }
    }

    /// Record that the outstanding rename succeeded: the file joins the
    /// success list with its original and its new base name.
    pub fn record_renamed(&mut self)
        requires
            old(self).wf(),
            old(self).awaiting,
        ensures
            final(self).wf(),
            final(self).files == old(self).files,
            final(self).rename_folder == old(self).rename_folder,
            final(self).prefix == old(self).prefix,
            final(self).date == old(self).date,
            final(self).start == old(self).start,
            final(self).end_number == old(self).end_number,
            final(self).folder == old(self).folder,
            final(self).folder_renamed == old(self).folder_renamed,
            final(self).folder_rename_error == old(self).folder_rename_error,
            final(self).error == old(self).error,
            !final(self).awaiting,
            final(self).idx == old(self).idx + 1,
            final(self).success@.len() == old(self).success@.len() + 1,
            final(self).success@.subrange(0, old(self).success@.len() as int) == old(
                self,
            ).success@,
            final(self).success@.last().original@ == spec_file_name(
                old(self).files@[old(self).idx as int]@,
            ),
            final(self).success@.last().new@ == old(self).pending_new_name@,
    {
        let path_chars = to_char_vec(self.files[self.idx].as_str());
        let fname = file_name_chars(&path_chars);
        let entry = FileRename {
            original: string_from_chars(&fname),
            new: string_from_chars(&self.pending_new_name),
        };
        self.push_success_entry(entry);
        proof {
            assert(self.success@.subrange(0, old(self).success@.len() as int) =~= old(
                self,
            ).success@);
        }
    }

    /// Record that the outstanding rename failed with the given system
    /// error text: the file joins the error list and the batch goes on.
    pub fn record_rename_failed(&mut self, msg: String)
        requires
            old(self).wf(),
            old(self).awaiting,
        ensures
            final(self).wf(),
            final(self).files == old(self).files,
            final(self).rename_folder == old(self).rename_folder,
            final(self).prefix == old(self).prefix,
            final(self).date == old(self).date,
            final(self).start == old(self).start,
            final(self).end_number == old(self).end_number,
            final(self).folder == old(self).folder,
            final(self).folder_renamed == old(self).folder_renamed,
            final(self).folder_rename_error == old(self).folder_rename_error,
            final(self).success == old(self).success,
            !final(self).awaiting,
            final(self).idx == old(self).idx + 1,
            final(self).error@.len() == old(self).error@.len() + 1,
            final(self).error@.subrange(0, old(self).error@.len() as int) == old(self).error@,
            final(self).error@.last().file@ == spec_file_name(
                old(self).files@[old(self).idx as int]@,
            ),
            final(self).error@.last().failure matches FileFailure::RenameFailed(m) && m@ == msg@,
    {
        let path_chars = to_char_vec(self.files[self.idx].as_str());
        let fname = file_name_chars(&path_chars);
        let entry = FileError {
            file: string_from_chars(&fname),
            failure: FileFailure::RenameFailed(msg),
        };
        self.push_error_entry(entry);
        proof {
            assert(self.error@.subrange(0, old(self).error@.len() as int) =~= old(
                self,
            ).error@);
        }
    }

    /// The folder rename to attempt once all files are processed, if one
    /// is owed: the summary name carries the effective prefix, the date,
    /// the assigned number range and the success count.
    pub fn folder_plan(&self) -> (r: Option<FolderPlan>)
        requires
            self.wf(),
            self.spec_done(),
        ensures
            r is Some <==> self.spec_folder_needed(),
            match r {
                Some(plan) => {
                    &&& plan.from@ == self.folder->0@
                    &&& plan.new_name@ == spec_folder_summary_name(
                        self.prefix@,
                        self.date@,
                        self.start,
                        self.end_number,
                        self.success@.len(),
                    )
                    &&& plan.to@ == spec_join(
                        spec_parent(self.folder->0@)->0,
                        plan.new_name@,
                    )
                },
                None => true,
            },
    {
        if !self.rename_folder {
            return None;
        }
        let folder = match &self.folder {
            Some(f) => f,
            None => {
                return None;
            },
        };
        if self.success.len() == 0 {
            return None;
        }
        let folder_chars = to_char_vec(folder.as_str());
        let parent = match parent_chars(&folder_chars) {
            Some(p) => p,
            None => {
                return None;
            },
        };
        let new_name = folder_summary_name(
            &self.prefix,
            &self.date,
            self.start,
            self.end_number,
            self.success.len(),
        );
        let to = crate::paths::join_chars(&parent, &new_name);
        Some(
            FolderPlan {
                from: folder.clone(),
                to: string_from_chars(&to),
                new_name: string_from_chars(&new_name),
            },
        )
    }

    /// Record that the folder rename succeeded.
    pub fn record_folder_renamed(&mut self)
        requires
            old(self).wf(),
            old(self).spec_done(),
            old(self).spec_folder_needed(),
            old(self).folder_renamed is None,
            old(self).folder_rename_error is None,
        ensures
            final(self).wf(),
            final(self).spec_done(),
            final(self).files == old(self).files,
            final(self).prefix == old(self).prefix,
            final(self).date == old(self).date,
            final(self).start == old(self).start,
            final(self).end_number == old(self).end_number,
            final(self).success == old(self).success,
            final(self).error == old(self).error,
            final(self).folder_rename_error is None,
            final(self).folder_renamed matches Some(fr) && fr.original@ == spec_file_name(
                old(self).folder->0@,
            ) && fr.new@ == spec_folder_summary_name(
                old(self).prefix@,
                old(self).date@,
                old(self).start,
                old(self).end_number,
                old(self).success@.len(),
            ),
    {
        let folder_chars = to_char_vec(self.folder.as_ref().unwrap().as_str());
        let fname = file_name_chars(&folder_chars);
        let new_name = folder_summary_name(
            &self.prefix,
            &self.date,
            self.start,
            self.end_number,
            self.success.len(),
        );
        self.folder_renamed = Some(
            FolderRename {
                original: string_from_chars(&fname),
                new: string_from_chars(&new_name),
            },
        );
    }

    /// Record that the folder rename failed with the given error text.
    pub fn record_folder_failed(&mut self, msg: String)
        requires
            old(self).wf(),
            old(self).spec_done(),
            old(self).folder_renamed is None,
            old(self).folder_rename_error is None,
        ensures
            final(self).wf(),
            final(self).spec_done(),
            final(self).files == old(self).files,
            final(self).prefix == old(self).prefix,
            final(self).date == old(self).date,
            final(self).start == old(self).start,
            final(self).end_number == old(self).end_number,
            final(self).success == old(self).success,
            final(self).error == old(self).error,
            final(self).folder_renamed is None,
            final(self).folder_rename_error matches Some(m) && m@ == msg@,
    {
        self.folder_rename_error = Some(msg);
    }

    /// Close the batch: hand out the accumulated outcome and the record to
    /// persist. Every file of the batch is in exactly one of the two
    /// lists; the record offers `end_number + 1` and the effective prefix
    /// next time.
    pub fn finish(self) -> (r: (RenameResult, crate::config::Config))
        requires
            self.wf(),
            self.spec_done(),
        ensures
            r.0.success == self.success,
            r.0.error == self.error,
            r.0.folder_renamed == self.folder_renamed,
            r.0.folder_rename_error == self.folder_rename_error,
            r.0.success@.len() + r.0.error@.len() == self.files@.len(),
            !(r.0.folder_renamed is Some && r.0.folder_rename_error is Some),
            r.1.last_number == self.end_number + 1,
            r.1.last_prefix@ == self.prefix@,
    {
        let config = crate::config::Config {
            last_number: self.end_number + 1,
            last_prefix: string_from_chars(&self.prefix),
        };
        let result = RenameResult {
            success: self.success,
            error: self.error,
            folder_renamed: self.folder_renamed,
            folder_rename_error: self.folder_rename_error,
        };
        (result, config)
    }

    /// Law: a finished batch accounts for every file exactly once. The two
    /// lists together hold one entry per file; the owner sequences
    /// attribute every entry to a distinct file position, in file order,
    /// claim every position in exactly one list, and each entry carries
    /// that file's base name.
    pub proof fn lemma_every_file_has_one_outcome(self)
        requires
            self.wf(),
            self.spec_done(),
        ensures
            self.success@.len() + self.error@.len() == self.files@.len(),
            forall|j: int|
                0 <= j < self.files@.len() ==> (self.owners_success@.contains(j) != #[trigger] self
                    .owners_error@.contains(j)),
            forall|k: int|
                0 <= k < self.success@.len() ==> 0 <= self.owners_success@[k]
                    < self.files@.len() && #[trigger] self.success@[k].original@
                    == spec_file_name(self.files@[self.owners_success@[k]]@),
            forall|k: int|
                0 <= k < self.error@.len() ==> 0 <= self.owners_error@[k] < self.files@.len()
                    && #[trigger] self.error@[k].file@ == spec_file_name(
                    self.files@[self.owners_error@[k]]@,
                ),
    {
    }
}

} // verus!
