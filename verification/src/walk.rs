//! The walk over a directory tree: which files are rule files, what becomes of each,
//! and the order in which their rules reach the admission filter.
//!
//! The tree is handed over as it was read: each path with what was found there. The
//! rules of the files that stand directly in a directory are evaluated together, after
//! the directories below it have been walked.

use crate::admission::{lemma_batch_appends_admitted, Policy};
use crate::config::{RuleExclude, StoredStatic};
use crate::document::{load_documents, loaded_documents, owned_text_of, pairs_view};
use crate::notice::{
    notice_of, notices_view, metadata_failure, metadata_message, parse_failure, parse_message,
    read_failure, read_message, Notice, NoticeView, Severity,
};
use crate::text::{contains_seq, contains_str, same_text};
use crate::yaml::{Loaded, ParseYaml};
use vstd::prelude::*;
use yaml_rust::Yaml;

verus! {

/// A regular file as it was found.
#[derive(Debug)]
pub struct RuleFile {
    /// The path of the file.
    pub path: String,
    /// The extension of the file name, without the dot, if it has one.
    pub extension: Option<String>,
    /// The text of the file, or why it could not be read.
    pub content: Result<String, String>,
}

/// What was found at a path that the loader was asked to walk.
#[derive(Debug)]
pub enum FsNode {
    /// Nothing could be learned of the path.
    Unreadable { path: String },
    /// A regular file.
    File(RuleFile),
    /// Anything else: its entries in the order they were listed, or why it could not
    /// be listed.
    Dir { listing: Result<Vec<DirEntry>, String> },
}

/// One entry of a directory.
#[derive(Debug)]
pub enum DirEntry {
    /// The entry or its kind could not be read; the text says why.
    Failed(String),
    /// A directory, with what was found when it was walked in turn.
    Subdir(FsNode),
    /// A regular file.
    File(RuleFile),
    /// Neither a directory nor a regular file.
    Other,
}

/// Why a walk was given up.
#[derive(Debug)]
pub enum WalkError {
    /// A directory could not be listed, or one of its entries could not be read.
    Io(String),
    /// A count has reached the largest number it can hold.
    CountLimit,
}

/// Why a walk was given up, as mathematical values.
pub enum WalkFailure {
    Io(Seq<char>),
    CountLimit,
}

impl View for WalkError {
    type V = WalkFailure;

    open spec fn view(&self) -> WalkFailure {
        match self {
            WalkError::Io(cause) => WalkFailure::Io(cause@),
            WalkError::CountLimit => WalkFailure::CountLimit,
        }
    }
}

/// How far a walk has come.
pub struct Progress {
    /// What the loader has gathered.
    pub loaded: Loaded,
    /// The notices given so far.
    pub notices: Seq<NoticeView>,
    /// Why the walk was given up, if it was.
    pub failure: Option<WalkFailure>,
}

/// A walk that is under way.
pub open spec fn standing(loaded: Loaded, notices: Seq<Notice>) -> Progress {
    Progress { loaded, notices: notices_view(notices), failure: None }
}

/// A walk that has ended with `res`.
pub open spec fn ended<T>(loaded: Loaded, notices: Seq<Notice>, res: Result<T, WalkError>) -> Progress {
    Progress {
        loaded,
        notices: notices_view(notices),
        failure: match res {
            Ok(_) => None,
            Err(e) => Some(e@),
        },
    }
}

/// The extension of rule files.
pub open spec fn rule_extension() -> Seq<char> {
    "yml"@
}

/// A file with this extension is a rule file.
pub open spec fn is_rule_file(extension: Option<Seq<char>>) -> bool {
    extension == Some(rule_extension())
}

/// The path lies in a tree whose files are never rules: the metadata of a version
/// control system, or the test files of the rule converter. Either kind of path
/// separator counts.
pub open spec fn in_skipped_tree(path: Seq<char>) -> bool {
    ||| contains_seq(path, "/.git/"@)
    ||| contains_seq(path, "\\.git\\"@)
    ||| contains_seq(path, "rules/tools/sigmac/test_files"@)
    ||| contains_seq(path, "rules\\tools\\sigmac\\test_files"@)
}

/// One file failed: it is counted and a warning is given. Where the count of failed
/// files cannot rise, the walk is given up instead.
pub open spec fn fail_file(p: Progress, message: Seq<char>, verbose: bool, quiet: bool) -> Progress {
    if p.loaded.errorrule_count == u128::MAX {
        Progress { loaded: p.loaded, notices: p.notices, failure: Some(WalkFailure::CountLimit) }
    } else {
        Progress {
            loaded: Loaded {
                files: p.loaded.files,
                rulecounter: p.loaded.rulecounter,
                rule_load_cnt: p.loaded.rule_load_cnt,
                rule_status_cnt: p.loaded.rule_status_cnt,
                errorrule_count: (p.loaded.errorrule_count + 1) as u128,
            },
            notices: p.notices.push(notice_of(Severity::Warn, message, verbose, quiet)),
            failure: None,
        }
    }
}

/// Reading the rules of one file: the rules, each with the path of the file; none, and
/// a failed file, where the file could not be read or its text is not well formed.
pub open spec fn load_file(p: Progress, file: RuleFile, verbose: bool, quiet: bool) -> (
    Progress,
    Seq<(Seq<char>, Yaml)>,
) {
    match file.content {
        Err(cause) => (
            fail_file(p, read_message(file.path@, cause@), verbose, quiet),
            Seq::empty(),
        ),
        Ok(text) => match loaded_documents(file.path@, text@) {
            Err(cause) => (
                fail_file(p, parse_message(file.path@, cause), verbose, quiet),
                Seq::empty(),
            ),
            Ok(docs) => (p, docs),
        },
    }
}

/// What governs a walk.
pub struct Context {
    /// What decides admission.
    pub policy: Policy,
    /// Failures are shown on the console.
    pub verbose: bool,
    /// Failures are kept out of the error log.
    pub quiet: bool,
}

impl Context {
    /// The rules gathered at one level are evaluated together. Where the counts have
    /// no room for that many rules, the walk is given up instead.
    pub open spec fn finish(self, p: Progress, batch: Seq<(Seq<char>, Yaml)>) -> Progress {
        if !p.loaded.has_room(batch.len()) {
            Progress { loaded: p.loaded, notices: p.notices, failure: Some(WalkFailure::CountLimit) }
        } else {
            Progress {
                loaded: self.policy.after_batch(p.loaded, batch),
                notices: p.notices,
                failure: None,
            }
        }
    }

    /// The walk of what was found at one path.
    ///
    /// A path of which nothing could be learned gives an error notice and nothing
    /// else. A file is loaded if it has the extension of rule files, and its rules
    /// are evaluated. Anything else is walked entry by entry; where it could not be
    /// listed, the walk is given up.
    pub open spec fn walk_node(self, p: Progress, node: FsNode) -> Progress
        decreases node, 0nat,
    {
        match node {
            FsNode::Unreadable { path } => Progress {
                loaded: p.loaded,
                notices: p.notices.push(
                    notice_of(Severity::Error, metadata_message(path@), self.verbose, self.quiet),
                ),
                failure: None,
            },
            FsNode::File(file) => if !is_rule_file(owned_text_of(file.extension)) {
                p
            } else {
                let (q, docs) = load_file(p, file, self.verbose, self.quiet);
                if q.failure is Some {
                    q
                } else {
                    self.finish(q, docs)
                }
            },
            FsNode::Dir { listing: Err(cause) } => Progress {
                loaded: p.loaded,
                notices: p.notices,
                failure: Some(WalkFailure::Io(cause@)),
            },
            FsNode::Dir { listing: Ok(entries) } => self.walk_entries(
                p,
                entries@,
                0,
                Seq::empty(),
            ),
        }
    }

    /// The walk of the entries of a directory from entry `i` on, with the rules
    /// `batch` gathered from the files before it.
    ///
    /// An entry that could not be read gives the walk up, and the rules gathered at
    /// this level are dropped. A directory is walked on the spot. A file is loaded
    /// if it has the extension of rule files and its path lies in no skipped tree;
    /// its rules join the batch. After the last entry the batch is evaluated.
    pub open spec fn walk_entries(
        self,
        p: Progress,
        entries: Seq<DirEntry>,
        i: nat,
        batch: Seq<(Seq<char>, Yaml)>,
    ) -> Progress
        decreases entries, entries.len() - i,
    {
        if i >= entries.len() {
            self.finish(p, batch)
        } else {
            match entries[i as int] {
                DirEntry::Failed(cause) => Progress {
                    loaded: p.loaded,
                    notices: p.notices,
                    failure: Some(WalkFailure::Io(cause@)),
                },
                DirEntry::Subdir(node) => {
                    let q = self.walk_node(p, node);
                    if q.failure is Some {
                        q
                    } else {
                        self.walk_entries(q, entries, i + 1, batch)
                    }
                },
                DirEntry::File(file) => if !is_rule_file(owned_text_of(file.extension))
                    || in_skipped_tree(file.path@) {
                    self.walk_entries(p, entries, i + 1, batch)
                } else {
                    let (q, docs) = load_file(p, file, self.verbose, self.quiet);
                    if q.failure is Some {
                        q
                    } else {
                        self.walk_entries(q, entries, i + 1, batch + docs)
                    }
                },
                DirEntry::Other => self.walk_entries(p, entries, i + 1, batch),
            }
        }
    }
}

/// A file that could not be read, or whose text is not well formed, is counted as one
/// failed file, gives one warning and no rules, and leaves the admitted rules and the
/// other counts as they were; the walk goes on.
pub proof fn lemma_failed_file_is_counted(p: Progress, file: RuleFile, verbose: bool, quiet: bool)
    requires
        p.failure is None,
        p.loaded.errorrule_count < u128::MAX,
        file.content is Err || loaded_documents(file.path@, file.content->Ok_0@) is Err,
    ensures
        load_file(p, file, verbose, quiet).1.len() == 0,
        load_file(p, file, verbose, quiet).0.failure is None,
        load_file(p, file, verbose, quiet).0.loaded.errorrule_count == p.loaded.errorrule_count + 1,
        load_file(p, file, verbose, quiet).0.loaded.files == p.loaded.files,
        load_file(p, file, verbose, quiet).0.loaded.rulecounter == p.loaded.rulecounter,
        load_file(p, file, verbose, quiet).0.loaded.rule_load_cnt == p.loaded.rule_load_cnt,
        load_file(p, file, verbose, quiet).0.loaded.rule_status_cnt == p.loaded.rule_status_cnt,
        load_file(p, file, verbose, quiet).0.notices.len() == p.notices.len() + 1,
        load_file(p, file, verbose, quiet).0.notices.last().severity == Severity::Warn,
{
}

/// `q` carries on from `p`: the rules admitted and the notices given at `p` still
/// stand, in their places, and the count of failed files has not fallen.
pub open spec fn carries_on(p: Progress, q: Progress) -> bool {
    &&& p.loaded.files.is_prefix_of(q.loaded.files)
    &&& p.notices.is_prefix_of(q.notices)
    &&& p.loaded.errorrule_count <= q.loaded.errorrule_count
}

/// Loading one file carries on from where the walk stood.
pub proof fn lemma_load_file_carries_on(p: Progress, file: RuleFile, verbose: bool, quiet: bool)
    ensures
        carries_on(p, load_file(p, file, verbose, quiet).0),
{
}

/// Evaluating a batch carries on from where the walk stood.
pub proof fn lemma_finish_carries_on(ctx: Context, p: Progress, batch: Seq<(Seq<char>, Yaml)>)
    ensures
        carries_on(p, ctx.finish(p, batch)),
{
    lemma_batch_appends_admitted(ctx.policy, p.loaded, batch);
}

/// A walk never takes back what it found: whatever is walked, and whether or not the
/// walk is given up, the rules admitted before and the notices given before stay in
/// place and the count of failed files does not fall.
pub proof fn lemma_walk_carries_on(ctx: Context, p: Progress, node: FsNode)
    ensures
        carries_on(p, ctx.walk_node(p, node)),
    decreases node, 0nat,
{
    match node {
        FsNode::Unreadable { path } => {},
        FsNode::File(file) => {
            if is_rule_file(owned_text_of(file.extension)) {
                let (q, docs) = load_file(p, file, ctx.verbose, ctx.quiet);
                lemma_load_file_carries_on(p, file, ctx.verbose, ctx.quiet);
                lemma_finish_carries_on(ctx, q, docs);
            }
        },
        FsNode::Dir { listing: Err(cause) } => {},
        FsNode::Dir { listing: Ok(entries) } => {
            lemma_entries_carry_on(ctx, p, entries@, 0, Seq::empty());
        },
    }
}

/// The walk of the entries of a directory never takes back what was found before it.
pub proof fn lemma_entries_carry_on(
    ctx: Context,
    p: Progress,
    entries: Seq<DirEntry>,
    i: nat,
    batch: Seq<(Seq<char>, Yaml)>,
)
    ensures
        carries_on(p, ctx.walk_entries(p, entries, i, batch)),
    decreases entries, entries.len() - i,
{
    if i >= entries.len() {
        lemma_finish_carries_on(ctx, p, batch);
    } else {
        match entries[i as int] {
            DirEntry::Failed(cause) => {},
            DirEntry::Subdir(node) => {
                let q = ctx.walk_node(p, node);
                lemma_walk_carries_on(ctx, p, node);
                if q.failure is None {
                    lemma_entries_carry_on(ctx, q, entries, i + 1, batch);
                }
            },
            DirEntry::File(file) => {
                if !is_rule_file(owned_text_of(file.extension)) || in_skipped_tree(file.path@) {
                    lemma_entries_carry_on(ctx, p, entries, i + 1, batch);
                } else {
                    let (q, docs) = load_file(p, file, ctx.verbose, ctx.quiet);
                    lemma_load_file_carries_on(p, file, ctx.verbose, ctx.quiet);
                    if q.failure is None {
                        lemma_entries_carry_on(ctx, q, entries, i + 1, batch + docs);
                    }
                }
            },
            DirEntry::Other => {
                lemma_entries_carry_on(ctx, p, entries, i + 1, batch);
            },
        }
    }
}

/// Whether a file with this extension is a rule file.
pub fn has_rule_extension(extension: &Option<String>) -> (ok: bool)
    ensures
        ok == is_rule_file(owned_text_of(*extension)),
{
    match extension {
        Some(e) => same_text(e.as_str(), "yml"),
        None => false,
    }
}

/// Whether the path lies in a tree whose files are never rules.
pub fn is_skipped_path(path: &str) -> (skipped: bool)
    ensures
        skipped == in_skipped_tree(path@),
{
    contains_str(path, "/.git/") || contains_str(path, "\\.git\\") || contains_str(
        path,
        "rules/tools/sigmac/test_files",
    ) || contains_str(path, "rules\\tools\\sigmac\\test_files")
}

impl ParseYaml {
    /// What governs a walk under the given settings.
    pub open spec fn context(
        &self,
        min_level: Seq<char>,
        target_level: Seq<char>,
        exclude_ids: RuleExclude,
        stored_static: StoredStatic,
    ) -> Context {
        Context {
            policy: self.policy(min_level, target_level, exclude_ids, stored_static),
            verbose: stored_static.verbose_flag,
            quiet: stored_static.quiet_errors_flag,
        }
    }

    /// Counts one failed file and gives a warning of it.
    fn note_failed_file(
        &mut self,
        message: String,
        stored_static: &StoredStatic,
        notices: &mut Vec<Notice>,
    ) -> (res: Result<(), WalkError>)
        ensures
            ended(final(self)@, final(notices)@, res) == fail_file(
                standing(old(self)@, old(notices)@),
                message@,
                stored_static.verbose_flag,
                stored_static.quiet_errors_flag,
            ),
            final(self).files == old(self).files,
            final(self).rulecounter == old(self).rulecounter,
            final(self).rule_load_cnt == old(self).rule_load_cnt,
            final(self).rule_status_cnt == old(self).rule_status_cnt,
            final(self).exclude_status == old(self).exclude_status,
            final(self).level_map == old(self).level_map,
    {
        if self.errorrule_count == u128::MAX {
            return Err(WalkError::CountLimit);
        }
        let ghost held = notices@;
        let notice = Notice::new(Severity::Warn, message, stored_static);
        notices.push(notice);
        self.errorrule_count = self.errorrule_count + 1;
        assert(notices_view(notices@) =~= notices_view(held).push(notice@));
        Ok(())
    }

    /// Reads the rules of one file: parses its text and pairs each rule with the path
    /// of the file. A file that could not be read, or whose text is not well formed,
    /// is counted as failed and gives a warning and no rules.
    pub fn load_file(
        &mut self,
        file: &RuleFile,
        stored_static: &StoredStatic,
        notices: &mut Vec<Notice>,
    ) -> (res: Result<Vec<(String, Yaml)>, WalkError>)
        ensures
            ended(final(self)@, final(notices)@, res) == load_file(
                standing(old(self)@, old(notices)@),
                *file,
                stored_static.verbose_flag,
                stored_static.quiet_errors_flag,
            ).0,
            res matches Ok(docs) ==> pairs_view(docs@) == load_file(
                standing(old(self)@, old(notices)@),
                *file,
                stored_static.verbose_flag,
                stored_static.quiet_errors_flag,
            ).1,
            final(self).files == old(self).files,
            final(self).rulecounter == old(self).rulecounter,
            final(self).rule_load_cnt == old(self).rule_load_cnt,
            final(self).rule_status_cnt == old(self).rule_status_cnt,
            final(self).exclude_status == old(self).exclude_status,
            final(self).level_map == old(self).level_map,
    {
        let failure = match &file.content {
            Err(cause) => read_failure(file.path.as_str(), cause.as_str()),
            Ok(text) => match load_documents(file.path.as_str(), text.as_str()) {
                Err(cause) => parse_failure(file.path.as_str(), cause.as_str()),
                Ok(docs) => {
                    return Ok(docs);
                },
            },
        };
        match self.note_failed_file(failure, stored_static, notices) {
            Err(e) => Err(e),
            Ok(_) => {
                let none: Vec<(String, Yaml)> = Vec::new();
                assert(pairs_view(none@) =~= Seq::<(Seq<char>, Yaml)>::empty());
                Ok(none)
            },
        }
    }

    /// Evaluates the rules gathered at one level, if the counts have room for them.
    fn finish(
        &mut self,
        batch: Vec<(String, Yaml)>,
        min_level: &str,
        target_level: &str,
        exclude_ids: &RuleExclude,
        stored_static: &StoredStatic,
    ) -> (res: Result<String, WalkError>)
        ensures
            res is Ok <==> old(self)@.has_room(batch@.len()),
            res matches Ok(text) ==> text@ == Seq::<char>::empty() && final(self)@ == old(
                self,
            ).policy(min_level@, target_level@, *exclude_ids, *stored_static).after_batch(
                old(self)@,
                pairs_view(batch@),
            ),
            res matches Err(e) ==> e@ == WalkFailure::CountLimit && final(self)@ == old(self)@,
            final(self).exclude_status == old(self).exclude_status,
            final(self).level_map == old(self).level_map,
    {
        if !self.fits(batch.len()) {
            return Err(WalkError::CountLimit);
        }
        self.admit_batch(batch, min_level, target_level, exclude_ids, stored_static);
        Ok(String::new())
    }

    /// Walks what was found at one path and loads the rules of its rule files.
    ///
    /// The loader and the notices end up as `Context::walk_node` says, and the walk
    /// fails exactly where it says so. A walk that was given up leaves in place what
    /// was loaded and counted before.
    pub fn read_dir(
        &mut self,
        node: &FsNode,
        min_level: &str,
        target_level: &str,
        exclude_ids: &RuleExclude,
        stored_static: &StoredStatic,
        notices: &mut Vec<Notice>,
    ) -> (res: Result<String, WalkError>)
        ensures
            ended(final(self)@, final(notices)@, res) == old(self).context(
                min_level@,
                target_level@,
                *exclude_ids,
                *stored_static,
            ).walk_node(standing(old(self)@, old(notices)@), *node),
            res matches Ok(text) ==> text@ == Seq::<char>::empty(),
            final(self).exclude_status == old(self).exclude_status,
            final(self).level_map == old(self).level_map,
        decreases node,
    {
        let ghost ctx = self.context(min_level@, target_level@, *exclude_ids, *stored_static);
        let ghost start = standing(self@, notices@);
        match node {
            FsNode::Unreadable { path } => {
                let ghost held = notices@;
                let notice = Notice::new(
                    Severity::Error,
                    metadata_failure(path.as_str()),
                    stored_static,
                );
                notices.push(notice);
                assert(notices_view(notices@) =~= notices_view(held).push(notice@));
                Ok(String::new())
            },
            FsNode::File(file) => {
                if !has_rule_extension(&file.extension) {
                    return Ok(String::new());
                }
                match self.load_file(file, stored_static, notices) {
                    Err(e) => Err(e),
                    Ok(docs) => self.finish(
                        docs,
                        min_level,
                        target_level,
                        exclude_ids,
                        stored_static,
                    ),
                }
            },
            FsNode::Dir { listing: Err(cause) } => Err(WalkError::Io(cause.clone())),
            FsNode::Dir { listing: Ok(entries) } => {
                let mut batch: Vec<(String, Yaml)> = Vec::new();
                let mut i: usize = 0;
                assert(pairs_view(batch@) =~= Seq::<(Seq<char>, Yaml)>::empty());
                while i < entries.len()
                    invariant
                        i <= entries.len(),
                        *node == (FsNode::Dir { listing: Ok(*entries) }),
                        self.exclude_status == old(self).exclude_status,
                        self.level_map == old(self).level_map,
                        ctx == self.context(min_level@, target_level@, *exclude_ids, *stored_static),
                        ctx == old(self).context(
                            min_level@,
                            target_level@,
                            *exclude_ids,
                            *stored_static,
                        ),
                        start == standing(old(self)@, old(notices)@),
                        ctx.walk_node(start, *node) == ctx.walk_entries(
                            standing(self@, notices@),
                            entries@,
                            i as nat,
                            pairs_view(batch@),
                        ),
                    decreases entries.len() - i,
                {
                    match &entries[i] {
                        DirEntry::Failed(cause) => {
                            return Err(WalkError::Io(cause.clone()));
                        },
                        DirEntry::Subdir(child) => {
                            match self.read_dir(
                                child,
                                min_level,
                                target_level,
                                exclude_ids,
                                stored_static,
                                notices,
                            ) {
                                Err(e) => {
                                    return Err(e);
                                },
                                Ok(_) => {},
                            }
                        },
                        DirEntry::File(file) => {
                            if has_rule_extension(&file.extension) && !is_skipped_path(
                                file.path.as_str(),
                            ) {
                                match self.load_file(file, stored_static, notices) {
                                    Err(e) => {
                                        return Err(e);
                                    },
                                    Ok(mut docs) => {
                                        let ghost held = batch@;
                                        let ghost more = docs@;
                                        batch.append(&mut docs);
                                        assert(pairs_view(batch@) =~= pairs_view(held) + pairs_view(
                                            more,
                                        ));
                                    },
                                }
                            }
                        },
                        DirEntry::Other => {},
                    }
                    i += 1;
                }
                self.finish(batch, min_level, target_level, exclude_ids, stored_static)
            },
        }
    }
}

} // verus!
