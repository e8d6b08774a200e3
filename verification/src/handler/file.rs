//! The file sink: routes each record to a per-target log file and lays
//! out its text.
//!
//! The handler models the files as data: one entry per target, holding
//! the lines appended since the last flush (`pending`) and the lines a
//! flush has already persisted (`flushed`). The thin runtime outside
//! the library drains the pending lines into real append-mode files
//! named `<root>/<target>.log`; every routing and layout decision is
//! stated in the contracts here.

use crate::log_msg::LogMsg;
use crate::timestamp::spec_iso_time_str;
use crate::util::{spec_module, spec_target, str_eq};
use vstd::prelude::*;
use vstd::string::StringExecFns;
use vstd::utf8::decode_utf8;

verus! {

/// The modeled state of one per-target log file.
pub struct FileSinkEntry {
    /// The target whose records this file collects.
    pub target: String,
    /// Lines appended since the last flush, oldest first, without the
    /// trailing newline.
    pub pending: Vec<String>,
    /// Lines already persisted by a flush, oldest first.
    pub flushed: Vec<String>,
}

/// First index of the entry for `target` in `entries`, or `-1`.
pub open spec fn entry_index(entries: Seq<FileSinkEntry>, target: Seq<char>) -> int
    decreases entries.len(),
{
    if entries.len() == 0 {
        -1
    } else if entries[0].target@ == target {
        0
    } else {
        let r = entry_index(entries.drop_first(), target);
        if r < 0 {
            -1
        } else {
            r + 1
        }
    }
}

/// `entry_index` finds the entry of the given target, and the first one.
pub proof fn lemma_entry_index_correct(entries: Seq<FileSinkEntry>, target: Seq<char>)
    ensures
        entry_index(entries, target) >= 0 ==> {
            &&& entry_index(entries, target) < entries.len()
            &&& entries[entry_index(entries, target)].target@ == target
            &&& forall|j: int|
                0 <= j < entry_index(entries, target) ==> entries[j].target@ != target
        },
        entry_index(entries, target) < 0 ==> forall|j: int|
            0 <= j < entries.len() ==> entries[j].target@ != target,
    decreases entries.len(),
{
    if entries.len() == 0 {
    } else if entries[0].target@ == target {
    } else {
        let t = entries.drop_first();
        lemma_entry_index_correct(t, target);
        assert forall|j: int| 1 <= j < entries.len() implies entries[j] == t[j - 1] by {
            assert(t[j - 1] == entries[j]);
        }
        if entry_index(t, target) >= 0 {
            assert(entries[entry_index(entries, target)] == t[entry_index(t, target)]);
        }
    }
}

/// The file line layout: `[LEVEL] (TIME) MODULE: BODY`, with the time
/// kept in UTC.
pub open spec fn spec_file_text(msg: LogMsg) -> Seq<char> {
    "["@ + msg.spec_level().spec_str() + "] ("@ + spec_iso_time_str(msg.spec_time()) + ") "@
        + spec_module(msg.spec_location().spec_mod_path()) + ": "@ + decode_utf8(msg.body())
}

/// How one write step moves the file sink from state `a` to state `b`:
/// the record's line is appended to the pending lines of its target's
/// entry, and a missing entry is created at the end of the list.
pub open spec fn spec_file_write_rel(a: FileHandler, b: FileHandler, msg: LogMsg) -> bool {
    let t = spec_target(msg.spec_location().spec_mod_path());
    let line = spec_file_text(msg);
    let i = entry_index(a.entries(), t);
    &&& b.spec_path() == a.spec_path()
    &&& if i >= 0 {
        &&& b.entries().len() == a.entries().len()
        &&& forall|j: int|
            0 <= j < a.entries().len() && j != i ==> b.entries()[j] == a.entries()[j]
        &&& b.entries()[i].target == a.entries()[i].target
        &&& b.entries()[i].flushed == a.entries()[i].flushed
        &&& b.entries()[i].pending@.len() == a.entries()[i].pending@.len() + 1
        &&& b.entries()[i].pending@.drop_last() == a.entries()[i].pending@
        &&& b.entries()[i].pending@.last()@ == line
    } else {
        &&& b.entries().len() == a.entries().len() + 1
        &&& b.entries().drop_last() == a.entries()
        &&& b.entries().last().target@ == t
        &&& b.entries().last().flushed@ == Seq::<String>::empty()
        &&& b.entries().last().pending@.len() == 1
        &&& b.entries().last().pending@[0]@ == line
    }
}

/// How one flush step moves the file sink from state `a` to state `b`:
/// each entry's pending lines move, in order, to the end of its flushed
/// lines.
pub open spec fn spec_file_flush_rel(a: FileHandler, b: FileHandler) -> bool {
    &&& b.spec_path() == a.spec_path()
    &&& b.entries().len() == a.entries().len()
    &&& forall|i: int|
        0 <= i < a.entries().len() ==> {
            &&& b.entries()[i].target == a.entries()[i].target
            &&& b.entries()[i].flushed@ == a.entries()[i].flushed@ + a.entries()[i].pending@
            &&& b.entries()[i].pending@ == Seq::<String>::empty()
        }
}

/// The file sinks `x` and `y` agree observably: same root, and entry
/// for entry the same target and the same pending and flushed lines.
pub open spec fn file_obs_eq(x: FileHandler, y: FileHandler) -> bool {
    &&& x.spec_path() == y.spec_path()
    &&& x.entries().len() == y.entries().len()
    &&& forall|i: int|
        0 <= i < x.entries().len() ==> {
            &&& (#[trigger] x.entries()[i]).target@ == y.entries()[i].target@
            &&& x.entries()[i].pending@ == y.entries()[i].pending@
            &&& x.entries()[i].flushed@ == y.entries()[i].flushed@
        }
}

/// Lays out one record in the file line layout
/// `[LEVEL] (TIME) MODULE: BODY`, with the time kept in UTC.
pub fn render_file_text(msg: &LogMsg) -> (r: String)
    requires
        msg.wf(),
    ensures
        r@ == spec_file_text(*msg),
{
    let (_target, module) = msg.location().get_target_module();
    let mut line = String::from_str("[");
    line.append(msg.level().as_str());
    line.append("] (");
    line.append(crate::timestamp::format_iso_time_str(msg.time()).as_str());
    line.append(") ");
    line.append(module);
    line.append(": ");
    line.append(msg.msg());
    proof {
        assert(line@ =~= spec_file_text(*msg));
    }
    line
}

/// A file handler which writes log messages into different files, each
/// named by the target name.
pub struct FileHandler {
    path: String,
    entries: Vec<FileSinkEntry>,
}

impl FileHandler {
    /// The root directory the log files live under.
    pub closed spec fn spec_path(self) -> Seq<char> {
        self.path@
    }

    /// The modeled per-target files.
    pub closed spec fn entries(self) -> Seq<FileSinkEntry> {
        self.entries@
    }

    /// Creates a new [`FileHandler`].
    ///
    /// # Arguments
    ///
    /// * `path`: the path to the base folder which should contain logs.
    pub fn new(path: String) -> (r: FileHandler)
        ensures
            r.spec_path() == path@,
            r.entries() == Seq::<FileSinkEntry>::empty(),
    {
        FileHandler { path, entries: Vec::new() }
    }

    /// The root directory the log files live under.
    pub fn path(&self) -> (r: &str)
        ensures
            r@ == self.spec_path(),
    {
        self.path.as_str()
    }

    /// The modeled per-target files, for inspection.
    pub fn entries_ref(&self) -> (r: &Vec<FileSinkEntry>)
        ensures
            r@ == self.entries(),
    {
        &self.entries
    }

    /// Lays out one record and appends it to the pending lines of its
    /// target's entry, creating the entry on first use.
    pub fn write(&mut self, msg: &LogMsg)
        requires
            msg.wf(),
        ensures
            spec_file_write_rel(*old(self), *final(self), *msg),
    {
        let (target, _module) = msg.location().get_target_module();
        let line = render_file_text(msg);
        proof {
            lemma_entry_index_correct(self.entries@, target@);
        }
        let n = self.entries.len();
        let mut idx: usize = 0;
        while idx < n
            invariant
                n == self.entries@.len(),
                0 <= idx <= n,
                self.path == old(self).path,
                self.entries@ == old(self).entries(),
                line@ == spec_file_text(*msg),
                target@ == spec_target(msg.spec_location().spec_mod_path()),
                forall|j: int| 0 <= j < idx ==> self.entries@[j].target@ != target@,
            decreases n - idx,
        {
            if str_eq(self.entries[idx].target.as_str(), target) {
                proof {
                    assert(entry_index(self.entries@, target@) == idx as int) by {
                        lemma_entry_index_correct(self.entries@, target@);
                    }
                }
                let mut entry = FileSinkEntry {
                    target: String::new(),
                    pending: Vec::new(),
                    flushed: Vec::new(),
                };
                vstd::pervasive::VecAdditionalExecFns::set_and_swap(
                    &mut self.entries,
                    idx,
                    &mut entry,
                );
                entry.pending.push(line);
                vstd::pervasive::VecAdditionalExecFns::set_and_swap(
                    &mut self.entries,
                    idx,
                    &mut entry,
                );
                proof {
                    assert(self.entries@[idx as int].pending@.drop_last() =~= old(
                        self,
                    ).entries()[idx as int].pending@);
                }
                return ;
            }
            idx = idx + 1;
        }
        proof {
            assert(entry_index(self.entries@, target@) < 0) by {
                lemma_entry_index_correct(self.entries@, target@);
                if entry_index(self.entries@, target@) >= 0 {
                }
            }
        }
        let mut pending: Vec<String> = Vec::new();
        pending.push(line);
        let entry = FileSinkEntry { target: target.to_owned(), pending, flushed: Vec::new() };
        self.entries.push(entry);
        proof {
            assert(self.entries@.drop_last() =~= old(self).entries());
        }
    }

    /// Persists the pending lines of every entry: each entry's pending
    /// lines move, in order, to the end of its flushed lines.
    pub fn flush(&mut self)
        ensures
            spec_file_flush_rel(*old(self), *final(self)),
    {
        let n = self.entries.len();
        let mut idx: usize = 0;
        while idx < n
            invariant
                n == self.entries@.len() == old(self).entries().len(),
                0 <= idx <= n,
                self.path == old(self).path,
                forall|i: int|
                    idx <= i < n ==> self.entries@[i] == old(self).entries()[i],
                forall|i: int|
                    0 <= i < idx ==> {
                        &&& self.entries@[i].target == old(self).entries()[i].target
                        &&& self.entries@[i].flushed@ == old(self).entries()[i].flushed@ + old(
                            self,
                        ).entries()[i].pending@
                        &&& self.entries@[i].pending@ == Seq::<String>::empty()
                    },
            decreases n - idx,
        {
            let mut entry = FileSinkEntry {
                target: String::new(),
                pending: Vec::new(),
                flushed: Vec::new(),
            };
            vstd::pervasive::VecAdditionalExecFns::set_and_swap(&mut self.entries, idx, &mut entry);
            entry.flushed.append(&mut entry.pending);
            vstd::pervasive::VecAdditionalExecFns::set_and_swap(&mut self.entries, idx, &mut entry);
            idx = idx + 1;
        }
    }
}

} // verus!
