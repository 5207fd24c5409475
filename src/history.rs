//! Bounded, newest-first histories: the audit log, the undo stack and the
//! per-folder version log. Reading and writing them to disk is the caller's
//! work.
use vstd::prelude::*;
use vstd::string::*;
use crate::text::{decimal, decimal_text};

verus! {

/// Most entries an audit log keeps.
pub const MAX_AUDIT_ENTRIES: usize = 1000;

/// Most entries a version log keeps.
pub const MAX_VERSION_ENTRIES: usize = 50;

/// Relies on `chrono::Utc::now` and `DateTime::to_rfc3339`: the current time
/// as RFC 3339 text. Nothing is promised of its value.
#[verifier::external_body]
fn now_rfc3339() -> String {
    chrono::Utc::now().to_rfc3339()
}

/// `e` in front of `s`, keeping at most `max` entries.
pub open spec fn newest_first<T>(s: Seq<T>, e: T, max: nat) -> Seq<T> {
    let t = seq![e] + s;
    if t.len() > max {
        t.subrange(0, max as int)
    } else {
        t
    }
}

/// Inserts `e` at the front of `v` and truncates it to `max` entries.
fn push_front_bounded<T>(v: &mut Vec<T>, e: T, max: usize)
    requires
        max >= 1,
    ensures
        final(v)@ == newest_first(old(v)@, e, max as nat),
{
    v.insert(0, e);
    if v.len() > max {
        v.truncate(max);
    }
    assert(v@ =~= newest_first(old(v)@, e, max as nat));
}

/// Kind of an audited action.
#[derive(Clone, Copy, Debug, PartialEq, Eq, Structural)]
pub enum AuditAction {
    Validation,
    Optimization,
    ReportGeneration,
}

/// One audited action.
#[derive(Debug)]
pub struct AuditEntry {
    pub timestamp: String,
    pub action: AuditAction,
    pub material_path: Option<String>,
    pub score: Option<i32>,
    pub passed: Option<bool>,
    pub min_score: Option<i32>,
    pub issue_count: Option<usize>,
    pub error_count: Option<usize>,
    pub warning_count: Option<usize>,
    pub output_path: Option<String>,
    pub preset: Option<String>,
    pub format: Option<String>,
    pub texture_count: Option<usize>,
    pub certified: bool,
}

/// Audit log, newest entry first.
#[derive(Debug)]
pub struct AuditLog {
    pub entries: Vec<AuditEntry>,
}

impl AuditLog {
    pub fn new() -> (r: AuditLog)
        ensures
            r.entries@.len() == 0,
    {
        AuditLog { entries: Vec::new() }
    }

    /// Records an entry in front, keeping the newest 1000.
    pub fn add(&mut self, entry: AuditEntry)
        ensures
            final(self).entries@ == newest_first(old(self).entries@, entry, MAX_AUDIT_ENTRIES as nat),
    {
        push_front_bounded(&mut self.entries, entry, MAX_AUDIT_ENTRIES);
    }
}

/// Decimal text of a signed number.
pub open spec fn signed_decimal(v: int) -> Seq<char> {
    if v < 0 {
        "-"@ + decimal((-v) as nat)
    } else {
        decimal(v as nat)
    }
}

fn signed_text(v: i32) -> (r: String)
    ensures
        r@ == signed_decimal(v as int),
{
    if v < 0 {
        let mut s = String::from_str("-");
        let d = decimal_text((-(v as i64)) as u128);
        s.append(d.as_str());
        s
    } else {
        decimal_text(v as u128)
    }
}

/// Name of an action in the text export.
pub open spec fn action_word(a: AuditAction) -> Seq<char> {
    match a {
        AuditAction::Validation => "validation"@,
        AuditAction::Optimization => "optimization"@,
        AuditAction::ReportGeneration => "report"@,
    }
}

/// `prefix + value` when present, nothing otherwise.
pub open spec fn opt_field(prefix: Seq<char>, v: Option<Seq<char>>) -> Seq<char> {
    match v {
        Some(x) => prefix + x,
        None => Seq::empty(),
    }
}

/// Text of an optional string.
pub open spec fn opt_str(o: Option<String>) -> Option<Seq<char>> {
    match o {
        Some(x) => Some(x@),
        None => None,
    }
}

/// The path field of a line.
pub open spec fn path_field(e: AuditEntry) -> Seq<char> {
    match e.material_path {
        Some(p) => p@,
        None => "-"@,
    }
}

/// The score field of a line, with "/min" when a minimum is recorded.
pub open spec fn score_field(e: AuditEntry) -> Seq<char> {
    (match e.score {
        Some(s) => signed_decimal(s as int),
        None => "-"@,
    }) + (match e.min_score {
        Some(m) => "/"@ + signed_decimal(m as int),
        None => Seq::empty(),
    })
}

/// The optional tail of a line: certification and counts.
pub open spec fn flags_field(e: AuditEntry) -> Seq<char> {
    (if e.certified {
        " [certified]"@
    } else {
        Seq::empty()
    }) + (match e.issue_count {
        Some(c) => " issues="@ + decimal(c as nat),
        None => Seq::empty(),
    })
}

/// The output, preset and format fields of a line.
pub open spec fn extra_fields(e: AuditEntry) -> Seq<char> {
    opt_field(" output="@, opt_str(e.output_path)) + opt_field(" preset="@, opt_str(e.preset))
        + opt_field(" format="@, opt_str(e.format))
}

/// One line of the text export.
pub open spec fn audit_line(e: AuditEntry) -> Seq<char> {
    e.timestamp@ + " ["@ + action_word(e.action) + "] path="@ + path_field(e) + " score="@
        + score_field(e) + flags_field(e) + extra_fields(e)
}

/// The lines of the first `k` entries joined by newlines.
pub open spec fn audit_text(entries: Seq<AuditEntry>, k: int) -> Seq<char>
    decreases k,
{
    if k <= 0 {
        Seq::empty()
    } else if k == 1 {
        audit_line(entries[0])
    } else {
        audit_text(entries, k - 1) + "\n"@ + audit_line(entries[k - 1])
    }
}

fn append_opt(line: &mut String, prefix: &str, v: &Option<String>)
    ensures
        final(line)@ == old(line)@ + opt_field(prefix@, opt_str(*v)),
{
    match v {
        Some(o) => {
            let ghost before = line@;
            line.append(prefix);
            line.append(o.as_str());
            assert(line@ =~= before + opt_field(prefix@, opt_str(*v)));
        },
        None => {
            assert(line@ =~= line@ + Seq::<char>::empty());
        },
    }
}

fn score_text(e: &AuditEntry) -> (r: String)
    ensures
        r@ == score_field(*e),
{
    let mut t = match e.score {
        Some(s) => signed_text(s),
        None => String::from_str("-"),
    };
    let ghost head = t@;
    match e.min_score {
        Some(m) => {
            t.append("/");
            let u = signed_text(m);
            t.append(u.as_str());
            assert(t@ =~= head + ("/"@ + signed_decimal(m as int)));
        },
        None => {
            assert(t@ =~= head + Seq::<char>::empty());
        },
    }
    t
}

fn flags_text(e: &AuditEntry) -> (r: String)
    ensures
        r@ == flags_field(*e),
{
    let mut t = if e.certified {
        String::from_str(" [certified]")
    } else {
        String::new()
    };
    let ghost head = t@;
    match e.issue_count {
        Some(c) => {
            t.append(" issues=");
            let u = decimal_text(c as u128);
            t.append(u.as_str());
            assert(t@ =~= head + (" issues="@ + decimal(c as nat)));
        },
        None => {
            assert(t@ =~= head + Seq::<char>::empty());
        },
    }
    t
}

fn extra_text(e: &AuditEntry) -> (r: String)
    ensures
        r@ == extra_fields(*e),
{
    let mut t = String::new();
    append_opt(&mut t, " output=", &e.output_path);
    append_opt(&mut t, " preset=", &e.preset);
    append_opt(&mut t, " format=", &e.format);
    assert(t@ =~= extra_fields(*e));
    t
}

fn audit_line_text(e: &AuditEntry) -> (r: String)
    ensures
        r@ == audit_line(*e),
{
    let mut line = e.timestamp.clone();
    line.append(" [");
    let action = match e.action {
        AuditAction::Validation => "validation",
        AuditAction::Optimization => "optimization",
        AuditAction::ReportGeneration => "report",
    };
    line.append(action);
    line.append("] path=");
    match &e.material_path {
        Some(p) => line.append(p.as_str()),
        None => line.append("-"),
    }
    line.append(" score=");
    let sc = score_text(e);
    line.append(sc.as_str());
    let fl = flags_text(e);
    line.append(fl.as_str());
    let ex = extra_text(e);
    line.append(ex.as_str());
    line
}

/// Human-readable audit log: one line per entry (newest first), at most
/// `limit` lines when given, joined by newlines.
pub fn export_audit_log_text(log: &AuditLog, limit: Option<usize>) -> (r: String)
    ensures
        r@ == audit_text(
            log.entries@,
            match limit {
                Some(n) => if n < log.entries@.len() {
                    n as int
                } else {
                    log.entries@.len() as int
                },
                None => log.entries@.len() as int,
            },
        ),
{
    let n = match limit {
        Some(n) => if n < log.entries.len() {
            n
        } else {
            log.entries.len()
        },
        None => log.entries.len(),
    };
    let mut out = String::new();
    let mut k: usize = 0;
    while k < n
        invariant
            n <= log.entries@.len(),
            k <= n,
            out@ == audit_text(log.entries@, k as int),
        decreases n - k,
    {
        let line = audit_line_text(&log.entries[k]);
        if k > 0 {
            out.append("\n");
        }
        let ghost before = out@;
        out.append(line.as_str());
        if k == 0 {
            assert(out@ =~= audit_text(log.entries@, 1));
        } else {
            assert(out@ =~= audit_text(log.entries@, k + 1));
        }
        k += 1;
    }
    out
}

// ---------------------------------------------------------------------------
// Undo stack.

/// Kind of an undoable action.
#[derive(Clone, Copy, Debug, PartialEq, Eq, Structural)]
pub enum UndoAction {
    Validation,
    Optimization,
    ReportGeneration,
}

/// One recorded action (metadata only; state stays with the caller).
#[derive(Debug)]
pub struct UndoEntry {
    pub action: UndoAction,
    pub material_path: Option<String>,
    pub timestamp: String,
    pub score: Option<i32>,
    pub preset: Option<String>,
}

/// The most recent actions, newest first, at most `max_size` of them.
#[derive(Debug)]
pub struct UndoStack {
    pub max_size: usize,
    pub entries: Vec<UndoEntry>,
}

impl UndoStack {
    /// An empty stack keeping at most `max(max_size, 1)` entries.
    pub fn new(max_size: usize) -> (r: UndoStack)
        ensures
            r.max_size == if max_size >= 1 { max_size } else { 1 },
            r.entries@.len() == 0,
    {
        UndoStack { max_size: if max_size >= 1 { max_size } else { 1 }, entries: Vec::new() }
    }

    /// Pushes an entry in front, dropping the oldest beyond `max_size`.
    pub fn push(&mut self, entry: UndoEntry)
        requires
            old(self).max_size >= 1,
        ensures
            final(self).max_size == old(self).max_size,
            final(self).entries@ == newest_first(old(self).entries@, entry, old(self).max_size as nat),
    {
        let max = self.max_size;
        push_front_bounded(&mut self.entries, entry, max);
    }

    /// Records a validation of a material with its score.
    pub fn record_validation(&mut self, material_path: &str, score: i32)
        requires
            old(self).max_size >= 1,
        ensures
            final(self).max_size == old(self).max_size,
            final(self).entries@ == newest_first(old(self).entries@, final(self).entries@[0], old(self).max_size as nat),
            final(self).entries@[0].action == UndoAction::Validation,
            final(self).entries@[0].material_path is Some,
            final(self).entries@[0].material_path->Some_0@ == material_path@,
            final(self).entries@[0].score == Some(score),
            final(self).entries@[0].preset is None,
    {
        let e = UndoEntry {
            action: UndoAction::Validation,
            material_path: Some(String::from_str(material_path)),
            timestamp: now_rfc3339(),
            score: Some(score),
            preset: None,
        };
        self.push(e);
    }

    /// Records an export of a material with a preset.
    pub fn record_optimization(&mut self, material_path: &str, preset: &str)
        requires
            old(self).max_size >= 1,
        ensures
            final(self).max_size == old(self).max_size,
            final(self).entries@ == newest_first(old(self).entries@, final(self).entries@[0], old(self).max_size as nat),
            final(self).entries@[0].action == UndoAction::Optimization,
            final(self).entries@[0].material_path is Some,
            final(self).entries@[0].material_path->Some_0@ == material_path@,
            final(self).entries@[0].score is None,
            final(self).entries@[0].preset is Some,
            final(self).entries@[0].preset->Some_0@ == preset@,
    {
        let e = UndoEntry {
            action: UndoAction::Optimization,
            material_path: Some(String::from_str(material_path)),
            timestamp: now_rfc3339(),
            score: None,
            preset: Some(String::from_str(preset)),
        };
        self.push(e);
    }

    /// Records a report generation, for a material when one is given.
    pub fn record_report(&mut self, material_path: Option<&str>)
        requires
            old(self).max_size >= 1,
        ensures
            final(self).max_size == old(self).max_size,
            final(self).entries@ == newest_first(old(self).entries@, final(self).entries@[0], old(self).max_size as nat),
            final(self).entries@[0].action == UndoAction::ReportGeneration,
            final(self).entries@[0].material_path is Some == material_path is Some,
            material_path is Some ==> final(self).entries@[0].material_path->Some_0@ == material_path->Some_0@,
            final(self).entries@[0].score is None,
            final(self).entries@[0].preset is None,
    {
        let path = match material_path {
            Some(p) => Some(String::from_str(p)),
            None => None,
        };
        let e = UndoEntry {
            action: UndoAction::ReportGeneration,
            material_path: path,
            timestamp: now_rfc3339(),
            score: None,
            preset: None,
        };
        self.push(e);
    }

    /// Copies of the newest `limit` entries, newest first.
    pub fn entries(&self, limit: usize) -> (r: Vec<UndoEntry>)
        ensures
            r@.len() == if limit < self.entries@.len() { limit as int } else { self.entries@.len() as int },
            forall|k: int| 0 <= k < r@.len() ==> #[trigger] r@[k] == self.entries@[k],
    {
        let n = if limit < self.entries.len() { limit } else { self.entries.len() };
        let mut out: Vec<UndoEntry> = Vec::new();
        let mut k: usize = 0;
        while k < n
            invariant
                n <= self.entries@.len(),
                k <= n,
                out@.len() == k,
                forall|j: int| 0 <= j < k ==> #[trigger] out@[j] == self.entries@[j],
            decreases n - k,
        {
            let e = &self.entries[k];
            let material_path = match &e.material_path {
                Some(p) => Some(p.clone()),
                None => None,
            };
            let preset = match &e.preset {
                Some(p) => Some(p.clone()),
                None => None,
            };
            out.push(
                UndoEntry {
                    action: e.action,
                    material_path,
                    timestamp: e.timestamp.clone(),
                    score: e.score,
                    preset,
                },
            );
            k += 1;
        }
        out
    }

    /// Number of entries.
    pub fn len(&self) -> (r: usize)
        ensures
            r == self.entries@.len(),
    {
        self.entries.len()
    }

    /// Whether there are no entries.
    pub fn is_empty(&self) -> (r: bool)
        ensures
            r == (self.entries@.len() == 0),
    {
        self.entries.len() == 0
    }

    /// Removes every entry.
    pub fn clear(&mut self)
        ensures
            final(self).max_size == old(self).max_size,
            final(self).entries@.len() == 0,
    {
        self.entries = Vec::new();
    }
}

// ---------------------------------------------------------------------------
// Version log.

/// One analysis result in a folder's changelog.
#[derive(Debug)]
pub struct VersionEntry {
    pub timestamp: String,
    pub score: i32,
    pub passed: bool,
    pub error_count: usize,
    pub warning_count: usize,
    pub issue_count: usize,
}

/// Changelog of a material folder, newest first.
#[derive(Debug)]
pub struct VersionLog {
    pub folder: String,
    pub entries: Vec<VersionEntry>,
}

impl VersionLog {
    pub fn new(folder: &str) -> (r: VersionLog)
        ensures
            r.folder@ == folder@,
            r.entries@.len() == 0,
    {
        VersionLog { folder: String::from_str(folder), entries: Vec::new() }
    }

    /// Records an analysis result, stamped with the current time, keeping
    /// the newest 50.
    pub fn add_entry(
        &mut self,
        score: i32,
        passed: bool,
        error_count: usize,
        warning_count: usize,
        issue_count: usize,
    )
        ensures
            final(self).folder == old(self).folder,
            final(self).entries@ == newest_first(old(self).entries@, final(self).entries@[0], MAX_VERSION_ENTRIES as nat),
            final(self).entries@[0].score == score,
            final(self).entries@[0].passed == passed,
            final(self).entries@[0].error_count == error_count,
            final(self).entries@[0].warning_count == warning_count,
            final(self).entries@[0].issue_count == issue_count,
    {
        let entry = VersionEntry {
            timestamp: now_rfc3339(),
            score,
            passed,
            error_count,
            warning_count,
            issue_count,
        };
        push_front_bounded(&mut self.entries, entry, MAX_VERSION_ENTRIES);
    }
}

} // verus!
