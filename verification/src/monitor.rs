//! Coding-tool detection, the coding-session tracker and system alerts.
use vstd::prelude::*;
use vstd::string::*;
use crate::reminders::sat_sub;
use crate::reminders::saturating_sub;
use crate::text::{
    contains, find_from, has_infix, lowercase_of, split_once, str_eq, to_lowercase, trim, trimmed,
};

verus! {

pub const CODING_TOOL_COUNT: usize = 10;

/// Name shown for coding tool `i`.
pub open spec fn tool_label(i: int) -> Seq<char> {
    if i == 0 {
        "Visual Studio Code"@
    } else if i == 1 {
        "Cursor"@
    } else if i == 2 {
        "IntelliJ IDEA"@
    } else if i == 3 {
        "WebStorm"@
    } else if i == 4 {
        "PyCharm"@
    } else if i == 5 {
        "Rider"@
    } else if i == 6 {
        "Neovim"@
    } else if i == 7 {
        "Vim"@
    } else if i == 8 {
        "Zed"@
    } else {
        "Antigravity IDE"@
    }
}

/// Window-title patterns of tool `i`, as written; they are compared after
/// trimming and lower-casing.
pub open spec fn window_patterns(i: int) -> Seq<Seq<char>> {
    if i == 0 {
        seq!["Visual Studio Code"@, "Code - OSS"@]
    } else if i == 1 {
        seq!["Cursor"@]
    } else if i == 2 {
        seq!["IntelliJ IDEA"@]
    } else if i == 3 {
        seq!["WebStorm"@]
    } else if i == 4 {
        seq!["PyCharm"@]
    } else if i == 5 {
        seq!["Rider"@]
    } else if i == 6 {
        seq!["Neovim"@]
    } else if i == 7 {
        seq!["Vim"@]
    } else if i == 8 {
        seq!["Zed"@]
    } else {
        seq!["Antigravity IDE"@, "Antigravity"@]
    }
}

/// Executable names of tool `i`, in lower case.
pub open spec fn process_names(i: int) -> Seq<Seq<char>> {
    if i == 0 {
        seq!["code.exe"@, "code - oss.exe"@]
    } else if i == 1 {
        seq!["cursor.exe"@]
    } else if i == 2 {
        seq!["idea64.exe"@, "idea.exe"@]
    } else if i == 3 {
        seq!["webstorm64.exe"@, "webstorm.exe"@]
    } else if i == 4 {
        seq!["pycharm64.exe"@, "pycharm.exe"@]
    } else if i == 5 {
        seq!["rider64.exe"@, "rider.exe"@]
    } else if i == 6 {
        seq!["nvim.exe"@, "neovide.exe"@]
    } else if i == 7 {
        seq!["vim.exe"@, "gvim.exe"@]
    } else if i == 8 {
        seq!["zed.exe"@]
    } else {
        seq!["antigravity ide.exe"@, "antigravity.exe"@]
    }
}

/// A tool described by a label, title patterns and process names.
pub struct CodingTool {
    pub label: &'static str,
    pub first: &'static str,
    pub second: Option<&'static str>,
}

pub open spec fn lists(first: &'static str, second: Option<&'static str>) -> Seq<Seq<char>> {
    match second {
        Some(s) => seq![first@, s@],
        None => seq![first@],
    }
}

fn tool_windows(i: usize) -> (t: CodingTool)
    requires
        i < CODING_TOOL_COUNT,
    ensures
        t.label@ == tool_label(i as int),
        lists(t.first, t.second) == window_patterns(i as int),
{
    if i == 0 {
        CodingTool { label: "Visual Studio Code", first: "Visual Studio Code", second: Some("Code - OSS") }
    } else if i == 1 {
        CodingTool { label: "Cursor", first: "Cursor", second: None }
    } else if i == 2 {
        CodingTool { label: "IntelliJ IDEA", first: "IntelliJ IDEA", second: None }
    } else if i == 3 {
        CodingTool { label: "WebStorm", first: "WebStorm", second: None }
    } else if i == 4 {
        CodingTool { label: "PyCharm", first: "PyCharm", second: None }
    } else if i == 5 {
        CodingTool { label: "Rider", first: "Rider", second: None }
    } else if i == 6 {
        CodingTool { label: "Neovim", first: "Neovim", second: None }
    } else if i == 7 {
        CodingTool { label: "Vim", first: "Vim", second: None }
    } else if i == 8 {
        CodingTool { label: "Zed", first: "Zed", second: None }
    } else {
        CodingTool { label: "Antigravity IDE", first: "Antigravity IDE", second: Some("Antigravity") }
    }
}

fn tool_processes(i: usize) -> (t: CodingTool)
    requires
        i < CODING_TOOL_COUNT,
    ensures
        t.label@ == tool_label(i as int),
        lists(t.first, t.second) == process_names(i as int),
{
    if i == 0 {
        CodingTool { label: "Visual Studio Code", first: "code.exe", second: Some("code - oss.exe") }
    } else if i == 1 {
        CodingTool { label: "Cursor", first: "cursor.exe", second: None }
    } else if i == 2 {
        CodingTool { label: "IntelliJ IDEA", first: "idea64.exe", second: Some("idea.exe") }
    } else if i == 3 {
        CodingTool { label: "WebStorm", first: "webstorm64.exe", second: Some("webstorm.exe") }
    } else if i == 4 {
        CodingTool { label: "PyCharm", first: "pycharm64.exe", second: Some("pycharm.exe") }
    } else if i == 5 {
        CodingTool { label: "Rider", first: "rider64.exe", second: Some("rider.exe") }
    } else if i == 6 {
        CodingTool { label: "Neovim", first: "nvim.exe", second: Some("neovide.exe") }
    } else if i == 7 {
        CodingTool { label: "Vim", first: "vim.exe", second: Some("gvim.exe") }
    } else if i == 8 {
        CodingTool { label: "Zed", first: "zed.exe", second: None }
    } else {
        CodingTool { label: "Antigravity IDE", first: "antigravity ide.exe", second: Some("antigravity.exe") }
    }
}

/// Whether some pattern of `patterns`, trimmed and lower-cased, occurs in
/// `lower`.
pub open spec fn any_infix(lower: Seq<char>, patterns: Seq<Seq<char>>) -> bool {
    exists|k: int| 0 <= k < patterns.len() && has_infix(lower, normalized(#[trigger] patterns[k]))
}

/// Whether `lower` equals some name of `names`.
pub open spec fn any_equal(lower: Seq<char>, names: Seq<Seq<char>>) -> bool {
    exists|k: int| 0 <= k < names.len() && lower == #[trigger] names[k]
}

/// The first tool, from `i` on, one of whose title patterns occurs in `lower`.
pub open spec fn window_tool_from(lower: Seq<char>, i: int) -> Option<int>
    decreases CODING_TOOL_COUNT - i,
{
    if i < 0 || i >= CODING_TOOL_COUNT {
        None
    } else if any_infix(lower, window_patterns(i)) {
        Some(i)
    } else {
        window_tool_from(lower, i + 1)
    }
}

/// The first tool, from `i` on, one of whose process names equals `lower`.
pub open spec fn process_tool_from(lower: Seq<char>, i: int) -> Option<int>
    decreases CODING_TOOL_COUNT - i,
{
    if i < 0 || i >= CODING_TOOL_COUNT {
        None
    } else if any_equal(lower, process_names(i)) {
        Some(i)
    } else {
        process_tool_from(lower, i + 1)
    }
}

/// Title or process name as compared: trimmed, then lower-cased.
pub open spec fn normalized(s: Seq<char>) -> Seq<char> {
    lowercase_of(trimmed(s))
}

pub open spec fn label_of(tool: Option<int>) -> Option<Seq<char>> {
    match tool {
        Some(i) => Some(tool_label(i)),
        None => None,
    }
}

pub open spec fn view_of(label: Option<&'static str>) -> Option<Seq<char>> {
    match label {
        Some(l) => Some(l@),
        None => None,
    }
}

/// The coding tool whose window title this is, if any.
pub fn match_window_title(title: &str) -> (label: Option<&'static str>)
    ensures
        view_of(label) == label_of(window_tool_from(normalized(title@), 0)),
{
    let lower = to_lowercase(trim(title));
    let mut i: usize = 0;
    while i < CODING_TOOL_COUNT
        invariant
            i <= CODING_TOOL_COUNT,
            lower@ == normalized(title@),
            window_tool_from(lower@, 0) == window_tool_from(lower@, i as int),
        decreases CODING_TOOL_COUNT - i,
    {
        let tool = tool_windows(i);
        let first = to_lowercase(trim(tool.first));
        let hit = contains(lower.as_str(), first.as_str()) || match tool.second {
            Some(p) => contains(lower.as_str(), to_lowercase(trim(p)).as_str()),
            None => false,
        };
        proof {
            let pats = window_patterns(i as int);
            assert(first@ == normalized(pats[0]));
            if hit {
                if has_infix(lower@, first@) {
                    assert(has_infix(lower@, normalized(pats[0])));
                } else {
                    assert(pats[1] == tool.second->0@);
                    assert(has_infix(lower@, normalized(pats[1])));
                }
            } else {
                assert forall|k: int| 0 <= k < pats.len() implies !has_infix(
                    lower@,
                    normalized(#[trigger] pats[k]),
                ) by {
                    if k == 1 {
                        assert(pats[1] == tool.second->0@);
                    }
                }
            }
        }
        if hit {
            return Some(tool.label);
        }
        i = i + 1;
    }
    None
}

/// The coding tool whose executable this is, if any.
pub fn match_process_name(process_name: &str) -> (label: Option<&'static str>)
    ensures
        view_of(label) == label_of(process_tool_from(normalized(process_name@), 0)),
{
    let lower = to_lowercase(trim(process_name));
    let mut i: usize = 0;
    while i < CODING_TOOL_COUNT
        invariant
            i <= CODING_TOOL_COUNT,
            lower@ == normalized(process_name@),
            process_tool_from(lower@, 0) == process_tool_from(lower@, i as int),
        decreases CODING_TOOL_COUNT - i,
    {
        let tool = tool_processes(i);
        let hit = str_eq(lower.as_str(), tool.first) || match tool.second {
            Some(p) => str_eq(lower.as_str(), p),
            None => false,
        };
        proof {
            let names = process_names(i as int);
            if hit {
                if lower@ == tool.first@ {
                    assert(lower@ == names[0]);
                } else {
                    assert(lower@ == names[1]);
                }
            } else {
                assert forall|k: int| 0 <= k < names.len() implies lower@ != #[trigger] names[k] by {
                    if k == 1 {
                        assert(names[1] == tool.second->0@);
                    }
                }
            }
        }
        if hit {
            return Some(tool.label);
        }
        i = i + 1;
    }
    None
}

pub fn is_coding_window(title: &str) -> (b: bool)
    ensures
        b == (window_tool_from(normalized(title@), 0) is Some),
{
    match_window_title(title).is_some()
}

/// Name of the coding tool a window belongs to, "Unknown IDE" when none.
pub fn detect_app_name(title: &str) -> (name: String)
    ensures
        name@ == (match window_tool_from(normalized(title@), 0) {
            Some(i) => tool_label(i),
            None => "Unknown IDE"@,
        }),
{
    match match_window_title(title) {
        Some(label) => label.to_string(),
        None => String::from_str("Unknown IDE"),
    }
}

/// The application part of a window title: the text before the first " - ",
/// or the whole title, trimmed.
pub open spec fn app_name_of(title: Seq<char>) -> Seq<char> {
    let at = find_from(title, " - "@, 0);
    if at == -1 {
        trimmed(title)
    } else {
        trimmed(title.subrange(0, at))
    }
}

pub fn extract_app_name(title: &str) -> (name: String)
    ensures
        name@ == app_name_of(title@),
{
    match split_once(title, " - ") {
        Some((app, _)) => trim(app).to_string(),
        None => trim(title).to_string(),
    }
}

/// What coding detection concluded.
#[derive(Debug, Clone)]
pub struct CodingActivity {
    pub is_active: bool,
    pub app_name: Option<String>,
    pub session_context: Option<String>,
}

pub open spec fn opt_view(s: Option<String>) -> Option<Seq<char>> {
    match s {
        Some(x) => Some(x@),
        None => None,
    }
}

/// Coding is active when the foreground window or a running process belongs to
/// a coding tool; the foreground tool names the session when there is one. The
/// session is described by the window title, or else by the running tool
/// "(running in background)".
pub open spec fn activity_matches(
    a: CodingActivity,
    window_title: Option<Seq<char>>,
    running_tool: Option<Seq<char>>,
) -> bool {
    let foreground = match window_title {
        Some(t) => label_of(window_tool_from(normalized(t), 0)),
        None => None,
    };
    &&& a.is_active == (foreground is Some || running_tool is Some)
    &&& opt_view(a.app_name) == (if foreground is Some {
        foreground
    } else {
        running_tool
    })
    &&& opt_view(a.session_context) == (match window_title {
        Some(t) => Some(t),
        None => match running_tool {
            Some(r) => Some(r + " (running in background)"@),
            None => None,
        },
    })
}

pub fn coding_activity(window_title: Option<&str>, running_tool: Option<String>) -> (a:
    CodingActivity)
    ensures
        activity_matches(
            a,
            match window_title {
                Some(t) => Some(t@),
                None => None,
            },
            opt_view(running_tool),
        ),
{
    let foreground: Option<String> = match window_title {
        Some(t) => match match_window_title(t) {
            Some(label) => Some(label.to_string()),
            None => None,
        },
        None => None,
    };
    let is_active = foreground.is_some() || running_tool.is_some();
    let app_name = match &foreground {
        Some(f) => Some(f.clone()),
        None => match &running_tool {
            Some(r) => Some(r.clone()),
            None => None,
        },
    };
    let session_context = match window_title {
        Some(t) => Some(t.to_string()),
        None => match running_tool {
            Some(r) => Some(r.concat(" (running in background)")),
            None => None,
        },
    };
    CodingActivity { is_active, app_name, session_context }
}

/// Whether a periodic poll is due at `now_ms` (monotonic milliseconds): it is
/// when it never ran or `interval_ms` has elapsed; a due poll records `now_ms`.
pub open spec fn poll_is_due(last_poll: Option<u64>, interval_ms: u64, now_ms: u64) -> bool {
    match last_poll {
        Some(prev) => !(now_ms >= prev && now_ms - prev < interval_ms || now_ms < prev && 0
            < interval_ms),
        None => true,
    }
}

pub fn poll_due(last_poll: &mut Option<u64>, interval_ms: u64, now_ms: u64) -> (due: bool)
    ensures
        due == poll_is_due(*old(last_poll), interval_ms, now_ms),
        *final(last_poll) == (if due {
            Some(now_ms)
        } else {
            *old(last_poll)
        }),
{
    match *last_poll {
        Some(previous) => {
            let elapsed = if now_ms >= previous {
                now_ms - previous
            } else {
                0
            };
            if elapsed < interval_ms {
                false
            } else {
                *last_poll = Some(now_ms);
                true
            }
        },
        None => {
            *last_poll = Some(now_ms);
            true
        },
    }
}

/// Sum of the first components of `s` (`first`) or of the second ones.
pub open spec fn column_sum(s: Seq<(u64, u64)>, first: bool) -> int
    decreases s.len(),
{
    if s.len() == 0 {
        0
    } else {
        column_sum(s.drop_last(), first) + if first {
            s.last().0 as int
        } else {
            s.last().1 as int
        }
    }
}

pub open spec fn capped(total: int) -> int {
    if total > u64::MAX {
        u64::MAX as int
    } else {
        total
    }
}

/// Bytes sent and received over all interfaces, each `(transmitted,
/// received)`; each total stops at `u64::MAX` (saturating addition).
pub fn total_bytes(interfaces: &Vec<(u64, u64)>) -> (totals: (u64, u64))
    ensures
        totals.0 == capped(column_sum(interfaces@, true)),
        totals.1 == capped(column_sum(interfaces@, false)),
{
    let mut sent: u64 = 0;
    let mut recv: u64 = 0;
    let n = interfaces.len();
    let mut i: usize = 0;
    while i < n
        invariant
            n == interfaces@.len(),
            i <= n,
            sent == capped(column_sum(interfaces@.take(i as int), true)),
            recv == capped(column_sum(interfaces@.take(i as int), false)),
            column_sum(interfaces@.take(i as int), true) >= 0,
            column_sum(interfaces@.take(i as int), false) >= 0,
        decreases n - i,
    {
        let (t, r) = interfaces[i];
        assert(interfaces@.take(i + 1).drop_last() =~= interfaces@.take(i as int));
        sent = sent.saturating_add(t);
        recv = recv.saturating_add(r);
        i = i + 1;
    }
    assert(interfaces@.take(n as int) =~= interfaces@);
    (sent, recv)
}

/// Memory in whole mebibytes: used and total bytes divided by 1024 twice,
/// the total taken as at least one byte.
pub fn memory_megabytes(used_bytes: u64, capacity_bytes: u64) -> (mb: (u64, u64))
    ensures
        mb.0 == used_bytes / 1048576,
        mb.1 == (if capacity_bytes >= 1 {
            capacity_bytes
        } else {
            1
        }) / 1048576,
{
    let total = if capacity_bytes >= 1 {
        capacity_bytes
    } else {
        1
    };
    (used_bytes / 1024 / 1024, total / 1024 / 1024)
}

/// A recorded coding session.
#[derive(Debug, Clone)]
pub struct CodingSession {
    pub id: i64,
    pub app_name: String,
    pub window_title: Option<String>,
    pub started_at: i64,
    pub ended_at: Option<i64>,
    pub duration_secs: Option<i64>,
}

/// A session closed at `now`: it ended then and lasted from its start to `now`
/// (saturating).
pub fn close_session(session: CodingSession, now: i64) -> (closed: CodingSession)
    ensures
        closed == (CodingSession {
            ended_at: Some(now),
            duration_secs: Some(sat_sub(now as int, session.started_at as int) as i64),
            ..session
        }),
{
    let duration = saturating_sub(now, session.started_at);
    CodingSession { ended_at: Some(now), duration_secs: Some(duration), ..session }
}

/// The coding-session part of the system monitor.
#[derive(Debug, Clone)]
pub struct CodingTracker {
    pub last_coding_poll: Option<u64>,
    pub cached_active: bool,
    pub cached_app: Option<String>,
    pub cached_context: Option<String>,
    pub active_session_id: Option<i64>,
    pub active_session_app: Option<String>,
    pub active_session_started_at: Option<i64>,
    pub session_active: bool,
    pub session_duration_secs: u64,
}

/// The next thing the session tracker has to do.
#[derive(Debug, Clone)]
pub enum SessionStep {
    /// Open a session record with this title and application.
    Start { title: String, app_name: String },
    /// A session is running; refresh its duration.
    Continue,
    /// Close the session record with this id.
    End { session_id: i64 },
    /// No coding and no session.
    Idle,
}

impl CodingTracker {
    pub fn new() -> (t: Self)
        ensures
            t == (CodingTracker {
                last_coding_poll: None,
                cached_active: false,
                cached_app: None,
                cached_context: None,
                active_session_id: None,
                active_session_app: None,
                active_session_started_at: None,
                session_active: false,
                session_duration_secs: 0,
            }),
    {
        CodingTracker {
            last_coding_poll: None,
            cached_active: false,
            cached_app: None,
            cached_context: None,
            active_session_id: None,
            active_session_app: None,
            active_session_started_at: None,
            session_active: false,
            session_duration_secs: 0,
        }
    }

    /// Stores a full detection (window and running processes).
    pub fn apply_detection(&mut self, activity: CodingActivity)
        ensures
            *final(self) == (CodingTracker {
                cached_active: activity.is_active,
                cached_app: activity.app_name,
                cached_context: activity.session_context,
                ..*old(self)
            }),
    {
        self.cached_active = activity.is_active;
        self.cached_app = activity.app_name;
        self.cached_context = activity.session_context;
    }

    /// Between full detections: a coding window in the foreground marks coding
    /// as active with that tool; otherwise an open session keeps it active.
    pub fn apply_window_title(&mut self, window_title: Option<&str>)
        ensures
            match window_title {
                Some(t) => window_tool_from(normalized(t@), 0) is Some,
                None => false,
            } ==> {
                &&& *final(self) == (CodingTracker {
                    cached_active: true,
                    cached_app: final(self).cached_app,
                    cached_context: final(self).cached_context,
                    ..*old(self)
                })
                &&& opt_view(final(self).cached_app) == label_of(
                    window_tool_from(normalized(window_title->0@), 0),
                )
                &&& opt_view(final(self).cached_context) == Some(window_title->0@)
            },
            !(match window_title {
                Some(t) => window_tool_from(normalized(t@), 0) is Some,
                None => false,
            }) ==> *final(self) == (CodingTracker {
                cached_active: old(self).cached_active || old(self).active_session_id is Some,
                ..*old(self)
            }),
    {
        if let Some(title) = window_title {
            if is_coding_window(title) {
                self.cached_active = true;
                self.cached_app = Some(detect_app_name(title));
                self.cached_context = Some(title.to_string());
                return;
            }
        }
        if self.active_session_id.is_some() {
            self.cached_active = true;
        }
    }

    /// What to do with the session given the cached detection.
    pub fn plan_session_step(&self) -> (step: SessionStep)
        ensures
            self.cached_active && self.active_session_id is None ==> step is Start,
            self.cached_active && self.active_session_id is Some ==> step is Continue,
            !self.cached_active && self.active_session_id is Some ==> step == (SessionStep::End {
                session_id: self.active_session_id->0,
            }),
            !self.cached_active && self.active_session_id is None ==> step is Idle,
            step matches SessionStep::Start { title, app_name } ==> {
                &&& app_name@ == (match self.cached_app {
                    Some(a) => a@,
                    None => "Unknown IDE"@,
                })
                &&& title@ == (match self.cached_context {
                    Some(c) => c@,
                    None => app_name@,
                })
            },
    {
        if self.cached_active {
            if self.active_session_id.is_none() {
                let app_name = match &self.cached_app {
                    Some(a) => a.clone(),
                    None => String::from_str("Unknown IDE"),
                };
                let title = match &self.cached_context {
                    Some(c) => c.clone(),
                    None => app_name.clone(),
                };
                SessionStep::Start { title, app_name }
            } else {
                SessionStep::Continue
            }
        } else {
            match self.active_session_id {
                Some(id) => SessionStep::End { session_id: id },
                None => SessionStep::Idle,
            }
        }
    }

    /// A session record was opened at `now` with this id; returns the
    /// application to announce.
    pub fn session_started(&mut self, session_id: i64, app_name: String, now: i64) -> (announce:
        String)
        ensures
            *final(self) == (CodingTracker {
                active_session_id: Some(session_id),
                active_session_app: Some(app_name),
                active_session_started_at: Some(now),
                ..*old(self)
            }),
            announce == app_name,
    {
        self.active_session_id = Some(session_id);
        self.active_session_app = Some(app_name.clone());
        self.active_session_started_at = Some(now);
        app_name
    }

    /// A session is running at `now`: it is active and has lasted since its
    /// start (or no time at all when the start is unknown).
    pub fn continue_session(&mut self, now: i64)
        ensures
            *final(self) == (CodingTracker {
                session_active: true,
                session_duration_secs: (sat_sub(
                    now as int,
                    match old(self).active_session_started_at {
                        Some(s) => s as int,
                        None => now as int,
                    },
                ) as u64),
                ..*old(self)
            }),
    {
        let started_at = match self.active_session_started_at {
            Some(s) => s,
            None => now,
        };
        self.session_active = true;
        self.session_duration_secs = saturating_sub(now, started_at) as u64;
    }

    /// Takes the open session's id before it is closed.
    pub fn take_session_id(&mut self) -> (id: Option<i64>)
        ensures
            id == old(self).active_session_id,
            *final(self) == (CodingTracker { active_session_id: None, ..*old(self) }),
    {
        let id = self.active_session_id;
        self.active_session_id = None;
        id
    }

    /// The session record was closed: returns the application to announce.
    pub fn session_ended(&mut self) -> (announce: Option<String>)
        ensures
            announce == old(self).active_session_app,
            *final(self) == (CodingTracker {
                active_session_app: None,
                active_session_started_at: None,
                session_active: false,
                session_duration_secs: 0,
                ..*old(self)
            }),
    {
        let app = self.active_session_app.take();
        self.active_session_started_at = None;
        self.session_active = false;
        self.session_duration_secs = 0;
        app
    }

    /// No coding and no session.
    pub fn idle(&mut self)
        ensures
            *final(self) == (CodingTracker {
                session_active: false,
                session_duration_secs: 0,
                ..*old(self)
            }),
    {
        self.session_active = false;
        self.session_duration_secs = 0;
    }
}

/// How a reading compares with its alert threshold (NaN compares neither way).
#[derive(Debug, Clone, Copy, PartialEq, Eq, Structural)]
pub enum Reading {
    Above,
    AtOrBelow,
    Unordered,
}

/// Where a battery level stands: below 10 %, below 20 %, at least 20 %, or NaN.
#[derive(Debug, Clone, Copy, PartialEq, Eq, Structural)]
pub enum BatteryReading {
    Critical,
    Low,
    Normal,
    Unordered,
}

#[derive(Debug, Clone, Copy, PartialEq, Eq, Structural)]
pub enum AlertKind {
    HighCpu,
    HighRam,
    LowBattery,
    CriticalBattery,
}

/// Which alerts went out during the current excursion of each reading.
#[derive(Debug, Clone, Copy, PartialEq, Eq, Structural)]
pub struct AlertState {
    pub high_cpu_since: Option<i64>,
    pub high_cpu_emitted: bool,
    pub high_ram_emitted: bool,
    pub low_battery_emitted: bool,
    pub critical_battery_emitted: bool,
}

/// CPU alert: high CPU must persist 10 seconds before it is reported once.
pub open spec fn cpu_step(s: AlertState, cpu_high: bool, now: int) -> (AlertState, bool) {
    if cpu_high {
        if s.high_cpu_since is None {
            (AlertState { high_cpu_since: Some(now as i64), ..s }, false)
        } else if !s.high_cpu_emitted {
            if sat_sub(now, s.high_cpu_since->0 as int) >= 10 {
                (AlertState { high_cpu_emitted: true, ..s }, true)
            } else {
                (s, false)
            }
        } else {
            (s, false)
        }
    } else {
        (AlertState { high_cpu_since: None, high_cpu_emitted: false, ..s }, false)
    }
}

/// RAM alert: reported once per excursion above 85 %.
pub open spec fn ram_step(s: AlertState, ram: Reading) -> (AlertState, bool) {
    if ram == Reading::Above && !s.high_ram_emitted {
        (AlertState { high_ram_emitted: true, ..s }, true)
    } else if ram == Reading::AtOrBelow {
        (AlertState { high_ram_emitted: false, ..s }, false)
    } else {
        (s, false)
    }
}

/// Battery alerts: critical once below 10 % (which also counts as the low
/// alert), low once below 20 %, both re-armed at 20 % or more.
pub open spec fn battery_step(s: AlertState, battery: Option<BatteryReading>) -> (
    AlertState,
    Option<AlertKind>,
) {
    match battery {
        None => (s, None),
        Some(b) => if b == BatteryReading::Critical && !s.critical_battery_emitted {
            (
                AlertState { critical_battery_emitted: true, low_battery_emitted: true, ..s },
                Some(AlertKind::CriticalBattery),
            )
        } else if (b == BatteryReading::Critical || b == BatteryReading::Low)
            && !s.low_battery_emitted {
            (AlertState { low_battery_emitted: true, ..s }, Some(AlertKind::LowBattery))
        } else if b == BatteryReading::Normal {
            (AlertState { low_battery_emitted: false, critical_battery_emitted: false, ..s }, None)
        } else {
            (s, None)
        },
    }
}

/// The alerts of one monitor tick, in order CPU, RAM, battery.
pub open spec fn alerts_of(cpu: bool, ram: bool, battery: Option<AlertKind>) -> Seq<AlertKind> {
    (if cpu {
        seq![AlertKind::HighCpu]
    } else {
        Seq::empty()
    }) + (if ram {
        seq![AlertKind::HighRam]
    } else {
        Seq::empty()
    }) + (match battery {
        Some(k) => seq![k],
        None => Seq::empty(),
    })
}

pub open spec fn evaluated(
    s: AlertState,
    cpu_high: bool,
    ram: Reading,
    battery: Option<BatteryReading>,
    now: int,
) -> (AlertState, Seq<AlertKind>) {
    let (s1, cpu) = cpu_step(s, cpu_high, now);
    let (s2, r) = ram_step(s1, ram);
    let (s3, b) = battery_step(s2, battery);
    (s3, alerts_of(cpu, r, b))
}

impl AlertState {
    pub fn new() -> (s: Self)
        ensures
            s == (AlertState {
                high_cpu_since: None,
                high_cpu_emitted: false,
                high_ram_emitted: false,
                low_battery_emitted: false,
                critical_battery_emitted: false,
            }),
    {
        AlertState {
            high_cpu_since: None,
            high_cpu_emitted: false,
            high_ram_emitted: false,
            low_battery_emitted: false,
            critical_battery_emitted: false,
        }
    }

    /// One tick of the alert rules at `now`.
    pub fn evaluate(
        &mut self,
        cpu_high: bool,
        ram: Reading,
        battery: Option<BatteryReading>,
        now: i64,
    ) -> (alerts: Vec<AlertKind>)
        ensures
            (*final(self), alerts@) == evaluated(*old(self), cpu_high, ram, battery, now as int),
    {
        let mut alerts: Vec<AlertKind> = Vec::new();
        let mut cpu = false;
        if cpu_high {
            match self.high_cpu_since {
                None => {
                    self.high_cpu_since = Some(now);
                },
                Some(since) => {
                    if !self.high_cpu_emitted && saturating_sub(now, since) >= 10 {
                        self.high_cpu_emitted = true;
                        cpu = true;
                    }
                },
            }
        } else {
            self.high_cpu_since = None;
            self.high_cpu_emitted = false;
        }
        if cpu {
            alerts.push(AlertKind::HighCpu);
        }
        let ghost after_cpu = alerts@;
        let mut ram_alert = false;
        if ram == Reading::Above && !self.high_ram_emitted {
            self.high_ram_emitted = true;
            ram_alert = true;
            alerts.push(AlertKind::HighRam);
        } else if ram == Reading::AtOrBelow {
            self.high_ram_emitted = false;
        }
        let ghost after_ram = alerts@;
        let mut battery_alert: Option<AlertKind> = None;
        if let Some(b) = battery {
            if b == BatteryReading::Critical && !self.critical_battery_emitted {
                self.critical_battery_emitted = true;
                self.low_battery_emitted = true;
                battery_alert = Some(AlertKind::CriticalBattery);
                alerts.push(AlertKind::CriticalBattery);
            } else if (b == BatteryReading::Critical || b == BatteryReading::Low)
                && !self.low_battery_emitted {
                self.low_battery_emitted = true;
                battery_alert = Some(AlertKind::LowBattery);
                alerts.push(AlertKind::LowBattery);
            } else if b == BatteryReading::Normal {
                self.low_battery_emitted = false;
                self.critical_battery_emitted = false;
            }
        }
        assert(alerts@ =~= alerts_of(cpu, ram_alert, battery_alert));
        alerts
    }
}

/// Repeating a tick with the same readings at the same instant reports
/// nothing new: every alert goes out once per excursion.
pub proof fn lemma_alerts_not_repeated(
    s: AlertState,
    cpu_high: bool,
    ram: Reading,
    battery: Option<BatteryReading>,
    now: i64,
)
    ensures
        evaluated(
            evaluated(s, cpu_high, ram, battery, now as int).0,
            cpu_high,
            ram,
            battery,
            now as int,
        ).1 == Seq::<AlertKind>::empty(),
{
    assert(alerts_of(false, false, None) =~= Seq::<AlertKind>::empty());
}

/// A battery back at 20 % or more re-arms both battery alerts: after such a
/// tick neither counts as sent, so the next low reading reports
/// `LowBattery` and the next critical one `CriticalBattery`, whatever went
/// out before and whatever the other readings are.
pub proof fn lemma_battery_rearms(
    s: AlertState,
    cpu_high: bool,
    ram: Reading,
    now: i64,
    cpu_next: bool,
    ram_next: Reading,
    later: i64,
)
    ensures
        !evaluated(s, cpu_high, ram, Some(BatteryReading::Normal), now as int).0.low_battery_emitted,
        !evaluated(
            s,
            cpu_high,
            ram,
            Some(BatteryReading::Normal),
            now as int,
        ).0.critical_battery_emitted,
        evaluated(
            evaluated(s, cpu_high, ram, Some(BatteryReading::Normal), now as int).0,
            cpu_next,
            ram_next,
            Some(BatteryReading::Low),
            later as int,
        ).1.contains(AlertKind::LowBattery),
        evaluated(
            evaluated(s, cpu_high, ram, Some(BatteryReading::Normal), now as int).0,
            cpu_next,
            ram_next,
            Some(BatteryReading::Critical),
            later as int,
        ).1.contains(AlertKind::CriticalBattery),
{
    let s1 = evaluated(s, cpu_high, ram, Some(BatteryReading::Normal), now as int).0;
    let low = evaluated(s1, cpu_next, ram_next, Some(BatteryReading::Low), later as int).1;
    let crit = evaluated(s1, cpu_next, ram_next, Some(BatteryReading::Critical), later as int).1;
    assert(low[low.len() - 1] == AlertKind::LowBattery);
    assert(crit[crit.len() - 1] == AlertKind::CriticalBattery);
}

/// Falling below 10 % reports the critical alert, even after the low one went
/// out, and it counts as the low alert too: a low reading right after it
/// reports no battery alert.
pub proof fn lemma_battery_escalates(
    s: AlertState,
    cpu_high: bool,
    ram: Reading,
    now: i64,
    cpu_next: bool,
    ram_next: Reading,
    later: i64,
)
    requires
        !s.critical_battery_emitted,
    ensures
        evaluated(s, cpu_high, ram, Some(BatteryReading::Critical), now as int).1.contains(
            AlertKind::CriticalBattery,
        ),
        !evaluated(s, cpu_high, ram, Some(BatteryReading::Critical), now as int).1.contains(
            AlertKind::LowBattery,
        ),
        !evaluated(
            evaluated(s, cpu_high, ram, Some(BatteryReading::Critical), now as int).0,
            cpu_next,
            ram_next,
            Some(BatteryReading::Low),
            later as int,
        ).1.contains(AlertKind::LowBattery),
        !evaluated(
            evaluated(s, cpu_high, ram, Some(BatteryReading::Critical), now as int).0,
            cpu_next,
            ram_next,
            Some(BatteryReading::Low),
            later as int,
        ).1.contains(AlertKind::CriticalBattery),
{
    let first = evaluated(s, cpu_high, ram, Some(BatteryReading::Critical), now as int);
    let cpu = cpu_step(s, cpu_high, now as int).1;
    let r = ram_step(cpu_step(s, cpu_high, now as int).0, ram).1;
    assert(first.1 =~= alerts_of(cpu, r, Some(AlertKind::CriticalBattery)));
    assert(first.1[first.1.len() - 1] == AlertKind::CriticalBattery);
    let s1 = first.0;
    let cpu2 = cpu_step(s1, cpu_next, later as int).1;
    let r2 = ram_step(cpu_step(s1, cpu_next, later as int).0, ram_next).1;
    let second = evaluated(s1, cpu_next, ram_next, Some(BatteryReading::Low), later as int).1;
    assert(second =~= alerts_of(cpu2, r2, None));
}

/// RAM back at or below 85 % re-arms the RAM alert: the next reading above
/// it reports `HighRam` again.
pub proof fn lemma_high_ram_rearms(
    s: AlertState,
    cpu_high: bool,
    battery: Option<BatteryReading>,
    now: i64,
    cpu_next: bool,
    battery_next: Option<BatteryReading>,
    later: i64,
)
    ensures
        !evaluated(s, cpu_high, Reading::AtOrBelow, battery, now as int).0.high_ram_emitted,
        evaluated(
            evaluated(s, cpu_high, Reading::AtOrBelow, battery, now as int).0,
            cpu_next,
            Reading::Above,
            battery_next,
            later as int,
        ).1.contains(AlertKind::HighRam),
{
    let s1 = evaluated(s, cpu_high, Reading::AtOrBelow, battery, now as int).0;
    let cpu = cpu_step(s1, cpu_next, later as int).1;
    let out = evaluated(s1, cpu_next, Reading::Above, battery_next, later as int).1;
    let k: int = if cpu { 1 } else { 0 };
    assert(out[k] == AlertKind::HighRam);
}

/// A poll that just ran is not due again before its interval has passed.
pub proof fn lemma_poll_rests(last_poll: Option<u64>, interval_ms: u64, now_ms: u64, later_ms: u64)
    requires
        poll_is_due(last_poll, interval_ms, now_ms),
        now_ms <= later_ms,
        later_ms - now_ms < interval_ms,
    ensures
        !poll_is_due(Some(now_ms), interval_ms, later_ms),
{
}

/// CPU alerts over a run of ticks with high CPU at the instants `times`:
/// the state after the run and, for each tick, whether it reported.
pub open spec fn cpu_run(s: AlertState, times: Seq<int>) -> (AlertState, Seq<bool>)
    decreases times.len(),
{
    if times.len() == 0 {
        (s, Seq::empty())
    } else {
        let (s1, fired) = cpu_run(s, times.drop_last());
        let (s2, f) = cpu_step(s1, true, times.last());
        (s2, fired.push(f))
    }
}

/// Tick `i` is the first of the run at least 10 seconds after its start.
pub open spec fn first_long_tick(times: Seq<int>, i: int) -> bool {
    times[i] - times[0] >= 10 && forall|j: int| 0 <= j < i ==> #[trigger] times[j] - times[0] < 10
}

proof fn lemma_cpu_run_prefix(s: AlertState, times: Seq<int>)
    requires
        s.high_cpu_since is None,
        !s.high_cpu_emitted,
        times.len() >= 1,
        forall|i: int| 0 <= i < times.len() ==> i64::MIN <= #[trigger] times[i] <= i64::MAX,
        forall|i: int, j: int| 0 <= i <= j < times.len() ==> times[i] <= times[j],
    ensures
        cpu_run(s, times).1.len() == times.len(),
        cpu_run(s, times).0.high_cpu_since == Some(times[0] as i64),
        cpu_run(s, times).0.high_cpu_emitted == exists|j: int|
            0 <= j < times.len() && #[trigger] times[j] - times[0] >= 10,
        forall|i: int| 0 <= i < times.len() ==> #[trigger] cpu_run(s, times).1[i] == first_long_tick(times, i),
        cpu_run(s, times).0.high_ram_emitted == s.high_ram_emitted,
        cpu_run(s, times).0.low_battery_emitted == s.low_battery_emitted,
        cpu_run(s, times).0.critical_battery_emitted == s.critical_battery_emitted,
    decreases times.len(),
{
    let k = times.len() - 1;
    if times.len() == 1 {
        let (s0, f0) = cpu_run(s, times.drop_last());
        assert(times.drop_last() =~= Seq::<int>::empty());
        assert(cpu_run(s, times).1 =~= seq![false]);
        assert(first_long_tick(times, 0) == false);
        assert forall|j: int| 0 <= j < times.len() implies !(#[trigger] times[j] - times[0] >= 10) by {
            assert(j == 0);
        }
    } else {
        let pre = times.drop_last();
        assert forall|i: int| 0 <= i < pre.len() implies i64::MIN <= #[trigger] pre[i] <= i64::MAX by {
            assert(pre[i] == times[i]);
        }
        assert forall|i: int, j: int| 0 <= i <= j < pre.len() implies pre[i] <= pre[j] by {
            assert(pre[i] == times[i] && pre[j] == times[j]);
        }
        lemma_cpu_run_prefix(s, pre);
        let (s1, fired) = cpu_run(s, pre);
        let t0 = times[0];
        assert(pre[0] == t0);
        let long_before = exists|j: int| 0 <= j < pre.len() && #[trigger] pre[j] - pre[0] >= 10;
        assert(s1.high_cpu_emitted == long_before);
        assert(times[k] - t0 >= 0);
        assert(sat_sub(times[k], s1.high_cpu_since->0 as int) >= 10 <==> times[k] - t0 >= 10);
        assert forall|i: int| 0 <= i < k implies first_long_tick(pre, i) == first_long_tick(times, i) by {
            assert(pre[i] == times[i]);
            assert forall|j: int| 0 <= j < i implies pre[j] == times[j] by {}
            if first_long_tick(times, i) {
                assert forall|j: int| 0 <= j < i implies #[trigger] pre[j] - pre[0] < 10 by {
                    assert(times[j] - times[0] < 10);
                }
            }
            if first_long_tick(pre, i) {
                assert forall|j: int| 0 <= j < i implies #[trigger] times[j] - times[0] < 10 by {
                    assert(pre[j] - pre[0] < 10);
                }
            }
        }
        if long_before {
            let w = choose|j: int| 0 <= j < pre.len() && #[trigger] pre[j] - pre[0] >= 10;
            assert(times[w] - times[0] >= 10);
            assert(!first_long_tick(times, k));
        } else {
            assert forall|j: int| 0 <= j < k implies #[trigger] times[j] - times[0] < 10 by {
                assert(pre[j] == times[j]);
                if times[j] - times[0] >= 10 {
                    assert(pre[j] - pre[0] >= 10);
                }
            }
        }
        let run = cpu_run(s, times);
        assert forall|i: int| 0 <= i < times.len() implies #[trigger] run.1[i] == first_long_tick(times, i) by {
            if i < k {
                assert(run.1[i] == fired[i]);
            }
        }
        if run.0.high_cpu_emitted {
            if !long_before {
                assert(times[k] - times[0] >= 10);
            } else {
                let w = choose|j: int| 0 <= j < pre.len() && #[trigger] pre[j] - pre[0] >= 10;
                assert(times[w] - times[0] >= 10);
            }
        } else {
            assert forall|j: int| 0 <= j < times.len() implies !(#[trigger] times[j] - times[0] >= 10) by {
                if j < k {
                    assert(pre[j] == times[j]);
                    if times[j] - times[0] >= 10 {
                        assert(pre[j] - pre[0] >= 10);
                    }
                }
            }
        }
    }
}

/// The high-CPU alert over a run of high readings: starting with no run under
/// way (as after `new` or a reading at or below the threshold) and with the
/// clock never going back, it is reported exactly once, at
/// the first tick at least 10 seconds after the run began, and never if no
/// such tick comes.
pub proof fn lemma_high_cpu_reported_once(s: AlertState, times: Seq<int>)
    requires
        s.high_cpu_since is None,
        !s.high_cpu_emitted,
        times.len() >= 1,
        forall|i: int| 0 <= i < times.len() ==> i64::MIN <= #[trigger] times[i] <= i64::MAX,
        forall|i: int, j: int| 0 <= i <= j < times.len() ==> times[i] <= times[j],
    ensures
        cpu_run(s, times).1.len() == times.len(),
        forall|i: int| 0 <= i < times.len() ==> #[trigger] cpu_run(s, times).1[i] == first_long_tick(times, i),
        forall|i: int, j: int|
            0 <= i < j < times.len() && #[trigger] cpu_run(s, times).1[i] ==> !#[trigger] cpu_run(
                s,
                times,
            ).1[j],
{
    lemma_cpu_run_prefix(s, times);
    let fired = cpu_run(s, times).1;
    assert forall|i: int, j: int| 0 <= i < j < times.len() && #[trigger] fired[i] implies !#[trigger] fired[j] by {
        assert(first_long_tick(times, i));
        assert(times[i] - times[0] >= 10);
        if fired[j] {
            assert(first_long_tick(times, j));
        }
    }
}

/// A reading at or below the threshold ends the run: the alert is re-armed
/// for the next one.
pub proof fn lemma_high_cpu_rearms(s: AlertState, now: int)
    ensures
        cpu_step(s, false, now).0.high_cpu_since is None,
        !cpu_step(s, false, now).0.high_cpu_emitted,
        !cpu_step(s, false, now).1,
{
}

/// The tracker after `continue_session` at `now`.
pub open spec fn continued(t: CodingTracker, now: int) -> CodingTracker {
    CodingTracker {
        session_active: true,
        session_duration_secs: (sat_sub(
            now,
            match t.active_session_started_at {
                Some(s) => s as int,
                None => now,
            },
        ) as u64),
        ..t
    }
}

/// One session update as the monitor carries it out after `plan_session_step`:
/// a new session (record `id`, application `app`) is opened and continued, a
/// running one continued, an open one closed, or the tracker idles. The
/// second component is the announcement: `Some(true)` for a start,
/// `Some(false)` for an end.
pub open spec fn session_update(t: CodingTracker, id: i64, app: String, now: int) -> (
    CodingTracker,
    Option<bool>,
) {
    if t.cached_active {
        if t.active_session_id is None {
            (
                continued(
                    CodingTracker {
                        active_session_id: Some(id),
                        active_session_app: Some(app),
                        active_session_started_at: Some(now as i64),
                        ..t
                    },
                    now,
                ),
                Some(true),
            )
        } else {
            (continued(t, now), None)
        }
    } else if t.active_session_id is Some {
        (
            CodingTracker {
                active_session_id: None,
                active_session_app: None,
                active_session_started_at: None,
                session_active: false,
                session_duration_secs: 0,
                ..t
            },
            if t.active_session_app is Some {
                Some(false)
            } else {
                None
            },
        )
    } else {
        (CodingTracker { session_active: false, session_duration_secs: 0, ..t }, None)
    }
}

/// Session updates for a run of detections: `active[k]` is whether coding was
/// detected before update `k`. Returns the tracker and the announcements made.
pub open spec fn session_run(t: CodingTracker, active: Seq<bool>, id: i64, app: String, now: int) -> (
    CodingTracker,
    Seq<bool>,
)
    decreases active.len(),
{
    if active.len() == 0 {
        (t, Seq::empty())
    } else {
        let (t1, said) = session_run(t, active.drop_last(), id, app, now);
        let (t2, a) = session_update(CodingTracker { cached_active: active.last(), ..t1 }, id, app, now);
        (
            t2,
            match a {
                Some(started) => said.push(started),
                None => said,
            },
        )
    }
}

/// The tracker's flags agree: a session record is open exactly when a session
/// is active and its application is known, and an inactive session lasts 0 s.
pub open spec fn tracker_in_step(t: CodingTracker) -> bool {
    &&& t.session_active == (t.active_session_id is Some)
    &&& (t.active_session_id is Some) == (t.active_session_app is Some)
    &&& !t.session_active ==> t.session_duration_secs == 0
}

proof fn lemma_session_run(t: CodingTracker, active: Seq<bool>, id: i64, app: String, now: int)
    requires
        tracker_in_step(t),
        t.active_session_id is None,
    ensures
        tracker_in_step(session_run(t, active, id, app, now).0),
        active.len() > 0 ==> (session_run(t, active, id, app, now).0.active_session_id is Some)
            == active.last(),
        active.len() == 0 ==> session_run(t, active, id, app, now).0.active_session_id is None,
        ({
            let said = session_run(t, active, id, app, now).1;
            &&& said.len() > 0 ==> said[0]
            &&& forall|k: int| 0 <= k < said.len() - 1 ==> #[trigger] said[k] != said[k + 1]
            &&& said.len() > 0 ==> said.last() == (session_run(t, active, id, app, now).0.active_session_id is Some)
            &&& said.len() == 0 ==> session_run(t, active, id, app, now).0.active_session_id is None
        }),
    decreases active.len(),
{
    if active.len() > 0 {
        let pre = active.drop_last();
        lemma_session_run(t, pre, id, app, now);
        let (t1, said) = session_run(t, pre, id, app, now);
        let (t2, a) = session_update(CodingTracker { cached_active: active.last(), ..t1 }, id, app, now);
        match a {
            Some(started) => {
                let said2 = said.push(started);
                assert forall|k: int| 0 <= k < said2.len() - 1 implies #[trigger] said2[k] != said2[k + 1] by {
                    if k + 1 < said.len() {
                        assert(said2[k] == said[k] && said2[k + 1] == said[k + 1]);
                    } else {
                        assert(said2[k] == said[k]);
                    }
                }
            },
            None => {},
        }
    }
}

/// Over any run of detections from a tracker with no session open and its
/// flags in step (as `new` gives it), the flags stay in step, a session is
/// open exactly when coding was last detected, and the announcements
/// alternate between start and end, beginning with a start.
pub proof fn lemma_sessions_alternate(t: CodingTracker, active: Seq<bool>, id: i64, app: String, now: int)
    requires
        tracker_in_step(t),
        t.active_session_id is None,
    ensures
        tracker_in_step(session_run(t, active, id, app, now).0),
        active.len() > 0 ==> (session_run(t, active, id, app, now).0.active_session_id is Some)
            == active.last(),
        session_run(t, active, id, app, now).1.len() > 0 ==> session_run(t, active, id, app, now).1[0],
        forall|k: int|
            0 <= k < session_run(t, active, id, app, now).1.len() - 1 ==> #[trigger] session_run(
                t,
                active,
                id,
                app,
                now,
            ).1[k] != session_run(t, active, id, app, now).1[k + 1],
{
    lemma_session_run(t, active, id, app, now);
}

proof fn lemma_window_tool_bounds(lower: Seq<char>, j: int)
    requires
        0 <= j,
    ensures
        window_tool_from(lower, j) matches Some(i) ==> j <= i < CODING_TOOL_COUNT,
    decreases CODING_TOOL_COUNT - j,
{
    if j < CODING_TOOL_COUNT && !any_infix(lower, window_patterns(j)) {
        lemma_window_tool_bounds(lower, j + 1);
    }
}

/// A window is a coding window exactly when a tool name, not "Unknown IDE",
/// is detected for it.
pub proof fn lemma_coding_window_has_name(title: Seq<char>)
    ensures
        (window_tool_from(normalized(title), 0) is Some) == (match window_tool_from(normalized(title), 0) {
            Some(i) => tool_label(i),
            None => "Unknown IDE"@,
        } != "Unknown IDE"@),
{
    lemma_window_tool_bounds(normalized(title), 0);
    reveal_strlit("Unknown IDE");
    reveal_strlit("Visual Studio Code");
    reveal_strlit("Cursor");
    reveal_strlit("IntelliJ IDEA");
    reveal_strlit("WebStorm");
    reveal_strlit("PyCharm");
    reveal_strlit("Rider");
    reveal_strlit("Neovim");
    reveal_strlit("Vim");
    reveal_strlit("Zed");
    reveal_strlit("Antigravity IDE");
    if let Some(i) = window_tool_from(normalized(title), 0) {
        assert(tool_label(i)[0] != "Unknown IDE"@[0]);
    }
}

/// Each tool's own name is one of its window-title patterns.
pub proof fn lemma_label_is_window_pattern(i: int)
    requires
        0 <= i < CODING_TOOL_COUNT,
    ensures
        window_patterns(i).contains(tool_label(i)),
        window_patterns(i)[0] == tool_label(i),
{
    assert(window_patterns(i)[0] == tool_label(i));
}

proof fn lemma_window_tool_reaches(lower: Seq<char>, i: int, j: int)
    requires
        0 <= j <= i < CODING_TOOL_COUNT,
        any_infix(lower, window_patterns(i)),
        forall|k: int| j <= k < i ==> !any_infix(lower, #[trigger] window_patterns(k)),
    ensures
        window_tool_from(lower, j) == Some(i),
    decreases i - j,
{
    if j < i {
        lemma_window_tool_reaches(lower, i, j + 1);
    }
}

/// A title in which a tool's name occurs, both trimmed and lower-cased, is
/// detected as that tool, unless a pattern of a tool listed earlier occurs
/// in it too.
pub proof fn lemma_title_with_label_detected(title: Seq<char>, i: int)
    requires
        0 <= i < CODING_TOOL_COUNT,
        has_infix(normalized(title), normalized(tool_label(i))),
        forall|j: int| 0 <= j < i ==> !any_infix(normalized(title), #[trigger] window_patterns(j)),
    ensures
        window_tool_from(normalized(title), 0) == Some(i),
        label_of(window_tool_from(normalized(title), 0)) == Some(tool_label(i)),
{
    lemma_label_is_window_pattern(i);
    assert(has_infix(normalized(title), normalized(window_patterns(i)[0])));
    lemma_window_tool_reaches(normalized(title), i, 0);
}

} // verus!
