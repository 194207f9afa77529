//! The interactive session's state and the small decisions it takes between
//! events: which finding is selected, the spinner frame, the score shown.
use vstd::prelude::*;
use vstd::string::{StrSliceExecFns, StringExecFns};
use crate::models::{AnalysisFinding, ScanReport, findings_view};
use crate::scoring::{ScanSummary, all_findings, empty_summary, report_findings, summarize, summary_of};
use crate::text::{is_prefix, starts_with};

verus! {

/// Where the session stands.
#[derive(Debug, Clone, Copy, PartialEq, Eq, Structural)]
pub enum AppState {
    /// The usage notice is shown; nothing has been scanned yet.
    Disclaimer,
    /// Waiting for a target.
    Idle,
    /// A scan is running.
    Scanning,
    /// A report is on screen.
    Finished,
}

impl Default for AppState {
    fn default() -> (r: Self)
        ensures
            r == AppState::Disclaimer,
    {
        AppState::Disclaimer
    }
}

/// The result of the last attempt to export a report.
#[derive(Debug, Clone)]
pub enum ExportStatus {
    Idle,
    /// Written, to the file named.
    Success(String),
    /// Not written, for the reason given.
    Error(String),
}

/// The number of spinner frames.
pub const SPINNER_FRAMES: usize = 4;

/// The selection after moving down a list of `len` items, wrapping at the
/// end. An empty list keeps the selection as it is.
pub open spec fn next_selection_spec(selected: Option<usize>, len: nat) -> Option<usize> {
    if len == 0 {
        selected
    } else {
        Some(
            match selected {
                Some(i) => ((i + 1) % (len as int)) as usize,
                None => 0usize,
            },
        )
    }
}

/// The selection after moving up a list of `len` items, wrapping at the
/// start. An empty list keeps the selection as it is.
pub open spec fn previous_selection_spec(selected: Option<usize>, len: nat) -> Option<usize> {
    if len == 0 {
        selected
    } else {
        Some(
            match selected {
                Some(i) => if i == 0 {
                    (len - 1) as usize
                } else {
                    (i - 1) as usize
                },
                None => 0usize,
            },
        )
    }
}

/// The selection after moving down a list of `len` items, wrapping at the
/// end. An empty list keeps the selection as it is.
pub fn next_selection(selected: Option<usize>, len: usize) -> (r: Option<usize>)
    ensures
        r == next_selection_spec(selected, len as nat),
{
    if len == 0 {
        return selected;
    }
    match selected {
        Some(i) => Some(((i as u128 + 1) % len as u128) as usize),
        None => Some(0),
    }
}

/// The selection after moving up a list of `len` items, wrapping at the
/// start. An empty list keeps the selection as it is.
pub fn previous_selection(selected: Option<usize>, len: usize) -> (r: Option<usize>)
    ensures
        r == previous_selection_spec(selected, len as nat),
{
    if len == 0 {
        return selected;
    }
    match selected {
        Some(i) => if i == 0 {
            Some(len - 1)
        } else {
            Some(i - 1)
        },
        None => Some(0),
    }
}

/// The selection once a list of `len` findings is shown: its first item,
/// if any.
pub fn first_selection(len: usize) -> (r: Option<usize>)
    ensures
        len == 0 ==> r is None,
        len > 0 ==> r == Some(0usize),
{
    if len == 0 {
        None
    } else {
        Some(0)
    }
}

/// The spinner frame after `frame`, cycling through the frames.
pub fn next_spinner_frame(frame: usize) -> (r: usize)
    ensures
        r == (frame as int + 1) % (SPINNER_FRAMES as int),
        r < SPINNER_FRAMES,
{
    ((frame as u128 + 1) % SPINNER_FRAMES as u128) as usize
}

/// The score shown after one more tick of its animation towards `target`:
/// it climbs by 2 and stops at the target.
pub fn advance_displayed_score(displayed: u8, target: u8) -> (r: u8)
    ensures
        displayed < target ==> r == if displayed + 2 < target {
            displayed + 2
        } else {
            target as int
        },
        displayed >= target ==> r == displayed,
{
    if displayed < target {
        let up: u16 = displayed as u16 + 2;
        if up < target as u16 {
            up as u8
        } else {
            target
        }
    } else {
        displayed
    }
}

/// Relies on `String::push`: the character is appended.
#[verifier::external_body]
fn push_char(s: &mut String, c: char)
    ensures
        final(s)@ == old(s)@.push(c),
{
    s.push(c)
}

/// Relies on `String::pop`: the last character is removed and returned.
#[verifier::external_body]
fn pop_char(s: &mut String) -> (r: Option<char>)
    ensures
        old(s)@.len() == 0 ==> r is None && final(s)@ == old(s)@,
        old(s)@.len() > 0 ==> r == Some(old(s)@.last()) && final(s)@ == old(s)@.drop_last(),
{
    s.pop()
}

/// The host named by the URL `s`, or `None` where `s` does not parse as a
/// URL or names no host.
pub uninterp spec fn url_host(s: Seq<char>) -> Option<Seq<char>>;

/// Relies on `url::Url::parse` and `Url::host_str`: the outcome depends on
/// the text alone.
#[verifier::external_body]
fn parse_url_host(s: &str) -> (r: Option<String>)
    ensures
        match r {
            Some(h) => url_host(s@) == Some(h@),
            None => url_host(s@) is None,
        },
{
    url::Url::parse(s).ok().and_then(|u| u.host_str().map(String::from))
}

/// `input` with `https://` in front unless it already names the scheme.
pub open spec fn with_scheme(input: Seq<char>) -> Seq<char> {
    if !is_prefix("http://"@, input) && !is_prefix("https://"@, input) {
        "https://"@ + input
    } else {
        input
    }
}

/// The host to scan for what the user typed: the host of the URL it
/// names, `https://` being assumed where no scheme is given, or the input
/// itself where that is no URL.
pub fn target_host(input: &str) -> (r: String)
    ensures
        r@ == target_of(input@),
{
    let url = if !starts_with(input, "http://") && !starts_with(input, "https://") {
        let mut u = String::from_str("https://");
        u.append(input);
        u
    } else {
        String::from_str(input)
    };
    match parse_url_host(url.as_str()) {
        Some(h) => h,
        None => String::from_str(input),
    }
}

/// The host that `target_host` answers for `input`.
pub open spec fn target_of(input: Seq<char>) -> Seq<char> {
    match url_host(with_scheme(input)) {
        Some(h) => h,
        None => input,
    }
}

/// The position just after the first `://` at or after `i` in `s`, or 0
/// where there is none.
pub open spec fn scheme_end_from(s: Seq<char>, i: int) -> int
    decreases s.len() - i,
{
    if i < 0 || i + 3 > s.len() {
        0
    } else if s[i] == ':' && s[i + 1] == '/' && s[i + 2] == '/' {
        i + 3
    } else {
        scheme_end_from(s, i + 1)
    }
}

proof fn lemma_scheme_end_bound(s: Seq<char>, i: int)
    requires
        0 <= i,
    ensures
        0 <= scheme_end_from(s, i) <= s.len(),
    decreases s.len() - i,
{
    if i + 3 <= s.len() && !(s[i] == ':' && s[i + 1] == '/' && s[i + 2] == '/') {
        lemma_scheme_end_bound(s, i + 1);
    }
}

fn scheme_end(s: &str) -> (r: usize)
    ensures
        r == scheme_end_from(s@, 0),
{
    let n = s.unicode_len();
    let mut i: usize = 0;
    proof {
        lemma_scheme_end_bound(s@, 0);
    }
    while n >= 3 && i <= n - 3
        invariant
            n == s@.len(),
            i <= n,
            scheme_end_from(s@, 0) == scheme_end_from(s@, i as int),
        decreases n - i,
    {
        if s.get_char(i) == ':' && s.get_char(i + 1) == '/' && s.get_char(i + 2) == '/' {
            return i + 3;
        }
        i = i + 1;
    }
    0
}

/// `s` with every `/` turned into `_`.
pub open spec fn slashes_to_underscores(s: Seq<char>) -> Seq<char> {
    s.map_values(|c: char| if c == '/' { '_' } else { c })
}

/// The name of the file a report is exported to: the target as typed,
/// without its scheme and with `/` turned into `_`, then `-`, the
/// timestamp and `.json`.
pub fn export_file_name(input: &str, timestamp: &str) -> (r: String)
    ensures
        r@ == slashes_to_underscores(input@.subrange(scheme_end_from(input@, 0), input@.len() as int)) + "-"@
            + timestamp@ + ".json"@,
{
    let n = input.unicode_len();
    let start = scheme_end(input);
    proof {
        lemma_scheme_end_bound(input@, 0);
    }
    let mut r = String::new();
    let mut k: usize = start;
    while k < n
        invariant
            start <= k <= n,
            n == input@.len(),
            start == scheme_end_from(input@, 0),
            r@ == slashes_to_underscores(input@.subrange(start as int, k as int)),
        decreases n - k,
    {
        let c = input.get_char(k);
        if c == '/' {
            push_char(&mut r, '_');
        } else {
            push_char(&mut r, c);
        }
        assert(input@.subrange(start as int, k + 1) =~= input@.subrange(start as int, k as int).push(c));
        assert(r@ =~= slashes_to_underscores(input@.subrange(start as int, k + 1)));
        k = k + 1;
    }
    r.append("-");
    r.append(timestamp);
    r.append(".json");
    r
}

/// A key press, as far as the session distinguishes keys.
#[derive(Debug, Clone, Copy, PartialEq, Eq, Structural)]
pub enum Key {
    Char(char),
    Enter,
    Backspace,
    Left,
    Right,
    Up,
    Down,
    Other,
}

/// What the session asks its driver to do after a key press.
#[derive(Debug, Clone)]
pub enum SessionAction {
    Nothing,
    /// Scan this host and hand the report back.
    StartScan(String),
    /// Export the current report.
    Export,
    /// Read the log and hand its lines back.
    RefreshLogs,
}

/// How many of the log's most recent lines the session keeps.
pub const LOG_LINES_SHOWN: usize = 200;

/// The state of an interactive session.
#[derive(Debug)]
pub struct App {
    pub should_quit: bool,
    pub state: AppState,
    pub input: String,
    pub scan_report: Option<ScanReport>,
    pub summary: ScanSummary,
    pub export_status: ExportStatus,
    pub spinner_frame: usize,
    pub all_findings: Vec<AnalysisFinding>,
    /// The selected finding, if any.
    pub selected_finding: Option<usize>,
    pub displayed_score: u8,
    pub show_logs: bool,
    /// The most recent log lines, newest first.
    pub log_content: Vec<String>,
    pub log_horizontal_scroll: usize,
}

/// `after` is `before` once the session is reset: the scan, its summary,
/// the input and the selection are cleared; whether the session is ending,
/// the log panel and the score shown are kept.
pub open spec fn reset_from(before: App, after: App) -> bool {
    &&& after.state == AppState::Idle
    &&& after.input@.len() == 0
    &&& after.scan_report is None
    &&& empty_summary(after.summary)
    &&& after.export_status is Idle
    &&& after.spinner_frame == 0
    &&& after.all_findings@.len() == 0
    &&& after.selected_finding is None
    &&& after.log_horizontal_scroll == 0
    &&& after.should_quit == before.should_quit
    &&& after.show_logs == before.show_logs
    &&& after.log_content == before.log_content
    &&& after.displayed_score == before.displayed_score
}

impl App {
    /// A fresh session, showing the usage notice.
    pub fn new() -> (r: Self)
        ensures
            !r.should_quit,
            r.state == AppState::Disclaimer,
            r.input@.len() == 0,
            r.scan_report is None,
            r.export_status is Idle,
            r.spinner_frame == 0,
            r.all_findings@.len() == 0,
            r.selected_finding is None,
            r.displayed_score == 0,
            !r.show_logs,
            r.log_content@.len() == 0,
            r.log_horizontal_scroll == 0,
    {
        App {
            should_quit: false,
            state: AppState::default(),
            input: String::new(),
            scan_report: None,
            summary: ScanSummary::default(),
            export_status: ExportStatus::Idle,
            spinner_frame: 0,
            all_findings: Vec::new(),
            selected_finding: None,
            displayed_score: 0,
            show_logs: false,
            log_content: Vec::new(),
            log_horizontal_scroll: 0,
        }
    }

    /// Moves the selection down the findings, wrapping at the end.
    pub fn select_next_finding(&mut self)
        ensures
            *final(self) == (App {
                selected_finding: next_selection_spec(old(self).selected_finding, old(self).all_findings@.len()),
                ..*old(self)
            }),
    {
        self.selected_finding = next_selection(self.selected_finding, self.all_findings.len());
    }

    /// Moves the selection up the findings, wrapping at the start.
    pub fn select_previous_finding(&mut self)
        ensures
            *final(self) == (App {
                selected_finding: previous_selection_spec(old(self).selected_finding, old(self).all_findings@.len()),
                ..*old(self)
            }),
    {
        self.selected_finding = previous_selection(self.selected_finding, self.all_findings.len());
    }

    /// Lists the report's findings and selects the first.
    pub fn update_findings(&mut self)
        ensures
            match old(self).scan_report {
                Some(rep) => findings_view(final(self).all_findings@) == report_findings(rep)
                    && *final(self) == (App {
                    all_findings: final(self).all_findings,
                    selected_finding: if final(self).all_findings@.len() == 0 {
                        None
                    } else {
                        Some(0usize)
                    },
                    ..*old(self)
                }),
                None => *final(self) == *old(self),
            },
    {
        if let Some(report) = &self.scan_report {
            let all = all_findings(report);
            self.selected_finding = first_selection(all.len());
            self.all_findings = all;
        }
    }

    /// One tick of the clock: the spinner turns while scanning, and the
    /// score shown climbs towards the real one once finished.
    pub fn on_tick(&mut self)
        ensures
            final(self).spinner_frame == if old(self).state == AppState::Scanning {
                ((old(self).spinner_frame + 1) % (SPINNER_FRAMES as int)) as usize
            } else {
                old(self).spinner_frame
            },
            old(self).state == AppState::Finished ==> final(self).displayed_score == if old(self).displayed_score
                < old(self).summary.score {
                if old(self).displayed_score + 2 < old(self).summary.score {
                    (old(self).displayed_score + 2) as u8
                } else {
                    old(self).summary.score
                }
            } else {
                old(self).displayed_score
            },
            old(self).state != AppState::Finished ==> final(self).displayed_score == old(self).displayed_score,
            final(self).state == old(self).state,
            final(self).summary.score == old(self).summary.score,
    {
        if self.state == AppState::Scanning {
            self.spinner_frame = next_spinner_frame(self.spinner_frame);
        }
        if self.state == AppState::Finished {
            self.displayed_score = advance_displayed_score(self.displayed_score, self.summary.score);
        }
    }

    /// Ends the session.
    pub fn quit(&mut self)
        ensures
            final(self).should_quit,
            final(self).state == old(self).state,
    {
        self.should_quit = true;
    }

    /// Forgets the last scan and waits for a new target.
    pub fn reset(&mut self)
        ensures
            reset_from(*old(self), *final(self)),
    {
        self.state = AppState::Idle;
        self.input = String::new();
        self.scan_report = None;
        self.summary = ScanSummary::default();
        self.export_status = ExportStatus::Idle;
        self.spinner_frame = 0;
        self.all_findings = Vec::new();
        self.selected_finding = None;
        self.log_horizontal_scroll = 0;
    }

    /// Summarises the report and restarts the score animation.
    pub fn update_summary(&mut self)
        ensures
            match old(self).scan_report {
                Some(rep) => summary_of(final(self).summary, rep) && *final(self) == (App {
                    summary: final(self).summary,
                    displayed_score: 0,
                    ..*old(self)
                }),
                None => *final(self) == *old(self),
            },
    {
        if let Some(report) = &self.scan_report {
            self.summary = summarize(report);
            self.displayed_score = 0;
        }
    }

    /// Takes in the report of the scan that was running.
    pub fn receive_report(&mut self, report: ScanReport)
        ensures
            final(self).state == AppState::Finished,
            final(self).scan_report == Some(report),
            summary_of(final(self).summary, report),
            final(self).displayed_score == 0,
            findings_view(final(self).all_findings@) == report_findings(report),
            final(self).selected_finding == if final(self).all_findings@.len() == 0 {
                None
            } else {
                Some(0usize)
            },
    {
        self.scan_report = Some(report);
        self.state = AppState::Finished;
        self.update_summary();
        self.update_findings();
    }

    /// Keeps the newest `LOG_LINES_SHOWN` lines of the log, newest first.
    pub fn set_log_lines(&mut self, lines: Vec<String>)
        ensures
            final(self).log_content@.len() == if lines@.len() < LOG_LINES_SHOWN {
                lines@.len()
            } else {
                LOG_LINES_SHOWN as nat
            },
            forall|i: int|
                0 <= i < final(self).log_content@.len() ==> #[trigger] final(self).log_content@[i] == lines@[lines@.len()
                    - 1 - i],
            final(self).state == old(self).state,
    {
        let mut out: Vec<String> = Vec::new();
        let n = lines.len();
        let mut i: usize = 0;
        while i < n && i < LOG_LINES_SHOWN
            invariant
                n == lines@.len(),
                i <= n,
                i <= LOG_LINES_SHOWN,
                out@.len() == i,
                forall|k: int| 0 <= k < i ==> #[trigger] out@[k] == lines@[n - 1 - k],
            decreases n - i,
        {
            out.push(lines[n - 1 - i].clone());
            i = i + 1;
        }
        self.log_content = out;
    }

    /// Decides what a key press does in the current state.
    pub fn handle_key(&mut self, key: Key) -> (r: SessionAction)
        ensures
            old(self).state == AppState::Disclaimer ==> r is Nothing && final(self).state == if key == Key::Enter {
                AppState::Idle
            } else {
                AppState::Disclaimer
            },
            old(self).state == AppState::Scanning ==> r is Nothing && final(self).state == AppState::Scanning
                && final(self).should_quit == (old(self).should_quit || key == Key::Char('q')),
            old(self).state == AppState::Idle ==> final(self).export_status is Idle && match key {
                Key::Char('q') => final(self).should_quit && r is Nothing,
                Key::Char(c) => final(self).input@ == old(self).input@.push(c) && r is Nothing,
                Key::Backspace => final(self).input@ == if old(self).input@.len() == 0 {
                    old(self).input@
                } else {
                    old(self).input@.drop_last()
                } && r is Nothing,
                Key::Enter => if old(self).input@.len() == 0 {
                    r is Nothing && final(self).state == AppState::Idle
                } else {
                    final(self).state == AppState::Scanning && (r matches SessionAction::StartScan(t) && t@
                        == target_of(old(self).input@))
                },
                _ => r is Nothing && final(self).state == AppState::Idle,
            },
            old(self).state == AppState::Finished ==> final(self).export_status is Idle && (if old(self).show_logs
                && key == Key::Left {
                r is Nothing && final(self).log_horizontal_scroll == if old(self).log_horizontal_scroll == 0 {
                    0
                } else {
                    (old(self).log_horizontal_scroll - 1) as usize
                }
            } else if old(self).show_logs && key == Key::Right {
                r is Nothing && final(self).log_horizontal_scroll == if old(self).log_horizontal_scroll == usize::MAX {
                    usize::MAX
                } else {
                    (old(self).log_horizontal_scroll + 1) as usize
                }
            } else {
                match key {
                    Key::Char('q') | Key::Char('Q') => final(self).should_quit && r is Nothing,
                    Key::Char('n') | Key::Char('N') => reset_from(*old(self), *final(self)) && r is Nothing,
                    Key::Char('e') | Key::Char('E') => if old(self).scan_report is Some {
                        r is Export
                    } else {
                        r is Nothing
                    },
                    Key::Down => r is Nothing && *final(self) == (App {
                        selected_finding: next_selection_spec(old(self).selected_finding, old(self).all_findings@.len()),
                        export_status: ExportStatus::Idle,
                        ..*old(self)
                    }),
                    Key::Up => r is Nothing && *final(self) == (App {
                        selected_finding: previous_selection_spec(old(self).selected_finding, old(self).all_findings@.len()),
                        export_status: ExportStatus::Idle,
                        ..*old(self)
                    }),
                    Key::Char('l') | Key::Char('L') => final(self).show_logs == !old(self).show_logs
                        && (final(self).show_logs ==> r is RefreshLogs) && (!final(self).show_logs ==> r is Nothing),
                    _ => r is Nothing && final(self).state == AppState::Finished,
                }
            }),
    {
        match self.state {
            AppState::Disclaimer => {
                if key == Key::Enter {
                    self.state = AppState::Idle;
                }
                SessionAction::Nothing
            },
            AppState::Scanning => {
                if key == Key::Char('q') {
                    self.should_quit = true;
                }
                SessionAction::Nothing
            },
            AppState::Idle => {
                self.export_status = ExportStatus::Idle;
                match key {
                    Key::Char('q') => {
                        self.should_quit = true;
                        SessionAction::Nothing
                    },
                    Key::Char(c) => {
                        push_char(&mut self.input, c);
                        SessionAction::Nothing
                    },
                    Key::Backspace => {
                        pop_char(&mut self.input);
                        SessionAction::Nothing
                    },
                    Key::Enter => {
                        if self.input.unicode_len() == 0 {
                            SessionAction::Nothing
                        } else {
                            self.state = AppState::Scanning;
                            SessionAction::StartScan(target_host(self.input.as_str()))
                        }
                    },
                    _ => SessionAction::Nothing,
                }
            },
            AppState::Finished => {
                self.export_status = ExportStatus::Idle;
                if self.show_logs && key == Key::Left {
                    if self.log_horizontal_scroll > 0 {
                        self.log_horizontal_scroll = self.log_horizontal_scroll - 1;
                    }
                    return SessionAction::Nothing;
                }
                if self.show_logs && key == Key::Right {
                    if self.log_horizontal_scroll < usize::MAX {
                        self.log_horizontal_scroll = self.log_horizontal_scroll + 1;
                    }
                    return SessionAction::Nothing;
                }
                match key {
                    Key::Char('q') | Key::Char('Q') => {
                        self.should_quit = true;
                        SessionAction::Nothing
                    },
                    Key::Char('n') | Key::Char('N') => {
                        self.reset();
                        SessionAction::Nothing
                    },
                    Key::Char('e') | Key::Char('E') => {
                        if self.scan_report.is_some() {
                            SessionAction::Export
                        } else {
                            SessionAction::Nothing
                        }
                    },
                    Key::Down => {
                        self.select_next_finding();
                        SessionAction::Nothing
                    },
                    Key::Up => {
                        self.select_previous_finding();
                        SessionAction::Nothing
                    },
                    Key::Char('l') | Key::Char('L') => {
                        self.show_logs = !self.show_logs;
                        if self.show_logs {
                            SessionAction::RefreshLogs
                        } else {
                            SessionAction::Nothing
                        }
                    },
                    _ => SessionAction::Nothing,
                }
            },
        }
    }
}

} // verus!
