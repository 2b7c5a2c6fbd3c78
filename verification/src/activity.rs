//! Activity capture: coalescing of input events into periodic batches.
//!
//! Keyboard input is coalesced per focused window into a text buffer;
//! mouse clicks and scroll ticks are counted. On each monitor tick the
//! coalesced state is drained into a batch of activity records — a focus
//! change first, then the keyboard text per window, then the two
//! counters — and the state is reset. The input hooks and the monitor
//! loop live in the surrounding application and hand plain values in.
use crate::external::lower_of;
use crate::store::spec_decimal;
use vstd::prelude::*;
use vstd::slice::slice_index_get;
use vstd::string::StringExecFns;
use vstd::utf8::encode_utf8;

verus! {

/// What kind of activity one record describes.
#[derive(Clone, Copy, PartialEq, Eq, Structural, Debug)]
pub enum ActivityType {
    KeyboardInput,
    MouseClick,
    MouseScroll,
    WindowFocus,
    BrowserActivity,
}

/// One logged activity.
pub struct ActivityMeta {
    /// When the record was drained, as an RFC 3339 instant.
    pub timestamp: String,
    pub activity_type: ActivityType,
    /// The coalesced text, or a short description of the activity.
    pub details: String,
    pub window_title: Option<String>,
    pub app_name: Option<String>,
}

/// What an activity record holds, at the specification level.
pub struct ActivityView {
    pub timestamp: Seq<char>,
    pub activity_type: ActivityType,
    pub details: Seq<char>,
    pub window_title: Option<Seq<char>>,
    pub app_name: Option<Seq<char>>,
}

impl View for ActivityMeta {
    type V = ActivityView;

    open spec fn view(&self) -> ActivityView {
        ActivityView {
            timestamp: self.timestamp@,
            activity_type: self.activity_type,
            details: self.details@,
            window_title: match self.window_title {
                Some(t) => Some(t@),
                None => None,
            },
            app_name: match self.app_name {
                Some(a) => Some(a@),
                None => None,
            },
        }
    }
}

/// The views of a batch of records.
pub open spec fn views_of(s: Seq<ActivityMeta>) -> Seq<ActivityView> {
    s.map_values(|a: ActivityMeta| a@)
}

/// One persisted batch of activity records.
pub struct LogData {
    pub activities: Vec<ActivityMeta>,
}

/// One keyboard event, as the input hook reports it.
pub enum KeyInput {
    /// The return key, main block or keypad.
    Return,
    Space,
    Tab,
    /// Removes the last coalesced character.
    Backspace,
    /// Any key that produced text, with that text.
    Named(String),
    /// A key that produced no text.
    Other,
}

/// What one keyboard event does to a window's coalesced text.
pub open spec fn spec_apply_key(text: Seq<char>, input: KeyInput) -> Seq<char> {
    match input {
        KeyInput::Return => text + "\n"@,
        KeyInput::Space => text + " "@,
        KeyInput::Tab => text + "\t"@,
        KeyInput::Backspace => if text.len() == 0 {
            text
        } else {
            text.drop_last()
        },
        KeyInput::Named(s) => text + s@,
        KeyInput::Other => text,
    }
}

/// Applies one keyboard event to a window's coalesced text.
fn apply_key_to_text(text: &mut String, input: KeyInput)
    ensures
        final(text)@ == spec_apply_key(old(text)@, input),
{
    match input {
        KeyInput::Return => text.append("\n"),
        KeyInput::Space => text.append(" "),
        KeyInput::Tab => text.append("\t"),
        KeyInput::Backspace => {
            let _ = crate::external::pop_char(text);
        },
        KeyInput::Named(s) => text.append(s.as_str()),
        KeyInput::Other => (),
    }
}

/// The coalescing state of the activity logger: one text buffer per
/// focused window plus the two input counters, guarded by the service's
/// running flag.
pub struct ActivityLoggerState {
    pub is_activity_logging_running: bool,
    /// Coalesced keyboard text, one entry per window title, in order of
    /// first appearance; titles are unique.
    pub keystroke_buffer: Vec<(String, String)>,
    pub mouse_click_count: u32,
    pub mouse_scroll_count: u32,
}

impl ActivityLoggerState {
    /// Window titles index the buffer uniquely.
    pub open spec fn wf(&self) -> bool {
        forall|i: int, j: int|
            0 <= i < j < self.keystroke_buffer@.len() ==> (#[trigger] self.keystroke_buffer@[i]).0@
                != (#[trigger] self.keystroke_buffer@[j]).0@
    }

    /// A fresh logger: stopped, nothing coalesced.
    pub fn new() -> (s: Self)
        ensures
            s.wf(),
            !s.is_activity_logging_running,
            s.keystroke_buffer@.len() == 0,
            s.mouse_click_count == 0,
            s.mouse_scroll_count == 0,
    {
        ActivityLoggerState {
            is_activity_logging_running: false,
            keystroke_buffer: Vec::new(),
            mouse_click_count: 0,
            mouse_scroll_count: 0,
        }
    }

    /// Coalesces one keyboard event into the focused window's buffer,
    /// creating the window's entry on first use. Ignored while the
    /// service is stopped.
    pub fn record_key(&mut self, window_title: String, input: KeyInput)
        requires
            old(self).wf(),
        ensures
            final(self).wf(),
            final(self).is_activity_logging_running == old(self).is_activity_logging_running,
            final(self).mouse_click_count == old(self).mouse_click_count,
            final(self).mouse_scroll_count == old(self).mouse_scroll_count,
            !old(self).is_activity_logging_running
                ==> final(self).keystroke_buffer@ == old(self).keystroke_buffer@,
            old(self).is_activity_logging_running ==> {
                let buf = old(self).keystroke_buffer@;
                if exists|i: int| 0 <= i < buf.len() && (#[trigger] buf[i]).0@ == window_title@ {
                    let i = choose|i: int|
                        0 <= i < buf.len() && (#[trigger] buf[i]).0@ == window_title@;
                    &&& final(self).keystroke_buffer@.len() == buf.len()
                    &&& forall|m: int|
                        0 <= m < buf.len() && m != i
                            ==> #[trigger] final(self).keystroke_buffer@[m] == buf[m]
                    &&& final(self).keystroke_buffer@[i].0@ == buf[i].0@
                    &&& final(self).keystroke_buffer@[i].1@ == spec_apply_key(buf[i].1@, input)
                } else {
                    &&& final(self).keystroke_buffer@.len() == buf.len() + 1
                    &&& forall|m: int|
                        0 <= m < buf.len() ==> #[trigger] final(self).keystroke_buffer@[m]
                            == buf[m]
                    &&& final(self).keystroke_buffer@[buf.len() as int].0@ == window_title@
                    &&& final(self).keystroke_buffer@[buf.len() as int].1@ == spec_apply_key(
                        Seq::empty(),
                        input,
                    )
                }
            },
    {
        if !self.is_activity_logging_running {
            return ;
        }
        let ghost buf = self.keystroke_buffer@;
        let n = self.keystroke_buffer.len();
        let mut found: Option<usize> = None;
        let mut i: usize = 0;
        while i < n
            invariant
                n == self.keystroke_buffer@.len(),
                i <= n,
                buf == self.keystroke_buffer@,
                match found {
                    Some(j) => j < i && buf[j as int].0@ == window_title@,
                    None => forall|m: int| 0 <= m < i ==> (#[trigger] buf[m]).0@ != window_title@,
                },
                found is Some ==> exists|m: int|
                    0 <= m < buf.len() && (#[trigger] buf[m]).0@ == window_title@,
            decreases n - i,
        {
            if found.is_none() && self.keystroke_buffer[i].0 == window_title {
                found = Some(i);
            }
            i = i + 1;
        }
        match found {
            Some(j) => {
                let key = self.keystroke_buffer[j].0.clone();
                let mut text = self.keystroke_buffer[j].1.clone();
                apply_key_to_text(&mut text, input);
                self.keystroke_buffer.set(j, (key, text));
                proof {
                    let i = choose|i: int|
                        0 <= i < buf.len() && (#[trigger] buf[i]).0@ == window_title@;
                    assert(buf[i].0@ == buf[j as int].0@);
                    if i != j {
                        assert(false);
                    }
                }
            },
            None => {
                let mut text = String::new();
                apply_key_to_text(&mut text, input);
                self.keystroke_buffer.push((window_title, text));
            },
        }
    }

    /// Counts one mouse click, saturating; ignored while stopped.
    pub fn record_click(&mut self)
        ensures
            final(self).keystroke_buffer == old(self).keystroke_buffer,
            final(self).is_activity_logging_running == old(self).is_activity_logging_running,
            final(self).mouse_scroll_count == old(self).mouse_scroll_count,
            final(self).mouse_click_count == if old(self).is_activity_logging_running && old(
                self,
            ).mouse_click_count < u32::MAX {
                old(self).mouse_click_count + 1
            } else {
                old(self).mouse_click_count as int
            },
    {
        if self.is_activity_logging_running && self.mouse_click_count < u32::MAX {
            self.mouse_click_count = self.mouse_click_count + 1;
        }
    }

    /// Counts one scroll event with a vertical component, saturating;
    /// ignored while stopped.
    pub fn record_scroll(&mut self, delta_y: i64)
        ensures
            final(self).keystroke_buffer == old(self).keystroke_buffer,
            final(self).is_activity_logging_running == old(self).is_activity_logging_running,
            final(self).mouse_click_count == old(self).mouse_click_count,
            final(self).mouse_scroll_count == if old(self).is_activity_logging_running && delta_y
                != 0 && old(self).mouse_scroll_count < u32::MAX {
                old(self).mouse_scroll_count + 1
            } else {
                old(self).mouse_scroll_count as int
            },
    {
        if self.is_activity_logging_running && delta_y != 0 && self.mouse_scroll_count
            < u32::MAX {
            self.mouse_scroll_count = self.mouse_scroll_count + 1;
        }
    }
}

/// Whether the byte string `h` holds `n` as a contiguous run.
pub open spec fn spec_bytes_contain(h: Seq<u8>, n: Seq<u8>) -> bool {
    exists|i: int|
        0 <= i <= h.len() - n.len() && #[trigger] h.subrange(i, i + n.len() as int) == n
}

/// Whether the bytes of `n` stand at position `i` of `h`.
fn match_at(h: &[u8], n: &[u8], i: usize) -> (r: bool)
    requires
        i + n@.len() <= h@.len(),
    ensures
        r == (h@.subrange(i as int, i as int + n@.len() as int) == n@),
{
    let m = n.len();
    let hl = h.len();
    let mut j: usize = 0;
    while j < m
        invariant
            m == n@.len(),
            hl == h@.len(),
            i + m <= hl,
            j <= m,
            forall|k: int| 0 <= k < j ==> h@[i + k] == n@[k],
        decreases m - j,
    {
        if *slice_index_get(h, i + j) != *slice_index_get(n, j) {
            proof {
                assert(h@.subrange(i as int, i as int + m as int)[j as int] != n@[j as int]);
            }
            return false;
        }
        j = j + 1;
    }
    proof {
        assert(h@.subrange(i as int, i as int + m as int) =~= n@);
    }
    true
}

/// Substring search over bytes, as the scanner for browser names needs.
fn bytes_contain(h: &[u8], n: &[u8]) -> (r: bool)
    ensures
        r == spec_bytes_contain(h@, n@),
{
    let hl = h.len();
    let nl = n.len();
    if nl > hl {
        return false;
    }
    if nl == 0 {
        proof {
            assert(h@.subrange(0, 0 + n@.len() as int) =~= n@);
            assert(spec_bytes_contain(h@, n@));
        }
        return true;
    }
    let mut i: usize = 0;
    while i <= hl - nl
        invariant
            hl == h@.len(),
            nl == n@.len(),
            1 <= nl <= hl,
            i <= hl - nl + 1,
            forall|p: int|
                0 <= p < i ==> #[trigger] h@.subrange(p, p + nl as int) != n@,
        decreases hl - nl + 1 - i,
    {
        if match_at(h, n, i) {
            return true;
        }
        i = i + 1;
    }
    false
}

/// Whether a case-folded application name names a known browser.
pub open spec fn spec_is_browser_folded(folded: Seq<char>) -> bool {
    ||| spec_bytes_contain(encode_utf8(folded), encode_utf8("chrome"@))
    ||| spec_bytes_contain(encode_utf8(folded), encode_utf8("firefox"@))
    ||| spec_bytes_contain(encode_utf8(folded), encode_utf8("edge"@))
    ||| spec_bytes_contain(encode_utf8(folded), encode_utf8("safari"@))
    ||| spec_bytes_contain(encode_utf8(folded), encode_utf8("brave"@))
    ||| spec_bytes_contain(encode_utf8(folded), encode_utf8("msedge"@))
}

/// The kind a focus change is logged under, from the application's name.
pub open spec fn spec_focus_kind(app_name: Seq<char>) -> ActivityType {
    if spec_is_browser_folded(lower_of(app_name)) {
        ActivityType::BrowserActivity
    } else {
        ActivityType::WindowFocus
    }
}

/// Classifies a focus change: browser activity when the case-folded
/// application name holds a known browser's name, window focus else.
pub fn classify_focus_app(app_name: &str) -> (t: ActivityType)
    ensures
        t == spec_focus_kind(app_name@),
{
    let folded = crate::external::to_lowercase(app_name);
    let fb = folded.as_str().as_bytes();
    if bytes_contain(fb, "chrome".as_bytes()) || bytes_contain(fb, "firefox".as_bytes())
        || bytes_contain(fb, "edge".as_bytes()) || bytes_contain(fb, "safari".as_bytes())
        || bytes_contain(fb, "brave".as_bytes()) || bytes_contain(fb, "msedge".as_bytes()) {
        ActivityType::BrowserActivity
    } else {
        ActivityType::WindowFocus
    }
}

/// The window the user is focused on, as the window source reports it.
pub struct FocusSnapshot {
    pub title: String,
    pub app_name: String,
}

/// The record of one focus change.
pub open spec fn spec_focus_activity(ts: Seq<char>, title: Seq<char>, app: Seq<char>)
    -> ActivityView {
    ActivityView {
        timestamp: ts,
        activity_type: spec_focus_kind(app),
        details: "Focus on: '"@ + title + "'"@,
        window_title: Some(title),
        app_name: Some(app),
    }
}

/// The focus part of a drained batch: one record exactly when the
/// focused window changed to a new, non-empty title.
pub open spec fn spec_focus_views(
    ts: Seq<char>,
    focus: Option<(Seq<char>, Seq<char>)>,
    last_title: Seq<char>,
) -> Seq<ActivityView> {
    match focus {
        Some((title, app)) => if title != last_title && title.len() > 0 {
            seq![spec_focus_activity(ts, title, app)]
        } else {
            Seq::empty()
        },
        None => Seq::empty(),
    }
}

/// The title remembered after a drain, for the next change detection.
pub open spec fn spec_new_last_title(
    focus: Option<(Seq<char>, Seq<char>)>,
    last_title: Seq<char>,
) -> Seq<char> {
    match focus {
        Some((title, app)) => if title != last_title && title.len() > 0 {
            title
        } else {
            last_title
        },
        None => last_title,
    }
}

/// The keyboard part of a drained batch: one record per window whose
/// coalesced text is non-empty, in buffer order.
pub open spec fn spec_keyboard_views(ts: Seq<char>, buf: Seq<(String, String)>) -> Seq<
    ActivityView,
>
    decreases buf.len(),
{
    if buf.len() == 0 {
        Seq::empty()
    } else {
        spec_keyboard_views(ts, buf.drop_last()) + if buf.last().1@.len() > 0 {
            seq![
                ActivityView {
                    timestamp: ts,
                    activity_type: ActivityType::KeyboardInput,
                    details: buf.last().1@,
                    window_title: Some(buf.last().0@),
                    app_name: None,
                },
            ]
        } else {
            Seq::empty()
        }
    }
}

/// The counter part of a drained batch: the click count then the scroll
/// count, each only when it is non-zero.
pub open spec fn spec_counter_views(ts: Seq<char>, clicks: u32, scrolls: u32) -> Seq<
    ActivityView,
> {
    (if clicks > 0 {
        seq![
            ActivityView {
                timestamp: ts,
                activity_type: ActivityType::MouseClick,
                details: spec_decimal(clicks as int) + " mouse clicks"@,
                window_title: None,
                app_name: None,
            },
        ]
    } else {
        Seq::empty()
    }) + (if scrolls > 0 {
        seq![
            ActivityView {
                timestamp: ts,
                activity_type: ActivityType::MouseScroll,
                details: spec_decimal(scrolls as int) + " scroll events"@,
                window_title: None,
                app_name: None,
            },
        ]
    } else {
        Seq::empty()
    })
}

/// The view of a focus parameter.
pub open spec fn spec_focus_of(focus: Option<FocusSnapshot>) -> Option<(Seq<char>, Seq<char>)> {
    match focus {
        Some(f) => Some((f.title@, f.app_name@)),
        None => None,
    }
}

impl ActivityLoggerState {
    /// Drains everything coalesced since the last monitor tick into one
    /// batch — the focus change, the keyboard text per window, then the
    /// two counters — and resets the coalescing state. `last_window_title`
    /// is the monitor's memory of the previously focused window.
    pub fn drain_batch(
        &mut self,
        timestamp: &str,
        focus: Option<FocusSnapshot>,
        last_window_title: &mut String,
    ) -> (batch: Vec<ActivityMeta>)
        requires
            old(self).wf(),
        ensures
            final(self).wf(),
            final(self).is_activity_logging_running == old(self).is_activity_logging_running,
            final(self).keystroke_buffer@.len() == 0,
            final(self).mouse_click_count == 0,
            final(self).mouse_scroll_count == 0,
            views_of(batch@) == spec_focus_views(
                timestamp@,
                spec_focus_of(focus),
                old(last_window_title)@,
            ) + spec_keyboard_views(timestamp@, old(self).keystroke_buffer@) + spec_counter_views(
                timestamp@,
                old(self).mouse_click_count,
                old(self).mouse_scroll_count,
            ),
            final(last_window_title)@ == spec_new_last_title(
                spec_focus_of(focus),
                old(last_window_title)@,
            ),
    {
        let ghost focus_part = spec_focus_views(
            timestamp@,
            spec_focus_of(focus),
            old(last_window_title)@,
        );
        let ghost keyboard_part = spec_keyboard_views(timestamp@, old(self).keystroke_buffer@);
        let mut batch: Vec<ActivityMeta> = Vec::new();
        match focus {
            Some(f) => {
                let changed = !(f.title == *last_window_title);
                if changed && !f.title.as_str().is_empty() {
                    let kind = classify_focus_app(f.app_name.as_str());
                    let mut details = "Focus on: '".to_owned();
                    details.append(f.title.as_str());
                    details.append("'");
                    batch.push(
                        ActivityMeta {
                            timestamp: timestamp.to_owned(),
                            activity_type: kind,
                            details,
                            window_title: Some(f.title.clone()),
                            app_name: Some(f.app_name),
                        },
                    );
                    *last_window_title = f.title;
                    proof {
                        assert(views_of(batch@) =~= focus_part);
                    }
                } else {
                    proof {
                        assert(views_of(batch@) =~= focus_part);
                    }
                }
            },
            None => {
                proof {
                    assert(views_of(batch@) =~= focus_part);
                }
            },
        }
        let ghost buf = self.keystroke_buffer@;
        let n = self.keystroke_buffer.len();
        let mut i: usize = 0;
        while i < n
            invariant
                n == self.keystroke_buffer@.len(),
                buf == self.keystroke_buffer@,
                i <= n,
                views_of(batch@) == focus_part + spec_keyboard_views(
                    timestamp@,
                    buf.take(i as int),
                ),
            decreases n - i,
        {
            let ghost batch0 = batch@;
            if !self.keystroke_buffer[i].1.as_str().is_empty() {
                let meta = ActivityMeta {
                    timestamp: timestamp.to_owned(),
                    activity_type: ActivityType::KeyboardInput,
                    details: self.keystroke_buffer[i].1.clone(),
                    window_title: Some(self.keystroke_buffer[i].0.clone()),
                    app_name: None,
                };
                let ghost mv = meta@;
                proof {
                    assert(mv == (ActivityView {
                        timestamp: timestamp@,
                        activity_type: ActivityType::KeyboardInput,
                        details: buf[i as int].1@,
                        window_title: Some(buf[i as int].0@),
                        app_name: None,
                    }));
                }
                batch.push(meta);
                proof {
                    assert(views_of(batch@) =~= views_of(batch0).push(mv));
                }
            }
            i = i + 1;
            proof {
                assert(buf.take(i as int).drop_last() =~= buf.take(i as int - 1));
                assert(buf.take(i as int).last() == buf[i as int - 1]);
                assert(views_of(batch@) =~= focus_part + spec_keyboard_views(
                    timestamp@,
                    buf.take(i as int),
                ));
            }
        }
        proof {
            assert(buf.take(n as int) =~= buf);
        }
        self.keystroke_buffer.clear();
        let clicks = self.mouse_click_count;
        let scrolls = self.mouse_scroll_count;
        if clicks > 0 {
            let mut details = String::new();
            crate::store::push_decimal(&mut details, clicks as u64);
            details.append(" mouse clicks");
            batch.push(
                ActivityMeta {
                    timestamp: timestamp.to_owned(),
                    activity_type: ActivityType::MouseClick,
                    details,
                    window_title: None,
                    app_name: None,
                },
            );
            self.mouse_click_count = 0;
        }
        if scrolls > 0 {
            let mut details = String::new();
            crate::store::push_decimal(&mut details, scrolls as u64);
            details.append(" scroll events");
            batch.push(
                ActivityMeta {
                    timestamp: timestamp.to_owned(),
                    activity_type: ActivityType::MouseScroll,
                    details,
                    window_title: None,
                    app_name: None,
                },
            );
            self.mouse_scroll_count = 0;
        }
        proof {
            assert(views_of(batch@) =~= focus_part + keyboard_part + spec_counter_views(
                timestamp@,
                clicks,
                scrolls,
            ));
        }
        batch
    }
}

} // verus!
