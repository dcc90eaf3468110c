//! The bspwm driver's own logic: reading `bspc subscribe` lines, `bspc`
//! query output and `xprop` output, and the events it reports.

use vstd::prelude::*;
use vstd::string::*;
use crate::text::{
    str_eq, to_string, join2, trim, trim_str, lines_of, split_lines, words_of, split_words,
    to_lowercase, str_to_lowercase,
};
use crate::base::event_bus::{EventContext, Initiator, SystemEvent, opt_string_view};

verus! {

/// The bspwm driver.
pub struct BspwmDriver;

/// The lines of `s`, trimmed, without the empty ones.
pub open spec fn listed(lines: Seq<Seq<char>>) -> Seq<Seq<char>>
    decreases lines.len(),
{
    if lines.len() == 0 {
        Seq::empty()
    } else {
        let rest = listed(lines.drop_last());
        let t = trim(lines.last());
        if t.len() > 0 {
            rest.push(t)
        } else {
            rest
        }
    }
}

/// The event that a `bspc subscribe monitor desktop node` line reports,
/// with the ids as `bspc` prints them.
#[derive(Debug, Clone, PartialEq, Eq)]
pub enum BspwmEvent {
    MonitorFocus { monitor_id: String },
    DesktopFocus { monitor_id: String, desktop_id: String },
    NodeFocus { monitor_id: String, desktop_id: String, node_id: String },
    NodeAdd { monitor_id: String, desktop_id: String, node_id: String },
}

pub ghost enum BspwmEventView {
    MonitorFocus { monitor_id: Seq<char> },
    DesktopFocus { monitor_id: Seq<char>, desktop_id: Seq<char> },
    NodeFocus { monitor_id: Seq<char>, desktop_id: Seq<char>, node_id: Seq<char> },
    NodeAdd { monitor_id: Seq<char>, desktop_id: Seq<char>, node_id: Seq<char> },
}

impl View for BspwmEvent {
    type V = BspwmEventView;

    open spec fn view(&self) -> BspwmEventView {
        match self {
            BspwmEvent::MonitorFocus { monitor_id } => BspwmEventView::MonitorFocus { monitor_id: monitor_id@ },
            BspwmEvent::DesktopFocus { monitor_id, desktop_id } => BspwmEventView::DesktopFocus {
                monitor_id: monitor_id@,
                desktop_id: desktop_id@,
            },
            BspwmEvent::NodeFocus { monitor_id, desktop_id, node_id } => BspwmEventView::NodeFocus {
                monitor_id: monitor_id@,
                desktop_id: desktop_id@,
                node_id: node_id@,
            },
            BspwmEvent::NodeAdd { monitor_id, desktop_id, node_id } => BspwmEventView::NodeAdd {
                monitor_id: monitor_id@,
                desktop_id: desktop_id@,
                node_id: node_id@,
            },
        }
    }
}

/// The event of a subscription line: its first word names it, the next
/// ones give the monitor, desktop and node ids (a `node_add` line has the
/// node id fifth); a line of another kind, or with too few words, reports
/// nothing.
pub open spec fn spec_parse_line(line: Seq<char>) -> Option<BspwmEventView> {
    let w = words_of(line);
    if w.len() == 0 {
        None
    } else if w[0] == "monitor_focus"@ && w.len() >= 2 {
        Some(BspwmEventView::MonitorFocus { monitor_id: w[1] })
    } else if w[0] == "desktop_focus"@ && w.len() >= 3 {
        Some(BspwmEventView::DesktopFocus { monitor_id: w[1], desktop_id: w[2] })
    } else if w[0] == "node_focus"@ && w.len() >= 4 {
        Some(BspwmEventView::NodeFocus { monitor_id: w[1], desktop_id: w[2], node_id: w[3] })
    } else if w[0] == "node_add"@ && w.len() >= 5 {
        Some(BspwmEventView::NodeAdd { monitor_id: w[1], desktop_id: w[2], node_id: w[4] })
    } else {
        None
    }
}

/// Every event kind that the listener subscribes to is recognised: a line
/// whose first word is `monitor_focus`, `desktop_focus`, `node_focus` or
/// `node_add` and that has enough words gives that event, with the ids taken
/// from the words that follow (the node id of `node_add` from the fifth);
/// a line with another first word, or too few words, gives nothing.
pub proof fn law_subscribed_events_are_recognised(line: Seq<char>)
    ensures
        ({
            let w = words_of(line);
            &&& (w.len() >= 2 && w[0] == "monitor_focus"@) ==> spec_parse_line(line) == Some(
                BspwmEventView::MonitorFocus { monitor_id: w[1] },
            )
            &&& (w.len() >= 3 && w[0] == "desktop_focus"@) ==> spec_parse_line(line) == Some(
                BspwmEventView::DesktopFocus { monitor_id: w[1], desktop_id: w[2] },
            )
            &&& (w.len() >= 4 && w[0] == "node_focus"@) ==> spec_parse_line(line) == Some(
                BspwmEventView::NodeFocus { monitor_id: w[1], desktop_id: w[2], node_id: w[3] },
            )
            &&& (w.len() >= 5 && w[0] == "node_add"@) ==> spec_parse_line(line) == Some(
                BspwmEventView::NodeAdd { monitor_id: w[1], desktop_id: w[2], node_id: w[4] },
            )
            &&& spec_parse_line(line) is Some ==> ((w.len() >= 2 && w[0] == "monitor_focus"@)
                || (w.len() >= 3 && w[0] == "desktop_focus"@) || (w.len() >= 4 && w[0]
                == "node_focus"@) || (w.len() >= 5 && w[0] == "node_add"@))
        }),
{
    reveal_strlit("monitor_focus");
    reveal_strlit("desktop_focus");
    reveal_strlit("node_focus");
    reveal_strlit("node_add");
    assert("monitor_focus"@[0] != "desktop_focus"@[0]);
    assert("monitor_focus"@.len() != "node_focus"@.len());
    assert("monitor_focus"@.len() != "node_add"@.len());
    assert("desktop_focus"@.len() != "node_focus"@.len());
    assert("desktop_focus"@.len() != "node_add"@.len());
    assert("node_focus"@.len() != "node_add"@.len());
}

pub open spec fn opt_event_view(o: Option<BspwmEvent>) -> Option<BspwmEventView> {
    match o {
        Some(e) => Some(e@),
        None => None,
    }
}

/// The index of the first `c` in `s` at or after `i`.
pub open spec fn first_index(s: Seq<char>, c: char, i: int) -> Option<int>
    decreases s.len() - i,
{
    if i < 0 || i >= s.len() {
        None
    } else if s[i] == c {
        Some(i)
    } else {
        first_index(s, c, i + 1)
    }
}

/// The index of the last `c` in `s` before index `j`, or -1.
pub open spec fn last_index(s: Seq<char>, c: char, j: int) -> int
    decreases j,
{
    if j <= 0 {
        -1
    } else if s[j - 1] == c {
        j - 1
    } else {
        last_index(s, c, j - 1)
    }
}

/// `s` without its `"` characters.
pub open spec fn drop_quotes(s: Seq<char>) -> Seq<char>
    decreases s.len(),
{
    if s.len() == 0 {
        s
    } else if s.last() == '"' {
        drop_quotes(s.drop_last())
    } else {
        drop_quotes(s.drop_last()).push(s.last())
    }
}

/// The window class in `xprop -id <window> WM_CLASS` output: after the
/// first `=`, the last comma-separated part, trimmed and without quotes;
/// none where there is no `=` or that part is empty.
pub open spec fn spec_window_class(s: Seq<char>) -> Option<Seq<char>> {
    match first_index(s, '=', 0) {
        None => None,
        Some(p) => {
            let val = s.subrange(p + 1, s.len() as int);
            let part = val.subrange(last_index(val, ',', val.len() as int) + 1, val.len() as int);
            let clean = drop_quotes(trim(part));
            if clean.len() > 0 {
                Some(clean)
            } else {
                None
            }
        },
    }
}

/// The context of the events the driver reports: direct and silent.
pub open spec fn listener_context() -> EventContext {
    EventContext { initiator: Initiator::Direct, silent: true }
}

/// The text `s` without its `"` characters.
fn remove_quotes(s: &str) -> (r: String)
    ensures
        r@ == drop_quotes(s@),
{
    let ghost t = s@;
    let n = s.unicode_len();
    let mut out = String::new();
    let mut start: usize = 0;
    let mut i: usize = 0;
    assert(t.take(0) =~= Seq::<char>::empty());
    assert(out@ + t.subrange(0, 0) =~= drop_quotes(t.take(0)));
    while i < n
        invariant
            t == s@,
            n == t.len(),
            start <= i <= n,
            out@ + t.subrange(start as int, i as int) == drop_quotes(t.take(i as int)),
        decreases n - i,
    {
        assert(t.take(i + 1).drop_last() =~= t.take(i as int));
        assert(t.take(i + 1).last() == t[i as int]);
        if s.get_char(i) == '"' {
            let ghost before = out@;
            out.append(s.substring_char(start, i));
            assert(out@ + t.subrange(i + 1, i + 1) =~= before + t.subrange(start as int, i as int));
            start = i + 1;
        } else {
            assert(out@ + t.subrange(start as int, i + 1) =~= (out@ + t.subrange(start as int, i as int)).push(t[i as int]));
        }
        i = i + 1;
    }
    out.append(s.substring_char(start, n));
    assert(t.take(n as int) =~= t);
    out
}

impl BspwmDriver {
    pub fn new() -> (r: Self) {
        BspwmDriver
    }

    /// The name `bspc` gave for a monitor or desktop, else its id.
    pub fn name_or_id(query: Result<String, String>, id: &str) -> (r: String)
        ensures
            r@ == match query {
                Ok(n) => n@,
                Err(_) => id@,
            },
    {
        match query {
            Ok(n) => n,
            Err(_) => to_string(id),
        }
    }

    /// What a run of `bspc` gives: its output, trimmed, where it succeeded;
    /// else its error output, trimmed.
    pub fn command_result(success: bool, stdout: &str, stderr: &str) -> (r: Result<String, String>)
        ensures
            success ==> (r matches Ok(o) && o@ == trim(stdout@)),
            !success ==> (r matches Err(e) && e@ == trim(stderr@)),
    {
        if success {
            Ok(trim_str(stdout))
        } else {
            Err(trim_str(stderr))
        }
    }

    /// The names or ids that a `bspc query` listed, one a line.
    pub fn listed_names(stdout: &str) -> (r: Vec<String>)
        ensures
            r@.map_values(|x: String| x@) == listed(lines_of(stdout@)),
    {
        let lines = split_lines(stdout);
        let ghost lv = lines@.map_values(|x: String| x@);
        let mut out: Vec<String> = Vec::new();
        let mut i: usize = 0;
        assert(lv.take(0) =~= Seq::<Seq<char>>::empty());
        assert(out@.map_values(|x: String| x@) =~= Seq::<Seq<char>>::empty());
        while i < lines.len()
            invariant
                lv == lines@.map_values(|x: String| x@),
                lv.len() == lines@.len(),
                i <= lv.len(),
                out@.map_values(|x: String| x@) == listed(lv.take(i as int)),
            decreases lv.len() - i,
        {
            assert(lv.take(i + 1).drop_last() =~= lv.take(i as int));
            assert(lv.take(i + 1).last() == lines@[i as int]@);
            let t = trim_str(lines[i].as_str());
            if t.unicode_len() > 0 {
                let ghost before = out@.map_values(|x: String| x@);
                out.push(t);
                assert(out@.map_values(|x: String| x@) =~= before.push(trim(lines@[i as int]@)));
            }
            i = i + 1;
        }
        assert(lv.take(lv.len() as int) =~= lv);
        out
    }

    /// Whether a `bspc query -D --names` listing has a line that, trimmed,
    /// is `name`.
    pub fn desktop_listed(listing: &str, name: &str) -> (r: bool)
        ensures
            r == exists|k: int| 0 <= k < lines_of(listing@).len() && trim(#[trigger] lines_of(listing@)[k]) == name@,
    {
        let lines = split_lines(listing);
        let ghost lv = lines@.map_values(|x: String| x@);
        let mut i: usize = 0;
        while i < lines.len()
            invariant
                lv == lines@.map_values(|x: String| x@),
                lv == lines_of(listing@),
                lv.len() == lines@.len(),
                i <= lv.len(),
                forall|k: int| 0 <= k < i ==> trim(#[trigger] lv[k]) != name@,
            decreases lv.len() - i,
        {
            assert(lv[i as int] == lines@[i as int]@);
            let t = trim_str(lines[i].as_str());
            if str_eq(t.as_str(), name) {
                return true;
            }
            i = i + 1;
        }
        false
    }

    /// Whether a window's class is the workspace's class, case aside.
    pub fn class_matches(class: &str, app_class: &str) -> (r: bool)
        ensures
            r == (str_to_lowercase(class@) == str_to_lowercase(app_class@)),
    {
        let a = to_lowercase(class);
        let b = to_lowercase(app_class);
        str_eq(a.as_str(), b.as_str())
    }

    /// The `desktop=` setting of a spawn rule that sends a class to `desktop_id`.
    pub fn spawn_rule_target(desktop_id: &str) -> (r: String)
        ensures
            r@ == "desktop="@ + desktop_id@,
    {
        join2("desktop=", desktop_id)
    }

    /// The event of a `bspc subscribe` line, if it reports one.
    pub fn parse_event_line(line: &str) -> (r: Option<BspwmEvent>)
        ensures
            opt_event_view(r) == spec_parse_line(line@),
    {
        let w = split_words(line);
        let ghost wv = w@.map_values(|x: String| x@);
        assert(wv == words_of(line@));
        if w.len() == 0 {
            return None;
        }
        assert(forall|k: int| 0 <= k < w@.len() ==> wv[k] == #[trigger] w@[k]@);
        let kind = w[0].as_str();
        if str_eq(kind, "monitor_focus") && w.len() >= 2 {
            Some(BspwmEvent::MonitorFocus { monitor_id: w[1].clone() })
        } else if str_eq(kind, "desktop_focus") && w.len() >= 3 {
            Some(BspwmEvent::DesktopFocus { monitor_id: w[1].clone(), desktop_id: w[2].clone() })
        } else if str_eq(kind, "node_focus") && w.len() >= 4 {
            Some(BspwmEvent::NodeFocus {
                monitor_id: w[1].clone(),
                desktop_id: w[2].clone(),
                node_id: w[3].clone(),
            })
        } else if str_eq(kind, "node_add") && w.len() >= 5 {
            Some(BspwmEvent::NodeAdd {
                monitor_id: w[1].clone(),
                desktop_id: w[2].clone(),
                node_id: w[4].clone(),
            })
        } else {
            None
        }
    }

    /// The bus event that reports `ev`, given the names of its monitor and
    /// desktop (the desktop's name is not used for a monitor focus) and the
    /// class of its window (used for node events only).
    pub fn wm_event(ev: &BspwmEvent, monitor_name: String, desktop_name: String, class_name: Option<String>) -> (r: SystemEvent)
        ensures
            match *ev {
                BspwmEvent::MonitorFocus { .. } => r matches SystemEvent::WmMonitorFocused { monitor_name: m, context }
                    && m@ == monitor_name@ && context == listener_context(),
                BspwmEvent::DesktopFocus { .. } => r matches SystemEvent::WmDesktopFocused { monitor_name: m, desktop_name: d, context }
                    && m@ == monitor_name@ && d@ == desktop_name@ && context == listener_context(),
                BspwmEvent::NodeFocus { node_id, .. } => r matches SystemEvent::WmNodeFocused { monitor_name: m, desktop_name: d, node_id: n, class_name: c, context }
                    && m@ == monitor_name@ && d@ == desktop_name@ && n@ == node_id@
                    && opt_string_view(c) == opt_string_view(class_name) && context == listener_context(),
                BspwmEvent::NodeAdd { node_id, .. } => r matches SystemEvent::WmNodeAdded { monitor_name: m, desktop_name: d, node_id: n, class_name: c, context }
                    && m@ == monitor_name@ && d@ == desktop_name@ && n@ == node_id@
                    && opt_string_view(c) == opt_string_view(class_name) && context == listener_context(),
            },
    {
        let context = EventContext { initiator: Initiator::Direct, silent: true };
        match ev {
            BspwmEvent::MonitorFocus { .. } => SystemEvent::WmMonitorFocused { monitor_name, context },
            BspwmEvent::DesktopFocus { .. } => SystemEvent::WmDesktopFocused { monitor_name, desktop_name, context },
            BspwmEvent::NodeFocus { node_id, .. } => SystemEvent::WmNodeFocused {
                monitor_name,
                desktop_name,
                node_id: node_id.clone(),
                class_name,
                context,
            },
            BspwmEvent::NodeAdd { node_id, .. } => SystemEvent::WmNodeAdded {
                monitor_name,
                desktop_name,
                node_id: node_id.clone(),
                class_name,
                context,
            },
        }
    }

    /// The window class that `xprop` printed, if any.
    pub fn window_class_of(stdout: &str) -> (r: Option<String>)
        ensures
            opt_string_view(r) == spec_window_class(stdout@),
    {
        let ghost s = stdout@;
        let n = stdout.unicode_len();
        let mut p: usize = 0;
        while p < n && stdout.get_char(p) != '='
            invariant
                s == stdout@,
                n == s.len(),
                p <= n,
                first_index(s, '=', 0) == first_index(s, '=', p as int),
            decreases n - p,
        {
            p = p + 1;
        }
        if p == n {
            return None;
        }
        let val = stdout.substring_char(p + 1, n);
        let ghost v = val@;
        let m = val.unicode_len();
        let mut k: usize = m;
        while k > 0 && val.get_char(k - 1) != ','
            invariant
                v == val@,
                m == v.len(),
                k <= m,
                last_index(v, ',', m as int) == last_index(v, ',', k as int),
            decreases k,
        {
            k = k - 1;
        }
        assert(last_index(v, ',', m as int) == k - 1);
        let part = val.substring_char(k, m);
        let trimmed = trim_str(part);
        let clean = remove_quotes(trimmed.as_str());
        if clean.unicode_len() > 0 {
            Some(clean)
        } else {
            None
        }
    }
}

} // verus!
