//! Window helpers: when layout is held back during loading, and which
//! elements a window exposes by name.

use vstd::prelude::*;

verus! {

/// How long parsing the body may hold layout back, in milliseconds.
pub const INITIAL_REFLOW_DELAY_MS: u64 = 200;

/// During loading and parsing, layouts are suppressed so that incomplete page
/// contents do not flash. Times are in milliseconds.
#[derive(Clone, Copy, Debug, PartialEq, Eq, Structural)]
pub enum LayoutBlocker {
    /// No load event yet, and parsing of the body has not started.
    WaitingForParse,
    /// The body is being parsed, since the given time.
    Parsing(u64),
    /// The load event fired, or parsing took so long that layout goes ahead
    /// anyway. A window stays in this state.
    FiredLoadEventOrParsingTimerExpired,
}

impl LayoutBlocker {
    pub open spec fn blocked(self) -> bool {
        !(self is FiredLoadEventOrParsingTimerExpired)
    }

    /// Whether layout is held back.
    pub fn layout_blocked(&self) -> (r: bool)
        ensures
            r == self.blocked(),
    {
        !matches!(self, LayoutBlocker::FiredLoadEventOrParsingTimerExpired)
    }

    /// Whether the body has been parsed for longer than the initial reflow
    /// delay at time `now`.
    pub fn reflow_timer_expired(&self, now: u64) -> (r: bool)
        ensures
            r == match *self {
                LayoutBlocker::Parsing(start) => start + INITIAL_REFLOW_DELAY_MS < now,
                _ => false,
            },
    {
        match *self {
            LayoutBlocker::Parsing(start) => now >= INITIAL_REFLOW_DELAY_MS && start < now
                - INITIAL_REFLOW_DELAY_MS,
            _ => false,
        }
    }

    /// Starts the parsing timer at `now`, unless parsing has started already
    /// or the load event fired.
    pub fn prevent_layout_until_load_event(&mut self, now: u64)
        ensures
            *final(self) == match *old(self) {
                LayoutBlocker::WaitingForParse => LayoutBlocker::Parsing(now),
                other => other,
            },
    {
        if let LayoutBlocker::WaitingForParse = *self {
            *self = LayoutBlocker::Parsing(now);
        }
    }

    /// Lets layout go ahead from now on. Returns whether this changed
    /// anything, in which case the rendering is to be updated at once.
    pub fn allow_layout_if_necessary(&mut self) -> (changed: bool)
        ensures
            *final(self) == LayoutBlocker::FiredLoadEventOrParsingTimerExpired,
            changed == old(self).blocked(),
    {
        if let LayoutBlocker::FiredLoadEventOrParsingTimerExpired = *self {
            return false;
        }
        *self = LayoutBlocker::FiredLoadEventOrParsingTimerExpired;
        true
    }

    /// Lets layout go ahead once the parsing timer has run out at `now`.
    /// Returns whether it did.
    pub fn reflow_if_reflow_timer_expired(&mut self, now: u64) -> (changed: bool)
        ensures
            changed == old(self).reflow_timer_expired_spec(now),
            *final(self) == if changed {
                LayoutBlocker::FiredLoadEventOrParsingTimerExpired
            } else {
                *old(self)
            },
    {
        if !self.reflow_timer_expired(now) {
            return false;
        }
        self.allow_layout_if_necessary()
    }

    pub open spec fn reflow_timer_expired_spec(self, now: u64) -> bool {
        match self {
            LayoutBlocker::Parsing(start) => start + INITIAL_REFLOW_DELAY_MS < now,
            _ => false,
        }
    }
}

/// The kinds of HTML element that matter for named access on a window.
#[derive(Clone, Copy, Debug, PartialEq, Eq, Structural)]
pub enum HtmlElementKind {
    Embed,
    Form,
    Image,
    Object,
    /// Any other HTML element.
    Other,
}

/// An element, by namespace and, for HTML, by kind.
#[derive(Clone, Copy, Debug, PartialEq, Eq, Structural)]
pub enum ElementKind {
    Html(HtmlElementKind),
    /// An element of another namespace, such as SVG or MathML.
    Foreign,
}

/// Whether a window exposes `elem` under its `name` attribute: embed, form,
/// img and object elements.
pub fn is_named_element_with_name_attribute(elem: &ElementKind) -> (r: bool)
    ensures
        r == match *elem {
            ElementKind::Html(kind) => !(kind is Other),
            ElementKind::Foreign => false,
        },
{
    let kind = match *elem {
        ElementKind::Html(kind) => kind,
        ElementKind::Foreign => return false,
    };
    matches!(
        kind,
        HtmlElementKind::Embed | HtmlElementKind::Form | HtmlElementKind::Image
            | HtmlElementKind::Object
    )
}

/// Whether a window exposes `elem` under its `id` attribute: any HTML element.
pub fn is_named_element_with_id_attribute(elem: &ElementKind) -> (r: bool)
    ensures
        r == (*elem is Html),
{
    matches!(elem, ElementKind::Html(_))
}

} // verus!
