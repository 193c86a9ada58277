use readable_stream::window::{
    is_named_element_with_id_attribute, is_named_element_with_name_attribute, ElementKind,
    HtmlElementKind, LayoutBlocker,
};

#[test]
fn layout_blocked_until_load_or_timer() {
    let mut b = LayoutBlocker::WaitingForParse;
    assert!(b.layout_blocked());
    b.prevent_layout_until_load_event(1000);
    assert_eq!(b, LayoutBlocker::Parsing(1000));
    b.prevent_layout_until_load_event(5000);
    assert_eq!(b, LayoutBlocker::Parsing(1000));
    assert!(!b.reflow_if_reflow_timer_expired(1200));
    assert!(b.layout_blocked());
    assert!(b.reflow_if_reflow_timer_expired(1201));
    assert!(!b.layout_blocked());
    assert!(!b.allow_layout_if_necessary());
}

#[test]
fn reflow_timer_near_zero_and_max() {
    assert!(!LayoutBlocker::Parsing(0).reflow_timer_expired(200));
    assert!(LayoutBlocker::Parsing(0).reflow_timer_expired(201));
    assert!(!LayoutBlocker::Parsing(u64::MAX).reflow_timer_expired(u64::MAX));
    assert!(!LayoutBlocker::WaitingForParse.reflow_timer_expired(u64::MAX));
}

#[test]
fn load_event_allows_layout() {
    let mut b = LayoutBlocker::WaitingForParse;
    assert!(b.allow_layout_if_necessary());
    assert_eq!(b, LayoutBlocker::FiredLoadEventOrParsingTimerExpired);
    b.prevent_layout_until_load_event(10);
    assert!(!b.layout_blocked());
}

#[test]
fn named_elements() {
    for k in [HtmlElementKind::Embed, HtmlElementKind::Form, HtmlElementKind::Image, HtmlElementKind::Object] {
        assert!(is_named_element_with_name_attribute(&ElementKind::Html(k)));
        assert!(is_named_element_with_id_attribute(&ElementKind::Html(k)));
    }
    assert!(!is_named_element_with_name_attribute(&ElementKind::Html(HtmlElementKind::Other)));
    assert!(is_named_element_with_id_attribute(&ElementKind::Html(HtmlElementKind::Other)));
    assert!(!is_named_element_with_name_attribute(&ElementKind::Foreign));
    assert!(!is_named_element_with_id_attribute(&ElementKind::Foreign));
}
