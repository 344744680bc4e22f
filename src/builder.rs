//! Turning a decoded request into the notification that shows it.
use vstd::prelude::*;

use crate::dispatch::show_action;
use crate::request::{opt_view, NotificationRequest, RequestView};

verus! {

#[verifier::external_type_specification]
#[verifier::external_body]
pub struct ExNotification(notify_rust::Notification);

/// The `summary` field of a notification.
pub uninterp spec fn summary_of(n: notify_rust::Notification) -> Seq<char>;

/// The `body` field of a notification.
pub uninterp spec fn body_of(n: notify_rust::Notification) -> Seq<char>;

/// The `appname` field of a notification.
pub uninterp spec fn appname_of(n: notify_rust::Notification) -> Seq<char>;

/// The `icon` field of a notification.
pub uninterp spec fn icon_of(n: notify_rust::Notification) -> Seq<char>;

/// The `actions` field of a notification: identifier and label, in turn, for
/// each action.
pub uninterp spec fn actions_of(n: notify_rust::Notification) -> Seq<Seq<char>>;

/// The label shown on the action that opens a request's link.
pub open spec fn open_link_label() -> Seq<char> {
    seq!['O', 'p', 'e', 'n', ' ', 'l', 'i', 'n', 'k']
}

/// One interactive action of a notification.
#[derive(Debug, Clone, PartialEq, Eq)]
pub struct ActionEntry {
    pub identifier: String,
    pub label: String,
}

/// What a notification is created with. A field left `None` is not set.
#[derive(Debug, Clone, PartialEq, Eq)]
pub struct Descriptor {
    pub summary: String,
    pub body: Option<String>,
    pub appname: Option<String>,
    pub icon: Option<String>,
    pub actions: Vec<ActionEntry>,
}

pub struct DescriptorView {
    pub summary: Seq<char>,
    pub body: Option<Seq<char>>,
    pub appname: Option<Seq<char>>,
    pub icon: Option<Seq<char>>,
    pub actions: Seq<(Seq<char>, Seq<char>)>,
}

impl View for ActionEntry {
    type V = (Seq<char>, Seq<char>);

    open spec fn view(&self) -> (Seq<char>, Seq<char>) {
        (self.identifier@, self.label@)
    }
}

impl View for Descriptor {
    type V = DescriptorView;

    open spec fn view(&self) -> DescriptorView {
        DescriptorView {
            summary: self.summary@,
            body: opt_view(self.body),
            appname: opt_view(self.appname),
            icon: opt_view(self.icon),
            actions: self.actions@.map_values(|a: ActionEntry| a@),
        }
    }
}

/// The descriptor of a request: its summary, body, application name and icon
/// as given, and one `"show"` action exactly where it carries a link.
pub open spec fn descriptor_of(req: RequestView) -> DescriptorView {
    DescriptorView {
        summary: req.summary,
        body: req.body,
        appname: req.appname,
        icon: req.icon,
        actions: if req.link is Some {
            seq![(show_action(), open_link_label())]
        } else {
            seq![]
        },
    }
}

/// The flat list of identifiers and labels that a notification keeps for
/// `actions`.
pub open spec fn flat_actions(actions: Seq<(Seq<char>, Seq<char>)>) -> Seq<Seq<char>>
    decreases actions.len(),
{
    if actions.len() == 0 {
        seq![]
    } else {
        flat_actions(actions.drop_last()).push(actions.last().0).push(actions.last().1)
    }
}

/// What a notification shows of a field that may be left out: an unset text
/// field stays empty.
pub open spec fn text_or_empty(o: Option<Seq<char>>) -> Seq<char> {
    match o {
        Some(t) => t,
        None => seq![],
    }
}

/// Whether `n` carries what `d` describes.
pub open spec fn shows(n: notify_rust::Notification, d: DescriptorView) -> bool {
    &&& summary_of(n) == d.summary
    &&& body_of(n) == text_or_empty(d.body)
    &&& icon_of(n) == text_or_empty(d.icon)
    &&& (d.appname matches Some(a) ==> appname_of(n) == a)
    &&& actions_of(n) == flat_actions(d.actions)
}

/// Relies on the public `actions` field of `Notification`, a `Vec<String>`:
/// clearing it removes every action and touches no other field.
#[verifier::external_body]
fn clear_actions(n: &mut notify_rust::Notification)
    ensures
        summary_of(*final(n)) == summary_of(*old(n)),
        body_of(*final(n)) == body_of(*old(n)),
        appname_of(*final(n)) == appname_of(*old(n)),
        icon_of(*final(n)) == icon_of(*old(n)),
        actions_of(*final(n)) == Seq::<Seq<char>>::empty(),
{
    n.actions.clear();
}

/// Relies on `Notification::summary`: it replaces the summary alone.
#[verifier::external_body]
fn set_summary(n: &mut notify_rust::Notification, summary: &str)
    ensures
        summary_of(*final(n)) == summary@,
        body_of(*final(n)) == body_of(*old(n)),
        appname_of(*final(n)) == appname_of(*old(n)),
        icon_of(*final(n)) == icon_of(*old(n)),
        actions_of(*final(n)) == actions_of(*old(n)),
{
    n.summary(summary);
}

/// Relies on `Notification::body`: it replaces the body alone.
#[verifier::external_body]
fn set_body(n: &mut notify_rust::Notification, body: &str)
    ensures
        summary_of(*final(n)) == summary_of(*old(n)),
        body_of(*final(n)) == body@,
        appname_of(*final(n)) == appname_of(*old(n)),
        icon_of(*final(n)) == icon_of(*old(n)),
        actions_of(*final(n)) == actions_of(*old(n)),
{
    n.body(body);
}

/// Relies on `Notification::appname`: it replaces the application name alone.
#[verifier::external_body]
fn set_appname(n: &mut notify_rust::Notification, appname: &str)
    ensures
        summary_of(*final(n)) == summary_of(*old(n)),
        body_of(*final(n)) == body_of(*old(n)),
        appname_of(*final(n)) == appname@,
        icon_of(*final(n)) == icon_of(*old(n)),
        actions_of(*final(n)) == actions_of(*old(n)),
{
    n.appname(appname);
}

/// Relies on `Notification::icon`: it replaces the icon alone.
#[verifier::external_body]
fn set_icon(n: &mut notify_rust::Notification, icon: &str)
    ensures
        summary_of(*final(n)) == summary_of(*old(n)),
        body_of(*final(n)) == body_of(*old(n)),
        appname_of(*final(n)) == appname_of(*old(n)),
        icon_of(*final(n)) == icon@,
        actions_of(*final(n)) == actions_of(*old(n)),
{
    n.icon(icon);
}

/// Relies on `Notification::action`: it appends the identifier, then the label,
/// to the list of actions.
#[verifier::external_body]
fn add_action(n: &mut notify_rust::Notification, identifier: &str, label: &str)
    ensures
        summary_of(*final(n)) == summary_of(*old(n)),
        body_of(*final(n)) == body_of(*old(n)),
        appname_of(*final(n)) == appname_of(*old(n)),
        icon_of(*final(n)) == icon_of(*old(n)),
        actions_of(*final(n)) == actions_of(*old(n)).push(identifier@).push(label@),
{
    n.action(identifier, label);
}

fn copy_text(o: &Option<String>) -> (r: Option<String>)
    ensures
        opt_view(r) == opt_view(*o),
{
    match o {
        Some(s) => Some(s.clone()),
        None => None,
    }
}

/// The Builder: what a notification for `req` is created with.
pub fn build_descriptor(req: &NotificationRequest) -> (d: Descriptor)
    ensures
        d@ == descriptor_of(req@),
{
    let mut actions: Vec<ActionEntry> = Vec::new();
    if req.link.is_some() {
        let entry = ActionEntry { identifier: "show".to_owned(), label: "Open link".to_owned() };
        proof {
            reveal_strlit("show");
            reveal_strlit("Open link");
            assert(entry.identifier@ =~= show_action());
            assert(entry.label@ =~= open_link_label());
        }
        actions.push(entry);
    }
    let d = Descriptor {
        summary: req.summary.clone(),
        body: copy_text(&req.body),
        appname: copy_text(&req.appname),
        icon: copy_text(&req.icon),
        actions,
    };
    assert(d@.actions =~= descriptor_of(req@).actions);
    d
}

/// Sets up `n` as `d` describes, ready to be shown: summary, body and icon as
/// given (an unset body or icon is left empty), the application name where it
/// is given, and exactly the actions of `d`, in order.
pub fn to_notification(n: &mut notify_rust::Notification, d: &Descriptor)
    ensures
        shows(*final(n), d@),
{
    proof {
        reveal_strlit("");
        assert(""@ =~= Seq::<char>::empty());
    }
    set_summary(n, d.summary.as_str());
    match &d.body {
        Some(b) => set_body(n, b.as_str()),
        None => set_body(n, ""),
    }
    match &d.appname {
        Some(a) => set_appname(n, a.as_str()),
        None => {},
    }
    match &d.icon {
        Some(i) => set_icon(n, i.as_str()),
        None => set_icon(n, ""),
    }
    clear_actions(n);
    assert(d@.actions.take(0) =~= Seq::<(Seq<char>, Seq<char>)>::empty());
    let mut k: usize = 0;
    while k < d.actions.len()
        invariant
            k <= d.actions@.len(),
            summary_of(*n) == d.summary@,
            body_of(*n) == text_or_empty(opt_view(d.body)),
            icon_of(*n) == text_or_empty(opt_view(d.icon)),
            (d.appname matches Some(a) ==> appname_of(*n) == a@),
            actions_of(*n) == flat_actions(d@.actions.take(k as int)),
        decreases d.actions@.len() - k,
    {
        let a = &d.actions[k];
        add_action(n, a.identifier.as_str(), a.label.as_str());
        proof {
            assert(d@.actions.take(k + 1).drop_last() =~= d@.actions.take(k as int));
        }
        k = k + 1;
    }
    assert(d@.actions.take(k as int) =~= d@.actions);
}

/// Sets up `n` as the notification for `req`, and hands back the link that a
/// `"show"` action on it is to open.
pub fn build_notification(n: &mut notify_rust::Notification, req: &NotificationRequest) -> (link:
    Option<String>)
    ensures
        shows(*final(n), descriptor_of(req@)),
        opt_view(link) == req@.link,
{
    let d = build_descriptor(req);
    to_notification(n, &d);
    copy_text(&req.link)
}

} // verus!
