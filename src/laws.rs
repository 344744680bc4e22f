//! Facts that hold of the pipeline as a whole.
use vstd::prelude::*;

use crate::builder::{actions_of, body_of, descriptor_of, icon_of, open_link_label, shows};
use crate::dispatch::{effect_of, show_action};
use crate::request::{decoded, field_key, json_member_of, json_parses, DecodeError, Field, RequestView};

verus! {

/// A request that sets only its summary is created with no body, application
/// name or icon, and no action; the notification built from it has an empty
/// body and icon and no action.
pub proof fn summary_only_sets_nothing_else(req: RequestView, n: notify_rust::Notification)
    requires
        req.body is None,
        req.appname is None,
        req.icon is None,
        req.link is None,
        shows(n, descriptor_of(req)),
    ensures
        descriptor_of(req).summary == req.summary,
        descriptor_of(req).body is None,
        descriptor_of(req).appname is None,
        descriptor_of(req).icon is None,
        descriptor_of(req).actions.len() == 0,
        body_of(n).len() == 0,
        icon_of(n).len() == 0,
        actions_of(n).len() == 0,
{
    reveal_with_fuel(crate::builder::flat_actions, 1);
}

/// A request with a link registers exactly one action, `"show"`, labelled
/// "Open link"; the notification built from it carries that one pair.
pub proof fn link_registers_show(req: RequestView, n: notify_rust::Notification)
    requires
        req.link is Some,
        shows(n, descriptor_of(req)),
    ensures
        descriptor_of(req).actions =~= seq![(show_action(), open_link_label())],
        actions_of(n) =~= seq![show_action(), open_link_label()],
{
    let acts = descriptor_of(req).actions;
    assert(acts.drop_last() =~= Seq::<(Seq<char>, Seq<char>)>::empty());
    reveal_with_fuel(crate::builder::flat_actions, 2);
}

/// A request without a link registers no action, and a `"show"` reported on
/// its notification all the same is only acknowledged.
pub proof fn no_link_no_action(req: RequestView, action: Seq<char>)
    requires
        req.link is None,
    ensures
        descriptor_of(req).actions.len() == 0,
        effect_of(action, req.link) is None,
{
}

/// Text that is not JSON is rejected as malformed.
pub proof fn malformed_is_rejected(text: Seq<char>)
    requires
        !json_parses(text),
    ensures
        decoded(text) == Err::<RequestView, DecodeError>(DecodeError::Malformed),
{
}

/// JSON without a `summary` is rejected for it.
pub proof fn missing_summary_is_rejected(text: Seq<char>)
    requires
        json_parses(text),
        json_member_of(text, field_key(Field::Summary)) is Absent,
    ensures
        decoded(text) == Err::<RequestView, DecodeError>(DecodeError::MissingSummary),
{
}

} // verus!
