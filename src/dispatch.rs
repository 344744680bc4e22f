//! What a user's action on a shown notification leads to.
use vstd::prelude::*;

use crate::request::opt_view;

verus! {

/// The identifier of the one action that the relay gives a meaning to.
pub open spec fn show_action() -> Seq<char> {
    seq!['s', 'h', 'o', 'w']
}

/// The follow-up effect of one action report.
#[derive(Debug, Clone, PartialEq, Eq)]
pub enum ActionEffect {
    /// The report is acknowledged and nothing else happens.
    Acknowledge,
    /// The browser is to be launched with this link as its argument.
    OpenLink(String),
}

/// The effect of `action` on a notification whose request carried `link`:
/// `Some(url)` where a browser is to open `url`, `None` where the action is only
/// acknowledged.
pub open spec fn effect_of(action: Seq<char>, link: Option<Seq<char>>) -> Option<Seq<char>> {
    if action == show_action() {
        link
    } else {
        None
    }
}

impl ActionEffect {
    pub open spec fn view(&self) -> Option<Seq<char>> {
        match self {
            ActionEffect::Acknowledge => None,
            ActionEffect::OpenLink(u) => Some(u@),
        }
    }
}

/// Decides what the action reported as `action` leads to, for a notification
/// whose request carried `link`. Only `"show"` with a link opens it.
pub fn on_action(action: &str, link: &Option<String>) -> (r: ActionEffect)
    ensures
        r.view() == effect_of(action@, opt_view(*link)),
{
    let shown = action.to_owned();
    let show = "show".to_owned();
    proof {
        reveal_strlit("show");
        assert(show@ =~= show_action());
    }
    if shown == show {
        match link {
            Some(l) => ActionEffect::OpenLink(l.clone()),
            None => ActionEffect::Acknowledge,
        }
    } else {
        ActionEffect::Acknowledge
    }
}

/// Hands the value in `o`, if there is one, to `f`.
pub fn on_some<U, F: FnOnce(U)>(o: Option<U>, f: F)
    requires
        o matches Some(v) ==> f.requires((v,)),
    ensures
        o matches Some(v) ==> f.ensures((v,), ()),
{
    match o {
        Some(v) => f(v),
        None => {},
    }
}

} // verus!
