//! What a controller's loop asks of the watch/queue runtime.

use vstd::prelude::*;

verus! {

/// Which resources of its kind a loop is handed.
#[derive(Clone, Debug, PartialEq, Eq)]
pub enum WatchScope {
    /// Those of one namespace.
    Namespace(String),
    /// Those of every namespace.
    AllNamespaces,
}

pub enum WatchScopeView {
    Namespace(Seq<char>),
    AllNamespaces,
}

impl View for WatchScope {
    type V = WatchScopeView;

    open spec fn view(&self) -> WatchScopeView {
        match self {
            WatchScope::Namespace(ns) => WatchScopeView::Namespace(ns@),
            WatchScope::AllNamespaces => WatchScopeView::AllNamespaces,
        }
    }
}

impl WatchScope {
    pub open spec fn spec_of(ns: Option<Seq<char>>) -> WatchScopeView {
        match ns {
            Some(ns) => WatchScopeView::Namespace(ns),
            None => WatchScopeView::AllNamespaces,
        }
    }

    /// The scope restricted to `ns`, if there is one.
    pub fn of(ns: Option<String>) -> (scope: WatchScope)
        ensures
            scope@ == Self::spec_of(ns.deep_view()),
    {
        match ns {
            Some(ns) => WatchScope::Namespace(ns),
            None => WatchScope::AllNamespaces,
        }
    }
}

} // verus!
