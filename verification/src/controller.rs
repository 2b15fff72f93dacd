//! Supervision of the controllers' loops.
//!
//! One loop runs per kind.  A loop deals with failed reconciles itself and
//! is not meant to end: when one does, for whatever reason, the supervisor
//! gives up on the others as well, so that the whole process is restarted
//! rather than left to run with one kind unattended.

use crate::error::{ApiFailure, ApiFailureView};
use vstd::prelude::*;

verus! {

/// The kinds whose loops are supervised.
#[derive(Clone, Copy, Debug, PartialEq, Eq, Structural)]
pub enum ControllerKind {
    QuakeServer,
    ListServer,
}

/// How a loop came to its end.
#[derive(Debug, PartialEq, Eq)]
pub enum LoopExit {
    /// Its stream of changes ran dry.
    Completed,
    /// It gave up on a failure of the cluster API.
    Failed(ApiFailure),
}

pub enum LoopExitView {
    Completed,
    Failed(ApiFailureView),
}

impl View for LoopExit {
    type V = LoopExitView;

    open spec fn view(&self) -> LoopExitView {
        match self {
            LoopExit::Completed => LoopExitView::Completed,
            LoopExit::Failed(f) => LoopExitView::Failed(f@),
        }
    }
}

/// The supervisor's verdict on the end of a loop: always fatal.
#[derive(Debug, PartialEq, Eq)]
pub struct Shutdown {
    /// The loop that ended.
    pub ended: ControllerKind,
    /// How it ended.
    pub exit: LoopExit,
    /// The loops that were still running and are given up.
    pub abandoned: Vec<ControllerKind>,
}

/// The loops that the supervisor starts, in this order.
pub fn controllers() -> (kinds: Vec<ControllerKind>)
    ensures
        kinds@ == seq![ControllerKind::QuakeServer, ControllerKind::ListServer],
{
    let mut kinds: Vec<ControllerKind> = Vec::new();
    kinds.push(ControllerKind::QuakeServer);
    kinds.push(ControllerKind::ListServer);
    assert(kinds@ =~= seq![ControllerKind::QuakeServer, ControllerKind::ListServer]);
    kinds
}

/// Reacts to the end of the loop `ended` while the loops `running` were
/// under supervision: however it ended, every other loop is given up and the
/// end is reported.
pub fn run(running: &Vec<ControllerKind>, ended: ControllerKind, exit: LoopExit) -> (shutdown: Shutdown)
    ensures
        shutdown.ended == ended,
        shutdown.exit == exit,
        shutdown.abandoned@ == running@.filter(|kind: ControllerKind| kind != ended),
{
    let ghost others = |kind: ControllerKind| kind != ended;
    let mut abandoned: Vec<ControllerKind> = Vec::new();
    let mut i: usize = 0;
    proof {
        reveal(Seq::filter);
        assert(running@.take(0) =~= Seq::empty());
    }
    while i < running.len()
        invariant
            i <= running.len(),
            others == |kind: ControllerKind| kind != ended,
            abandoned@ == running@.take(i as int).filter(others),
        decreases running.len() - i,
    {
        proof {
            reveal(Seq::filter);
            assert(running@.take(i + 1).drop_last() =~= running@.take(i as int));
        }
        if running[i] != ended {
            abandoned.push(running[i]);
        }
        i += 1;
    }
    assert(running@.take(i as int) =~= running@);
    Shutdown { ended, exit, abandoned }
}

} // verus!
