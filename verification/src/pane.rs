//! Pane identities and the fixed adjacency table the router resolves
//! relative motion against: the request list on the left, then the
//! request editor, then the response viewer. The two pickers are modal
//! overlays and do not take part in relative motion.

use vstd::prelude::*;

use crate::keys::Movement;

verus! {

/// Which of the two right-hand panes is meant.
#[derive(Debug, Copy, Clone, PartialEq, Eq, Structural)]
pub enum RightStatePane {
    Request,
    Response,
}

/// One non-modal focus region.
#[derive(Debug, Copy, Clone, PartialEq, Eq, Structural)]
pub enum PaneType {
    RequestList,
    Right(RightStatePane),
}

/// The fixed adjacency: `RequestList` is left of the request editor,
/// which is left of the response viewer; no other neighbors exist.
pub open spec fn spec_relative_pane(p: PaneType, dir: Movement) -> Option<PaneType> {
    match p {
        PaneType::RequestList => match dir {
            Movement::Right => Some(PaneType::Right(RightStatePane::Request)),
            _ => None,
        },
        PaneType::Right(RightStatePane::Request) => match dir {
            Movement::Left => Some(PaneType::RequestList),
            Movement::Right => Some(PaneType::Right(RightStatePane::Response)),
            _ => None,
        },
        PaneType::Right(RightStatePane::Response) => match dir {
            Movement::Left => Some(PaneType::Right(RightStatePane::Request)),
            _ => None,
        },
    }
}

/// What pane lies in direction `dir` of pane `p`, if any.
pub fn relative_pane(p: PaneType, dir: Movement) -> (r: Option<PaneType>)
    ensures
        r == spec_relative_pane(p, dir),
{
    match p {
        PaneType::RequestList => match dir {
            Movement::Right => Some(PaneType::Right(RightStatePane::Request)),
            _ => None,
        },
        PaneType::Right(RightStatePane::Request) => match dir {
            Movement::Left => Some(PaneType::RequestList),
            Movement::Right => Some(PaneType::Right(RightStatePane::Response)),
            _ => None,
        },
        PaneType::Right(RightStatePane::Response) => match dir {
            Movement::Left => Some(PaneType::Right(RightStatePane::Request)),
            _ => None,
        },
    }
}

/// Law: the pane topology is the fixed line
/// `RequestList — RequestEditor — ResponseViewer`: moving right from
/// the list reaches the editor and from there the viewer, moving left
/// from the viewer returns to the editor, and the list has no left,
/// up or down neighbor, so those keys leave the active pane unchanged.
pub proof fn lemma_adjacency_line()
    ensures
        spec_relative_pane(PaneType::RequestList, Movement::Right) == Some(
            PaneType::Right(RightStatePane::Request),
        ),
        spec_relative_pane(PaneType::Right(RightStatePane::Request), Movement::Right) == Some(
            PaneType::Right(RightStatePane::Response),
        ),
        spec_relative_pane(PaneType::Right(RightStatePane::Response), Movement::Left) == Some(
            PaneType::Right(RightStatePane::Request),
        ),
        spec_relative_pane(PaneType::Right(RightStatePane::Request), Movement::Left) == Some(
            PaneType::RequestList,
        ),
        spec_relative_pane(PaneType::RequestList, Movement::Left) is None,
        spec_relative_pane(PaneType::RequestList, Movement::Up) is None,
        spec_relative_pane(PaneType::RequestList, Movement::Down) is None,
{
}

} // verus!
