use vstd::prelude::*;

verus! {

/// What a node's own controls ask for: to make a node the active one, or to clear it.
#[derive(Clone, Copy, PartialEq, Eq, Structural, Debug)]
pub enum MyResponse {
    SetActiveNode(usize),
    ClearActiveNode,
}

/// The editor's own state: the node whose value is shown, if any.
#[derive(Clone, Copy, PartialEq, Eq, Structural, Debug)]
pub struct MyGraphState {
    pub active_node: Option<usize>,
}

impl MyGraphState {
    /// No node is active.
    pub fn new() -> (r: MyGraphState)
        ensures
            r.active_node is None,
    {
        MyGraphState { active_node: None }
    }

    pub fn is_active(&self, node: usize) -> (r: bool)
        ensures
            r == (self.active_node == Some(node)),
    {
        match self.active_node {
            Some(n) => n == node,
            None => false,
        }
    }

    /// The response of pressing the button of `node`: an inactive node becomes the
    /// active one, and pressing the active one clears it.
    pub fn button_response(&self, node: usize) -> (r: MyResponse)
        ensures
            self.active_node == Some(node) ==> r == MyResponse::ClearActiveNode,
            self.active_node != Some(node) ==> r == MyResponse::SetActiveNode(node),
    {
        if self.is_active(node) {
            MyResponse::ClearActiveNode
        } else {
            MyResponse::SetActiveNode(node)
        }
    }

    pub fn apply(&mut self, response: MyResponse)
        ensures
            response matches MyResponse::SetActiveNode(n) ==> final(self).active_node == Some(n),
            response is ClearActiveNode ==> final(self).active_node is None,
    {
        match response {
            MyResponse::SetActiveNode(n) => self.active_node = Some(n),
            MyResponse::ClearActiveNode => self.active_node = None,
        }
    }

    /// Forgets the active node where the graph no longer has it.
    pub fn forget_missing(&mut self, node_count: usize)
        ensures
            final(self).active_node == (if old(self).active_node matches Some(n) && n >= node_count {
                None
            } else {
                old(self).active_node
            }),
    {
        if let Some(n) = self.active_node {
            if n >= node_count {
                self.active_node = None;
            }
        }
    }
}

} // verus!
