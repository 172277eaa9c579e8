//! The tool bar: the names of the tools at its left and at its right end.

use vstd::prelude::*;

verus! {

/// The state of the tool bar.
#[derive(Debug)]
pub struct ToolBar {
    left_tools: Vec<String>,
    right_tools: Vec<String>,
}

/// What the tool bar holds.
pub struct ToolBarView {
    pub left_tools: Seq<String>,
    pub right_tools: Seq<String>,
}

impl View for ToolBar {
    type V = ToolBarView;

    closed spec fn view(&self) -> ToolBarView {
        ToolBarView { left_tools: self.left_tools@, right_tools: self.right_tools@ }
    }
}

impl ToolBar {
    /// The tool bar with `tools` at its left end and none at its right.
    pub fn new(tools: &[String]) -> (bar: ToolBar)
        ensures
            bar@ == (ToolBarView { left_tools: tools@, right_tools: Seq::empty() }),
    {
        let mut left_tools: Vec<String> = Vec::new();
        let mut i: usize = 0;
        while i < tools.len()
            invariant
                i <= tools.len(),
                left_tools@ == tools@.take(i as int),
            decreases tools.len() - i,
        {
            left_tools.push(tools[i].clone());
            assert(tools@.take(i as int + 1) =~= tools@.take(i as int).push(tools@[i as int]));
            i += 1;
        }
        assert(tools@.take(tools@.len() as int) =~= tools@);
        ToolBar { left_tools, right_tools: Vec::new() }
    }

    pub fn left_tools(&self) -> (tools: &Vec<String>)
        ensures
            tools@ == self@.left_tools,
    {
        &self.left_tools
    }

    pub fn right_tools(&self) -> (tools: &Vec<String>)
        ensures
            tools@ == self@.right_tools,
    {
        &self.right_tools
    }
}

} // verus!
