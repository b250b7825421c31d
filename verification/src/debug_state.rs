//! A description of the widget tree for inspection.

use vstd::prelude::*;

verus! {

/// A description of a widget and of the widgets below it.
pub struct DebugState {
    /// The name under which the widget goes.
    pub display_name: String,
    /// The descriptions of the widget's children.
    pub children: Vec<DebugState>,
}

impl DebugState {
    /// The description of a widget without children.
    pub fn leaf(display_name: &str) -> (state: DebugState)
        ensures
            state.display_name@ == display_name@,
            state.children@.len() == 0,
    {
        DebugState { display_name: display_name.to_owned(), children: Vec::new() }
    }

    /// The description of a widget with one child.
    pub fn parent(display_name: &str, child: DebugState) -> (state: DebugState)
        ensures
            state.display_name@ == display_name@,
            state.children@ == seq![child],
    {
        let mut children = Vec::new();
        children.push(child);
        DebugState { display_name: display_name.to_owned(), children }
    }
}

} // verus!
