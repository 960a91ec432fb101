//! The debug HUD's application state. The widget tree itself is drawn by
//! the immediate-mode GUI outside the library; the library's part is only
//! this (stateless) handle.

use vstd::prelude::*;

verus! {

pub struct GuiApp {}

impl GuiApp {
    pub fn new() -> (r: Self)
        ensures
            r == (GuiApp {  }),
    {
        Self {  }
    }
}

} // verus!
