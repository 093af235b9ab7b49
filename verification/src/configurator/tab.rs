//! Tabs of the configuration editor.
use vstd::prelude::*;

verus! {

/// A tab of the configuration editor.
#[derive(Debug, Clone, Copy, PartialEq, Eq, Structural)]
pub enum TabId {
    Drawing,
    Arrow,
    Performance,
    Ui,
    Board,
    Capture,
    Keybindings,
}

/// The title shown on a tab.
pub open spec fn tab_title(t: TabId) -> Seq<char> {
    match t {
        TabId::Drawing => "Drawing"@,
        TabId::Arrow => "Arrow"@,
        TabId::Performance => "Performance"@,
        TabId::Ui => "UI"@,
        TabId::Board => "Board"@,
        TabId::Capture => "Capture"@,
        TabId::Keybindings => "Keybindings"@,
    }
}

impl TabId {
    /// Every tab, in display order.
    pub const ALL: [TabId; 7] = [
        TabId::Drawing,
        TabId::Arrow,
        TabId::Performance,
        TabId::Ui,
        TabId::Board,
        TabId::Capture,
        TabId::Keybindings,
    ];

    /// The title shown on the tab.
    pub fn title(&self) -> (s: &'static str)
        ensures
            s@ == tab_title(*self),
    {
        match self {
            TabId::Drawing => "Drawing",
            TabId::Arrow => "Arrow",
            TabId::Performance => "Performance",
            TabId::Ui => "UI",
            TabId::Board => "Board",
            TabId::Capture => "Capture",
            TabId::Keybindings => "Keybindings",
        }
    }
}

} // verus!
