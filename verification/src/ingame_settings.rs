use vstd::prelude::*;

verus! {

/// Marks the tab button of the general settings.
pub struct GeneralButton;

/// Marks the tab button of the interface settings.
pub struct InterfaceButton;

/// Marks the tab button of the video settings.
pub struct VideoButton;

/// Marks the tab button of the cursor settings.
pub struct CursorButton;

/// Marks the button that closes the settings menu.
pub struct CloseMenuButton;

/// Marks the button that saves and goes back to the title menu.
pub struct SaveAndExitButton;

/// The tab shown by the in-game settings menu.
#[derive(Clone, Copy, PartialEq, Eq, Debug, Structural)]
pub enum SelectedTab {
    General,
    Interface,
    Video,
    Cursor,
}

impl Default for SelectedTab {
    /// The general tab is shown first.
    fn default() -> (r: Self)
        ensures
            r == SelectedTab::General,
    {
        SelectedTab::General
    }
}

/// Clicking a tab's button shows that tab; whether the tab's page must be
/// built anew is returned: only when another tab was shown.
pub fn select_tab(selected: &mut SelectedTab, clicked: SelectedTab) -> (rebuild: bool)
    ensures
        *final(selected) == clicked,
        rebuild == (*old(selected) != clicked),
{
    let rebuild = match (*selected, clicked) {
        (SelectedTab::General, SelectedTab::General) => false,
        (SelectedTab::Interface, SelectedTab::Interface) => false,
        (SelectedTab::Video, SelectedTab::Video) => false,
        (SelectedTab::Cursor, SelectedTab::Cursor) => false,
        _ => true,
    };
    *selected = clicked;
    rebuild
}

} // verus!
