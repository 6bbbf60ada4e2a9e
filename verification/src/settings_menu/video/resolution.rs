use crate::settings::{
    resolution_list, resolutions, FullScreen, Resolution, WindowMode, RESOLUTION_COUNT,
};
use crate::settings_menu::{Back, GameState, MenuState, SettingsMenuState};
use vstd::prelude::*;

verus! {

/// Marks the resolution page.
pub struct ResolutionMenu;

/// The "back" button of the resolution page leads to the video page.
pub fn back_clicked() -> (r: GameState)
    ensures
        r == GameState::Menu(MenuState::Settings(SettingsMenuState::Video)),
{
    GameState::Menu(MenuState::Settings(SettingsMenuState::Video))
}

/// Where `res` first occurs in `list` at or after `from`, or `None`.
pub open spec fn first_index_from(list: Seq<Resolution>, res: Resolution, from: int) -> Option<int>
    decreases list.len() - from,
{
    if from < 0 || from >= list.len() {
        None
    } else if list[from] == res {
        Some(from)
    } else {
        first_index_from(list, res, from + 1)
    }
}

/// A found place lies inside the searched part of the list.
pub proof fn lemma_first_index_in_range(list: Seq<Resolution>, res: Resolution, from: int)
    ensures
        first_index_from(list, res, from) matches Some(i) ==> from <= i < list.len() && list[i] == res,
    decreases list.len() - from,
{
    if from < 0 || from >= list.len() {
    } else if list[from] == res {
    } else {
        lemma_first_index_in_range(list, res, from + 1);
    }
}

/// The index from which the next resolution is picked: where the current
/// resolution stands in the list, or else the index remembered from the last
/// click.
pub open spec fn current_index(res: Resolution, remembered: usize) -> int {
    match first_index_from(resolution_list(), res, 0) {
        Some(i) => i,
        None => remembered as int,
    }
}

/// Where `res` first occurs in the list of resolutions.
fn position_of(list: &[Resolution; 16], res: &Resolution) -> (r: Option<usize>)
    requires
        list@ == resolution_list(),
    ensures
        match first_index_from(resolution_list(), *res, 0) {
            Some(i) => r == Some(i as usize),
            None => r is None,
        },
{
    let mut i: usize = 0;
    while i < RESOLUTION_COUNT
        invariant
            0 <= i <= RESOLUTION_COUNT,
            list@ == resolution_list(),
            first_index_from(resolution_list(), *res, 0) == first_index_from(
                resolution_list(),
                *res,
                i as int,
            ),
        decreases RESOLUTION_COUNT - i,
    {
        let r = list[i];
        if r.width == res.width && r.height == res.height {
            return Some(i);
        }
        i = i + 1;
    }
    None
}

/// Switches to the next resolution of the list (after the last comes the
/// first); `resolution_index` remembers where the list was left.
pub fn fullscreen_resolution_clicked(resolution_index: &mut usize, resolution: &mut Resolution)
    requires
        first_index_from(resolution_list(), *old(resolution), 0) is None ==> *old(
            resolution_index,
        ) < usize::MAX,
    ensures
        *final(resolution_index) == (current_index(*old(resolution), *old(resolution_index)) + 1)
            % RESOLUTION_COUNT as int,
        *final(resolution) == resolution_list()[*final(resolution_index) as int],
{
    let list = resolutions();
    proof {
        lemma_first_index_in_range(resolution_list(), *resolution, 0);
    }
    let index = match position_of(&list, resolution) {
        Some(i) => i,
        None => *resolution_index,
    };
    *resolution_index = (index + 1) % RESOLUTION_COUNT;
    *resolution = list[*resolution_index];
}

/// Switches full screen on or off.
pub fn fullscreen_clicked(fullscreen: &mut FullScreen)
    ensures
        final(fullscreen).0 == !old(fullscreen).0,
{
    fullscreen.0 = !fullscreen.0;
}

/// What applying the resolution menu's changes does: the window's new mode
/// and size, and the `Back` event that then leaves the page.
pub fn apply_clicked(fullscreen: &FullScreen, resolution: &Resolution) -> (r: (
    WindowMode,
    Resolution,
    Back,
))
    ensures
        r.0 == (if fullscreen.0 {
            WindowMode::Fullscreen
        } else {
            WindowMode::Windowed
        }),
        r.1 == *resolution,
        r.2 == Back,
{
    (fullscreen.as_window_mode(), *resolution, Back)
}

/// Each offered resolution is found at its own place in the list, so clicking
/// from it picks the one after it, and sixteen clicks in a row come back to it.
pub proof fn law_resolution_cycle(i: int, remembered: usize)
    requires
        0 <= i < RESOLUTION_COUNT,
    ensures
        current_index(resolution_list()[i], remembered) == i,
        resolution_list()[(current_index(resolution_list()[i], remembered) + 1) % 16] == resolution_list()[(i
            + 1) % 16],
{
    reveal_with_fuel(first_index_from, 17);
    let l = resolution_list();
    assert(first_index_from(l, l[i], 0) == Some(i));
}

/// Whatever the resolution was, a click leaves one of the offered ones.
pub proof fn law_resolution_click_offered(res: Resolution, remembered: usize)
    requires
        remembered < usize::MAX,
    ensures
        0 <= (current_index(res, remembered) + 1) % (RESOLUTION_COUNT as int) < RESOLUTION_COUNT,
{
    lemma_first_index_in_range(resolution_list(), res, 0);
}

} // verus!
