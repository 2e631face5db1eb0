//! The build-panel selection of the city-builder variant: which panel entry
//! is active, and the style each panel button takes. A press on a button
//! whose tile kind is missing from the panel list is an inconsistency; it is
//! reported and leaves the selection unchanged rather than aborting.

use crate::tiles::Tile;
use vstd::prelude::*;

verus! {

/// Why a panel selection was rejected.
#[derive(Clone, Copy, Debug, PartialEq, Eq, Structural)]
pub enum SelectionError {
    /// The pressed button's tile kind does not appear in the panel list.
    KindNotInPanel,
}

/// The visual emphasis of a panel button.
#[derive(Clone, Copy, Debug, PartialEq, Eq, Structural)]
pub enum ButtonStyle {
    /// The enlarged, tinted style of the chosen button.
    Selected,
    /// The style of every other button.
    Idle,
}

/// Does the panel list hold this tile kind anywhere?
pub open spec fn panel_has_kind(panel: Seq<Tile>, kind: Tile) -> bool {
    exists|i: int| 0 <= i < panel.len() && panel[i] == kind
}

/// Is `index` the first position of this tile kind in the panel list?
pub open spec fn is_first_index_of(panel: Seq<Tile>, kind: Tile, index: int) -> bool {
    &&& 0 <= index < panel.len()
    &&& panel[index] == kind
    &&& forall|j: int| 0 <= j < index ==> panel[j] != kind
}

/// Stores the position of the pressed button's tile kind within the panel
/// list as the selected index. When the kind is missing from the list, the
/// selection stays as it was and the inconsistency is reported.
pub fn select_panel_tile(panel: &Vec<Tile>, selected: &mut usize, pressed: &Tile) -> (result:
    Result<(), SelectionError>)
    ensures
        panel_has_kind(panel@, *pressed) ==> result == Result::<(), SelectionError>::Ok(())
            && is_first_index_of(panel@, *pressed, *final(selected) as int),
        !panel_has_kind(panel@, *pressed) ==> result == Result::<(), SelectionError>::Err(
            SelectionError::KindNotInPanel,
        ) && *final(selected) == *old(selected),
{
    let panel_len = panel.len();
    let mut i: usize = 0;
    while i < panel_len
        invariant
            i <= panel_len,
            panel_len == panel@.len(),
            *selected == *old(selected),
            forall|j: int| 0 <= j < i ==> panel@[j] != *pressed,
        decreases panel_len - i,
    {
        if panel[i] == *pressed {
            *selected = i;
            return Ok(());
        }
        i = i + 1;
    }
    Err(SelectionError::KindNotInPanel)
}

/// The style a panel button takes: the selected style exactly when it is the
/// pressed one.
pub fn tile_button_style(pressed: bool) -> (style: ButtonStyle)
    ensures
        style == (if pressed {
            ButtonStyle::Selected
        } else {
            ButtonStyle::Idle
        }),
{
    if pressed {
        ButtonStyle::Selected
    } else {
        ButtonStyle::Idle
    }
}

} // verus!
