//! What the arrow keys do on the Positions tab, from key to table.
use vstd::prelude::*;
use crate::action::Action;
use crate::app::{App, Effect};
use crate::input::{spec_positions_post, spec_positions_scroll_post};
use crate::input_tabs::spec_positions_key_action;
use crate::input_views::ViewData;
use crate::keys::KeyCode;

verus! {

/// On the Positions tab, Down selects the next row and Up the previous one: the action
/// each key maps to moves the selection one row further or one row back (within the
/// rows shown), and touches nothing else of the state.
pub proof fn law_positions_arrows_move_selection(a: &App, b: &App, d: &ViewData, e0: Seq<Effect>, e1: Seq<Effect>)
    ensures
        spec_positions_key_action(KeyCode::Down) is Some,
        spec_positions_key_action(KeyCode::Up) is Some,
        a.positions_table@.selected + 1 < d.positions_len && spec_positions_post(
            a,
            b,
            spec_positions_key_action(KeyCode::Down)->0,
            d,
            e0,
            e1,
        ) ==> b.positions_table@.selected == a.positions_table@.selected + 1 && e1 == e0
            && *b == (App { positions_table: b.positions_table, ..*a }),
        a.positions_table@.selected > 0 && spec_positions_post(a, b, spec_positions_key_action(KeyCode::Up)->0, d, e0, e1)
            ==> b.positions_table@.selected == a.positions_table@.selected - 1 && e1 == e0
            && *b == (App { positions_table: b.positions_table, ..*a }),
{
    reveal(spec_positions_scroll_post);
}

} // verus!
