//! The command palette closes once a command other than palette typing or navigation
//! runs: no handler reopens it.
use vstd::prelude::*;
use crate::action::{spec_palette_input_action, Action};
use crate::app::{App, Effect};
use crate::input::{spec_apply_action, spec_dispatch, spec_palette_closed, spec_rest_post};
use crate::input_loans::spec_loan_post;
use crate::input_settings::spec_settings_post;
use crate::input_shell::spec_shell_post;
use crate::input_views::{spec_view_post, ViewData};

verus! {

proof fn lemma_settings_keeps_palette(a: &App, b: &App, action: Action, e0: Seq<Effect>, e1: Seq<Effect>)
    requires
        spec_settings_post(a, b, action, e0, e1),
    ensures
        b.command_palette == a.command_palette,
{
    reveal(crate::input_settings::spec_settings_section_post);
    reveal(crate::input_settings::spec_settings_edit_post);
}

proof fn lemma_shell_keeps_palette(a: &App, b: &App, action: Action, e0: Seq<Effect>, e1: Seq<Effect>)
    requires
        spec_shell_post(a, b, action, e0, e1),
        !spec_palette_input_action(action),
    ensures
        b.command_palette == a.command_palette,
{
}

#[verifier::spinoff_prover]
#[verifier::rlimit(100)]
proof fn lemma_loans_keep_palette(a: &App, b: &App, action: Action, e0: Seq<Effect>, e1: Seq<Effect>)
    requires
        spec_loan_post(a, b, action, e0, e1),
    ensures
        b.command_palette == a.command_palette,
{
    reveal(crate::input_loans::spec_loans_bulk_import_focus_post);
    reveal(crate::input_loans::spec_loans_import_path_char_post);
    reveal(crate::input_loans::spec_loans_import_path_backspace_post);
    reveal(crate::input_loans::spec_loans_import_path_enter_post);
    reveal(crate::input_loans::spec_loans_scroll_up_post);
    reveal(crate::input_loans::spec_loans_scroll_down_post);
    reveal(crate::input_loans::spec_loans_scroll_page_up_post);
    reveal(crate::input_loans::spec_loans_scroll_page_down_post);
    reveal(crate::input_loans::spec_discount_bank_scroll_up_post);
    reveal(crate::input_loans::spec_discount_bank_scroll_down_post);
    reveal(crate::input_loans::spec_discount_bank_scroll_page_up_post);
    reveal(crate::input_loans::spec_discount_bank_scroll_page_down_post);
    reveal(crate::input_loans::spec_discount_bank_refresh_post);
    reveal(crate::input_loans::spec_loans_new_loan_post);
    reveal(crate::input_loans::spec_loans_input_enter_post);
    reveal(crate::input_loans::spec_loans_input_nav_up_post);
    reveal(crate::input_loans::spec_loans_input_nav_down_post);
    reveal(crate::input_loans::spec_loans_input_char_post);
    reveal(crate::input_loans::spec_loans_input_backspace_post);
    reveal(crate::input_loans::spec_settings_delete_post);
    reveal(crate::input_loans::spec_settings_reset_post);
}

#[verifier::spinoff_prover]
#[verifier::rlimit(100)]
proof fn lemma_orders_keep_palette(a: &App, b: &App, action: Action, d: &ViewData, e0: Seq<Effect>, e1: Seq<Effect>)
    requires
        spec_view_post(a, b, action, d, e0, e1),
        crate::input_views::spec_is_orders_view(action),
    ensures
        b.command_palette == a.command_palette,
{
    reveal(crate::input_views::spec_orders_scroll_up_post);
    reveal(crate::input_views::spec_orders_scroll_down_post);
    reveal(crate::input_views::spec_orders_scroll_page_up_post);
    reveal(crate::input_views::spec_orders_scroll_page_down_post);
    reveal(crate::input_views::spec_orders_detail_post);
    reveal(crate::input_views::spec_orders_filter_focus_post);
    reveal(crate::input_views::spec_orders_filter_char_post);
    reveal(crate::input_views::spec_orders_filter_backspace_post);
    reveal(crate::input_views::spec_orders_filter_clear_post);
    reveal(crate::input_views::spec_orders_cancel_post);
}

#[verifier::spinoff_prover]
#[verifier::rlimit(100)]
proof fn lemma_lists_keep_palette(a: &App, b: &App, action: Action, d: &ViewData, e0: Seq<Effect>, e1: Seq<Effect>)
    requires
        spec_view_post(a, b, action, d, e0, e1),
        crate::input_views::spec_is_lists_view(action),
    ensures
        b.command_palette == a.command_palette,
{
    reveal(crate::input_views::spec_alerts_scroll_up_post);
    reveal(crate::input_views::spec_alerts_scroll_down_post);
    reveal(crate::input_views::spec_alerts_scroll_page_up_post);
    reveal(crate::input_views::spec_alerts_scroll_page_down_post);
    reveal(crate::input_views::spec_dashboard_scroll_up_post);
    reveal(crate::input_views::spec_dashboard_scroll_down_post);
    reveal(crate::input_views::spec_dashboard_navigate_to_chart_post);
    reveal(crate::input_views::spec_scenarios_scroll_up_post);
    reveal(crate::input_views::spec_scenarios_scroll_down_post);
    reveal(crate::input_views::spec_scenarios_scroll_page_up_post);
    reveal(crate::input_views::spec_scenarios_scroll_page_down_post);
    reveal(crate::input_views::spec_scenarios_detail_post);
    reveal(crate::input_views::spec_scenarios_dte_contract_post);
    reveal(crate::input_views::spec_scenarios_dte_expand_post);
    reveal(crate::input_views::spec_scenarios_cycle_strike_width_post);
}

#[verifier::spinoff_prover]
#[verifier::rlimit(100)]
proof fn lemma_search_keep_palette(a: &App, b: &App, action: Action, d: &ViewData, e0: Seq<Effect>, e1: Seq<Effect>)
    requires
        spec_view_post(a, b, action, d, e0, e1),
        crate::input_views::spec_is_chart_search(action),
    ensures
        b.command_palette == a.command_palette,
{
    reveal(crate::input_views::spec_chart_search_focus_post);
    reveal(crate::input_views::spec_chart_search_char_post);
    reveal(crate::input_views::spec_chart_search_backspace_post);
    reveal(crate::input_views::spec_chart_search_up_post);
    reveal(crate::input_views::spec_chart_search_down_post);
    reveal(crate::input_views::spec_chart_search_enter_post);
    reveal(crate::input_views::spec_chart_search_escape_post);
    reveal(crate::input_views::spec_chart_search_first_post);
    reveal(crate::input_views::spec_chart_search_last_post);
}

#[verifier::spinoff_prover]
#[verifier::rlimit(100)]
proof fn lemma_pills_keep_palette(a: &App, b: &App, action: Action, d: &ViewData, e0: Seq<Effect>, e1: Seq<Effect>)
    requires
        spec_view_post(a, b, action, d, e0, e1),
        crate::input_views::spec_is_chart_pill(action),
    ensures
        b.command_palette == a.command_palette,
{
    reveal(crate::input_views::spec_chart_pill_left_post);
    reveal(crate::input_views::spec_chart_pill_right_post);
    reveal(crate::input_views::spec_chart_pill_up_post);
    reveal(crate::input_views::spec_chart_pill_down_post);
    reveal(crate::input_views::spec_chart_pill_select_post);
}

#[verifier::spinoff_prover]
#[verifier::rlimit(100)]
proof fn lemma_logs_keep_palette(a: &App, b: &App, action: Action, d: &ViewData, e0: Seq<Effect>, e1: Seq<Effect>)
    requires
        spec_view_post(a, b, action, d, e0, e1),
        crate::input_views::spec_is_log_tree(action),
    ensures
        b.command_palette == a.command_palette,
{
    reveal(crate::input_views::spec_log_scroll_up_post);
    reveal(crate::input_views::spec_log_scroll_down_post);
    reveal(crate::input_views::spec_log_page_up_post);
    reveal(crate::input_views::spec_log_page_down_post);
    reveal(crate::input_views::spec_log_hide_post);
    reveal(crate::input_views::spec_log_escape_post);
    reveal(crate::input_views::spec_log_level_up_post);
    reveal(crate::input_views::spec_log_level_down_post);
    reveal(crate::input_views::spec_log_level_error_post);
    reveal(crate::input_views::spec_log_level_warn_post);
    reveal(crate::input_views::spec_log_level_info_post);
    reveal(crate::input_views::spec_log_level_debug_post);
    reveal(crate::input_views::spec_tree_up_post);
    reveal(crate::input_views::spec_tree_down_post);
    reveal(crate::input_views::spec_tree_left_post);
    reveal(crate::input_views::spec_tree_right_post);
    reveal(crate::input_views::spec_tree_toggle_post);
    reveal(crate::input_views::spec_tree_escape_post);
}

#[verifier::spinoff_prover]
#[verifier::rlimit(100)]
proof fn lemma_rest_keeps_palette(a: &App, b: &App, action: Action, d: &ViewData, e0: Seq<Effect>, e1: Seq<Effect>)
    requires
        spec_rest_post(a, b, action, d, e0, e1),
    ensures
        b.command_palette == a.command_palette,
{
    reveal(crate::input::spec_mouse_positions_post);
    reveal(crate::input::spec_mouse_orders_post);
    reveal(crate::input::spec_mouse_dashboard_post);
    reveal(crate::input::spec_mouse_yield_post);
    reveal(crate::input::spec_yield_refresh_post);
    reveal(crate::input::spec_yield_symbol_post);
    reveal(crate::input::spec_yield_up_post);
    reveal(crate::input::spec_yield_down_post);
    reveal(crate::input::spec_yield_detail_post);
    reveal(crate::input::spec_positions_combo_post);
    reveal(crate::input::spec_positions_sort_post);
    reveal(crate::input::spec_positions_scroll_post);
    reveal(crate::input::spec_edit_config_post);
}

/// After any action other than typing or navigating in the command palette, the
/// palette is closed.
pub proof fn law_palette_closed_after_command(a: &App, b: &App, action: Action, d: &ViewData, e0: Seq<Effect>,
    e1: Seq<Effect>)
    requires
        spec_apply_action(a, b, action, d, e0, e1),
        !spec_palette_input_action(action),
    ensures
        !b.command_palette.visible,
{
    reveal(spec_dispatch);
    let a1 = spec_palette_closed(a, action);
    assert(!a1.command_palette.visible);
    if crate::input_settings::spec_is_settings_action(&a1, action) {
        lemma_settings_keeps_palette(&a1, b, action, e0, e1);
    } else if crate::input_shell::spec_is_shell_action(action) {
        lemma_shell_keeps_palette(&a1, b, action, e0, e1);
    } else if crate::input_loans::spec_is_loan_action(&a1, action) {
        lemma_loans_keep_palette(&a1, b, action, e0, e1);
    } else if crate::input_views::spec_is_view_action(action) {
        if crate::input_views::spec_is_orders_view(action) {
            lemma_orders_keep_palette(&a1, b, action, d, e0, e1);
        } else if crate::input_views::spec_is_lists_view(action) {
            lemma_lists_keep_palette(&a1, b, action, d, e0, e1);
        } else if crate::input_views::spec_is_chart_search(action) {
            lemma_search_keep_palette(&a1, b, action, d, e0, e1);
        } else if crate::input_views::spec_is_chart_pill(action) {
            lemma_pills_keep_palette(&a1, b, action, d, e0, e1);
        } else if crate::input_views::spec_is_log_tree(action) {
            lemma_logs_keep_palette(&a1, b, action, d, e0, e1);
        } else {
            assert(b.command_palette == a1.command_palette);
        }
    } else {
        lemma_rest_keeps_palette(&a1, b, action, d, e0, e1);
    }
}

} // verus!
