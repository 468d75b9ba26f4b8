//! Loans tab input: the loan entry form, bulk import and list scrolling, plus the
//! Discount Bank list and watchlist edits that share its handler.
use vstd::prelude::*;
use crate::action::Action;
use crate::app::{notify, spec_toast_pushed, App, Effect, LoanEntryState, SettingsSection};
use crate::feedback::ToastLevel;
use crate::keys::{is_alphabetic, spec_is_alphabetic, KeyCode};
use crate::tab::Tab;
use crate::text::{
    copy_str, copy_strings, pop_char, push_char, spec_trim, spec_utf8_len, strings_view, trim,
    utf8_len_below,
};

verus! {

/// Keys of the open loan form: Esc cancels, Enter submits, Tab/Down and BackTab/Up move
/// between fields, Backspace deletes; digits, `-`, `.` and letters are typed; any other
/// key does nothing.
pub open spec fn spec_loan_form_key_action(key: KeyCode) -> Option<Action> {
    match key {
        KeyCode::Esc => Some(Action::LoansInputEscape),
        KeyCode::Enter => Some(Action::LoansInputEnter),
        KeyCode::Tab => Some(Action::LoansInputNavDown),
        KeyCode::BackTab => Some(Action::LoansInputNavUp),
        KeyCode::Up => Some(Action::LoansInputNavUp),
        KeyCode::Down => Some(Action::LoansInputNavDown),
        KeyCode::Backspace => Some(Action::LoansInputBackspace),
        KeyCode::Char(c) => if ('0' <= c && c <= '9') || c == '-' || c == '.' || spec_is_alphabetic(c) {
            Some(Action::LoansInputChar(c))
        } else {
            Some(Action::NoOp)
        },
        _ => Some(Action::NoOp),
    }
}

/// Loan form key map (see `spec_loan_form_key_action`).
pub fn loan_form_key_action(key: KeyCode) -> (r: Option<Action>)
    ensures
        r == spec_loan_form_key_action(key),
{
    match key {
        KeyCode::Esc => Some(Action::LoansInputEscape),
        KeyCode::Enter => Some(Action::LoansInputEnter),
        KeyCode::Tab => Some(Action::LoansInputNavDown),
        KeyCode::BackTab => Some(Action::LoansInputNavUp),
        KeyCode::Up => Some(Action::LoansInputNavUp),
        KeyCode::Down => Some(Action::LoansInputNavDown),
        KeyCode::Backspace => Some(Action::LoansInputBackspace),
        KeyCode::Char(c) => if ('0' <= c && c <= '9') || c == '-' || c == '.' || is_alphabetic(c) {
            Some(Action::LoansInputChar(c))
        } else {
            Some(Action::NoOp)
        },
        _ => Some(Action::NoOp),
    }
}


/// Longest text (in UTF-8 bytes) each loan form field accepts.
pub open spec fn spec_field_max_len(f: int) -> nat {
    if f == 0 { 50 } else if f == 1 { 20 } else if f == 2 { 3 } else if f == 3 { 15 }
    else if f == 4 || f == 5 { 6 } else if f == 6 || f == 7 { 10 } else if f == 8 || f == 9 { 5 }
    else { 20 }
}

/// Text of loan form field `f` (0 bank, 1 account, 3 principal, 4 rate, 5 spread,
/// 6 origination date, 7 first payment date, 8 number of payments, 9 currency); field 2
/// is the loan type, which has no text.
pub open spec fn spec_entry_field(e: LoanEntryState, f: int) -> Seq<char> {
    if f == 0 { e.bank_name@ } else if f == 1 { e.account_number@ } else if f == 3 { e.principal@ }
    else if f == 4 { e.interest_rate@ } else if f == 5 { e.spread@ } else if f == 6 { e.origination_date@ }
    else if f == 7 { e.first_payment_date@ } else if f == 8 { e.num_payments@ } else if f == 9 { e.currency@ }
    else { Seq::empty() }
}

/// Whether field `f` holds text the user types.
pub open spec fn spec_editable_field(f: int) -> bool {
    0 <= f <= 9 && f != 2
}

/// The texts of `e1` and `e2` agree, except possibly that of field `f`.
pub open spec fn spec_texts_same_except(e1: LoanEntryState, e2: LoanEntryState, f: int) -> bool {
    &&& (f != 0 ==> e1.bank_name@ == e2.bank_name@)
    &&& (f != 1 ==> e1.account_number@ == e2.account_number@)
    &&& (f != 3 ==> e1.principal@ == e2.principal@)
    &&& (f != 4 ==> e1.interest_rate@ == e2.interest_rate@)
    &&& (f != 5 ==> e1.spread@ == e2.spread@)
    &&& (f != 6 ==> e1.origination_date@ == e2.origination_date@)
    &&& (f != 7 ==> e1.first_payment_date@ == e2.first_payment_date@)
    &&& (f != 8 ==> e1.num_payments@ == e2.num_payments@)
    &&& (f != 9 ==> e1.currency@ == e2.currency@)
    &&& e1.monthly_payment@ == e2.monthly_payment@
    &&& e1.maturity_date@ == e2.maturity_date@
}

/// `e2` equals `e1` except, possibly, in the text of field `f`.
pub open spec fn spec_entry_same_but(e1: LoanEntryState, e2: LoanEntryState, f: int) -> bool {
    &&& spec_texts_same_except(e1, e2, f)
    &&& e1.loan_type == e2.loan_type
    &&& e1.current_field == e2.current_field
    &&& e1.validation_error == e2.validation_error
}

fn push_field(e: &mut LoanEntryState, f: usize, c: char)
    requires
        spec_editable_field(f as int),
    ensures
        spec_entry_field(*final(e), f as int) == if spec_utf8_len(spec_entry_field(*old(e), f as int))
            < spec_field_max_len(f as int) {
            spec_entry_field(*old(e), f as int).push(c)
        } else {
            spec_entry_field(*old(e), f as int)
        },
        spec_entry_same_but(*old(e), *final(e), f as int),
{
    if f == 0 {
        if utf8_len_below(e.bank_name.as_str(), 50) { push_char(&mut e.bank_name, c); }
    } else if f == 1 {
        if utf8_len_below(e.account_number.as_str(), 20) { push_char(&mut e.account_number, c); }
    } else if f == 3 {
        if utf8_len_below(e.principal.as_str(), 15) { push_char(&mut e.principal, c); }
    } else if f == 4 {
        if utf8_len_below(e.interest_rate.as_str(), 6) { push_char(&mut e.interest_rate, c); }
    } else if f == 5 {
        if utf8_len_below(e.spread.as_str(), 6) { push_char(&mut e.spread, c); }
    } else if f == 6 {
        if utf8_len_below(e.origination_date.as_str(), 10) { push_char(&mut e.origination_date, c); }
    } else if f == 7 {
        if utf8_len_below(e.first_payment_date.as_str(), 10) { push_char(&mut e.first_payment_date, c); }
    } else if f == 8 {
        if utf8_len_below(e.num_payments.as_str(), 5) { push_char(&mut e.num_payments, c); }
    } else {
        if utf8_len_below(e.currency.as_str(), 5) { push_char(&mut e.currency, c); }
    }
}

fn pop_field(e: &mut LoanEntryState, f: usize)
    requires
        spec_editable_field(f as int),
    ensures
        spec_entry_field(*final(e), f as int) == if spec_entry_field(*old(e), f as int).len() == 0 {
            spec_entry_field(*old(e), f as int)
        } else {
            spec_entry_field(*old(e), f as int).drop_last()
        },
        spec_entry_same_but(*old(e), *final(e), f as int),
{
    if f == 0 {
        let _ = pop_char(&mut e.bank_name);
    } else if f == 1 {
        let _ = pop_char(&mut e.account_number);
    } else if f == 3 {
        let _ = pop_char(&mut e.principal);
    } else if f == 4 {
        let _ = pop_char(&mut e.interest_rate);
    } else if f == 5 {
        let _ = pop_char(&mut e.spread);
    } else if f == 6 {
        let _ = pop_char(&mut e.origination_date);
    } else if f == 7 {
        let _ = pop_char(&mut e.first_payment_date);
    } else if f == 8 {
        let _ = pop_char(&mut e.num_payments);
    } else {
        let _ = pop_char(&mut e.currency);
    }
}

/// Longest bulk-import path accepted, in UTF-8 bytes.
pub const MAX_IMPORT_PATH_LEN: usize = 4096;
/// Warning shown when an empty bulk-import path is submitted.
pub const EMPTY_IMPORT_PATH_MESSAGE: &'static str = "Enter a path to a loans JSON file.";
/// Error shown when bulk import has no worker.
pub const IMPORT_NOT_WIRED_MESSAGE: &'static str = "Loans bulk import is not wired.";
/// Error shown when the bulk-import worker is gone.
pub const IMPORT_CHANNEL_CLOSED_MESSAGE: &'static str = "Bulk import channel closed.";
/// Validation message of an incomplete loan form.
pub const LOAN_FORM_INVALID_MESSAGE: &'static str = "Missing or invalid required fields";
/// Info shown after a watchlist symbol is removed.
pub const SYMBOL_REMOVED_MESSAGE: &'static str = "Symbol removed from watchlist.";
/// Info shown after the watchlist override is dropped.
pub const WATCHLIST_RESET_MESSAGE: &'static str = "Watchlist reset to config.";

/// Number of loans loaded (0 before the first list or after an error).
pub open spec fn spec_loans_len(a: &App) -> nat {
    match a.loans_list {
        Some(Ok(n)) => n as nat,
        _ => 0,
    }
}

/// Number of Discount Bank transactions loaded (0 when none).
pub open spec fn spec_transactions_len(a: &App) -> nat {
    match a.discount_bank_transactions {
        Some(Ok(n)) => n as nat,
        _ => 0,
    }
}

/// Scroll offset after moving by `delta` (negative saturates at 0; positive stops at the
/// last of `len` rows, and nothing moves when the list is empty).
pub open spec fn spec_list_scroll(scroll: nat, delta: int, len: nat) -> nat {
    if delta < 0 {
        if scroll + delta < 0 { 0 } else { (scroll + delta) as nat }
    } else if len == 0 {
        scroll
    } else if scroll + delta < len - 1 {
        (scroll + delta) as nat
    } else {
        (len - 1) as nat
    }
}

/// Effect of `Action::LoansBulkImportFocus` (see `spec_loan_post`).
#[verifier::opaque]
pub open spec fn spec_loans_bulk_import_focus_post(a: &App, b: &App, e0: Seq<Effect>, e1: Seq<Effect>) -> bool {
    b.loan_entry is None && b.active_tab == Tab::Loans
            && (b.loan_import_path matches Some(p) && p@.len() == 0)
            && *b == (App { loan_entry: None, active_tab: Tab::Loans, loan_import_path: b.loan_import_path, ..*a })
            && e1 == e0 + if !a.loans_fetch_pending && a.wiring.loans_fetch {
                seq![Effect::SendLoansFetch]
            } else {
                Seq::empty()
            }
}

/// Effect of `Action::LoansImportPathChar` (see `spec_loan_post`).
#[verifier::opaque]
pub open spec fn spec_loans_import_path_char_post(a: &App, b: &App, e0: Seq<Effect>, e1: Seq<Effect>, c: char) -> bool {
    e1 == e0 && *b == (App { loan_import_path: b.loan_import_path, ..*a })
            && match a.loan_import_path {
                Some(p) => b.loan_import_path matches Some(q)
                    && q@ == if spec_utf8_len(p@) < MAX_IMPORT_PATH_LEN { p@.push(c) } else { p@ },
                None => b.loan_import_path is None,
            }
}

/// Effect of `Action::LoansImportPathBackspace` (see `spec_loan_post`).
#[verifier::opaque]
pub open spec fn spec_loans_import_path_backspace_post(a: &App, b: &App, e0: Seq<Effect>, e1: Seq<Effect>) -> bool {
    e1 == e0 && *b == (App { loan_import_path: b.loan_import_path, ..*a })
            && match a.loan_import_path {
                Some(p) => b.loan_import_path matches Some(q)
                    && q@ == if p@.len() == 0 { p@ } else { p@.drop_last() },
                None => b.loan_import_path is None,
            }
}

/// Effect of `Action::LoansImportPathEnter` (see `spec_loan_post`).
#[verifier::opaque]
pub open spec fn spec_loans_import_path_enter_post(a: &App, b: &App, e0: Seq<Effect>, e1: Seq<Effect>) -> bool {
    &&& *b == (App { loan_import_path: b.loan_import_path, toast_manager: b.toast_manager,
        dirty_flags: b.dirty_flags, needs_redraw: b.needs_redraw, ..*a })
    &&& spec_import_enter_outcome(a, b, e0, e1)
}

/// Import-path submission, on the fields it touches: the path closes; an empty path
/// warns, a missing worker is an error, otherwise the trimmed path is sent.
pub open spec fn spec_import_enter_outcome(a: &App, b: &App, e0: Seq<Effect>, e1: Seq<Effect>) -> bool {
    match a.loan_import_path {
        None => b.loan_import_path is None && b.toast_manager == a.toast_manager
            && b.dirty_flags == a.dirty_flags && b.needs_redraw == a.needs_redraw && e1 == e0,
        Some(p) => b.loan_import_path is None && if spec_trim(p@).len() == 0 {
            spec_toast_pushed(&a.toast_manager, &b.toast_manager, EMPTY_IMPORT_PATH_MESSAGE@, ToastLevel::Warning)
                && b.dirty_flags.overlay && b.needs_redraw && e1 == e0
        } else if a.wiring.loan_bulk_import {
            b.toast_manager == a.toast_manager && b.dirty_flags == a.dirty_flags && b.needs_redraw == a.needs_redraw
                && e1.len() == e0.len() + 1 && e1.subrange(0, e0.len() as int) == e0
                && (e1.last() matches Effect::SendBulkImport(path) && path@ == spec_trim(p@))
        } else {
            spec_toast_pushed(&a.toast_manager, &b.toast_manager, IMPORT_NOT_WIRED_MESSAGE@, ToastLevel::Error)
                && b.dirty_flags.overlay && b.needs_redraw && e1 == e0
        },
    }
}

/// Effect of `Action::LoansScrollUp` (see `spec_loan_post`).
#[verifier::opaque]
pub open spec fn spec_loans_scroll_up_post(a: &App, b: &App, e0: Seq<Effect>, e1: Seq<Effect>) -> bool {
    e1 == e0 && *b == (App { loans_scroll: b.loans_scroll, ..*a })
            && b.loans_scroll == spec_list_scroll(a.loans_scroll as nat, -1, spec_loans_len(a))
}

/// Effect of `Action::LoansScrollDown` (see `spec_loan_post`).
#[verifier::opaque]
pub open spec fn spec_loans_scroll_down_post(a: &App, b: &App, e0: Seq<Effect>, e1: Seq<Effect>) -> bool {
    e1 == e0 && *b == (App { loans_scroll: b.loans_scroll, ..*a })
            && b.loans_scroll == spec_list_scroll(a.loans_scroll as nat, 1, spec_loans_len(a))
}

/// Effect of `Action::LoansScrollPageUp` (see `spec_loan_post`).
#[verifier::opaque]
pub open spec fn spec_loans_scroll_page_up_post(a: &App, b: &App, e0: Seq<Effect>, e1: Seq<Effect>) -> bool {
    e1 == e0 && *b == (App { loans_scroll: b.loans_scroll, ..*a })
            && b.loans_scroll == spec_list_scroll(a.loans_scroll as nat, -10, spec_loans_len(a))
}

/// Effect of `Action::LoansScrollPageDown` (see `spec_loan_post`).
#[verifier::opaque]
pub open spec fn spec_loans_scroll_page_down_post(a: &App, b: &App, e0: Seq<Effect>, e1: Seq<Effect>) -> bool {
    e1 == e0 && *b == (App { loans_scroll: b.loans_scroll, ..*a })
            && b.loans_scroll == spec_list_scroll(a.loans_scroll as nat, 10, spec_loans_len(a))
}

/// Effect of `Action::DiscountBankScrollUp` (see `spec_loan_post`).
#[verifier::opaque]
pub open spec fn spec_discount_bank_scroll_up_post(a: &App, b: &App, e0: Seq<Effect>, e1: Seq<Effect>) -> bool {
    e1 == e0 && *b == (App { discount_bank_scroll: b.discount_bank_scroll, ..*a })
            && b.discount_bank_scroll == spec_list_scroll(a.discount_bank_scroll as nat, -1, spec_transactions_len(a))
}

/// Effect of `Action::DiscountBankScrollDown` (see `spec_loan_post`).
#[verifier::opaque]
pub open spec fn spec_discount_bank_scroll_down_post(a: &App, b: &App, e0: Seq<Effect>, e1: Seq<Effect>) -> bool {
    e1 == e0 && *b == (App { discount_bank_scroll: b.discount_bank_scroll, ..*a })
            && b.discount_bank_scroll == spec_list_scroll(a.discount_bank_scroll as nat, 1, spec_transactions_len(a))
}

/// Effect of `Action::DiscountBankScrollPageUp` (see `spec_loan_post`).
#[verifier::opaque]
pub open spec fn spec_discount_bank_scroll_page_up_post(a: &App, b: &App, e0: Seq<Effect>, e1: Seq<Effect>) -> bool {
    e1 == e0 && *b == (App { discount_bank_scroll: b.discount_bank_scroll, ..*a })
            && b.discount_bank_scroll == spec_list_scroll(a.discount_bank_scroll as nat, -10, spec_transactions_len(a))
}

/// Effect of `Action::DiscountBankScrollPageDown` (see `spec_loan_post`).
#[verifier::opaque]
pub open spec fn spec_discount_bank_scroll_page_down_post(a: &App, b: &App, e0: Seq<Effect>, e1: Seq<Effect>) -> bool {
    e1 == e0 && *b == (App { discount_bank_scroll: b.discount_bank_scroll, ..*a })
            && b.discount_bank_scroll == spec_list_scroll(a.discount_bank_scroll as nat, 10, spec_transactions_len(a))
}

/// Effect of `Action::DiscountBankRefresh` (see `spec_loan_post`).
#[verifier::opaque]
pub open spec fn spec_discount_bank_refresh_post(a: &App, b: &App, e0: Seq<Effect>, e1: Seq<Effect>) -> bool {
    *b == *a && e1 == e0 + if !a.discount_bank_fetch_pending && a.wiring.discount_bank_fetch {
            seq![Effect::SendDiscountBankFetch]
        } else {
            Seq::empty()
        }
}

/// Effect of `Action::LoansNewLoan` (see `spec_loan_post`).
#[verifier::opaque]
pub open spec fn spec_loans_new_loan_post(a: &App, b: &App, e0: Seq<Effect>, e1: Seq<Effect>) -> bool {
    *b == (App { loan_import_path: None, loan_entry: b.loan_entry, ..*a }) && e1 == e0
            && (b.loan_entry matches Some(e) && e.current_field == 0 && e.validation_error is None
                && e.loan_type == crate::app::LoanType::ShirBased && e.currency@ == "ILS"@
                && forall|g: int| 0 <= g <= 8 ==> (#[trigger] spec_entry_field(e, g)).len() == 0)
}

/// Effect of `Action::LoansInputEnter` (see `spec_loan_post`).
#[verifier::opaque]
pub open spec fn spec_loans_input_enter_post(a: &App, b: &App, e0: Seq<Effect>, e1: Seq<Effect>) -> bool {
    &&& *b == (App { loan_entry: b.loan_entry, ..*a })
    &&& spec_entry_enter(a.loan_entry, b.loan_entry, a.wiring.loan_create, e0, e1)
}

/// Enter in the loan form, on the form: on the loan-type field it toggles the type;
/// otherwise a complete form closes and is sent (when a worker is wired), and an
/// incomplete one shows the validation message and has its derived fields recomputed.
pub open spec fn spec_entry_enter(o: Option<LoanEntryState>, o2: Option<LoanEntryState>, wired: bool,
    e0: Seq<Effect>, e1: Seq<Effect>) -> bool {
    match o {
        None => o2 is None && e1 == e0,
        Some(e) => if e.current_field == 2 {
            e1 == e0
                && (o2 matches Some(e2) && e2.loan_type != e.loan_type && e2.validation_error is None
                    && spec_texts_same_except(e, e2, -1) && e2.current_field == e.current_field)
        } else if crate::app::spec_loan_complete(e) {
            o2 is None && e1 == e0 + if wired { seq![Effect::SendLoanRecord(e)] } else { Seq::empty() }
        } else {
            e1 == e0.push(Effect::RecomputeLoanDerived)
                && (o2 matches Some(e2) && (e2.validation_error matches Some(m) && m@ == LOAN_FORM_INVALID_MESSAGE@)
                    && spec_texts_same_except(e, e2, -1) && e2.loan_type == e.loan_type
                    && e2.current_field == e.current_field)
        },
    }
}

/// Effect of `Action::LoansInputNavUp` (see `spec_loan_post`).
#[verifier::opaque]
pub open spec fn spec_loans_input_nav_up_post(a: &App, b: &App, e0: Seq<Effect>, e1: Seq<Effect>) -> bool {
    match a.loan_entry {
            None => *b == *a && e1 == e0,
            Some(e) => *b == (App { loan_entry: b.loan_entry, ..*a }) && e1 == e0
                && (b.loan_entry matches Some(e2) && e2.validation_error is None
                    && e2.current_field == if e.current_field == 0 || e.current_field > 10 { 9 } else { (e.current_field - 1) as usize }
                    && spec_texts_same_except(e, e2, -1) && e2.loan_type == e.loan_type),
        }
}

/// Effect of `Action::LoansInputNavDown` (see `spec_loan_post`).
#[verifier::opaque]
pub open spec fn spec_loans_input_nav_down_post(a: &App, b: &App, e0: Seq<Effect>, e1: Seq<Effect>) -> bool {
    match a.loan_entry {
            None => *b == *a && e1 == e0,
            Some(e) => *b == (App { loan_entry: b.loan_entry, ..*a }) && e1 == e0
                && (b.loan_entry matches Some(e2) && e2.validation_error is None
                    && e2.current_field == if e.current_field < 9 { (e.current_field + 1) as usize } else { 0 }
                    && spec_texts_same_except(e, e2, -1) && e2.loan_type == e.loan_type),
        }
}

/// Effect of `Action::LoansInputChar` (see `spec_loan_post`).
#[verifier::opaque]
pub open spec fn spec_loans_input_char_post(a: &App, b: &App, e0: Seq<Effect>, e1: Seq<Effect>, c: char) -> bool {
    match a.loan_entry {
            None => *b == *a && e1 == e0,
            Some(e) => if !spec_editable_field(e.current_field as int) {
                *b == *a && e1 == e0
            } else {
                *b == (App { loan_entry: b.loan_entry, ..*a }) && e1 == e0.push(Effect::RecomputeLoanDerived)
                    && (b.loan_entry matches Some(e2) && spec_entry_same_but(e, e2, e.current_field as int)
                        && spec_entry_field(e2, e.current_field as int) == if spec_utf8_len(spec_entry_field(e, e.current_field as int))
                            < spec_field_max_len(e.current_field as int) {
                            spec_entry_field(e, e.current_field as int).push(c)
                        } else {
                            spec_entry_field(e, e.current_field as int)
                        })
            },
        }
}

/// Effect of `Action::LoansInputBackspace` (see `spec_loan_post`).
#[verifier::opaque]
pub open spec fn spec_loans_input_backspace_post(a: &App, b: &App, e0: Seq<Effect>, e1: Seq<Effect>) -> bool {
    match a.loan_entry {
            None => *b == *a && e1 == e0,
            Some(e) => if !spec_editable_field(e.current_field as int) {
                *b == *a && e1 == e0
            } else {
                *b == (App { loan_entry: b.loan_entry, ..*a }) && e1 == e0.push(Effect::RecomputeLoanDerived)
                    && (b.loan_entry matches Some(e2) && spec_entry_same_but(e, e2, e.current_field as int)
                        && spec_entry_field(e2, e.current_field as int) == if spec_entry_field(e, e.current_field as int).len() == 0 {
                            spec_entry_field(e, e.current_field as int)
                        } else {
                            spec_entry_field(e, e.current_field as int).drop_last()
                        })
            },
        }
}

/// Effect of `Action::SettingsDelete` (see `spec_loan_post`).
#[verifier::opaque]
pub open spec fn spec_settings_delete_post(a: &App, b: &App, e0: Seq<Effect>, e1: Seq<Effect>) -> bool {
    &&& *b == (App { watchlist_override: b.watchlist_override, settings_symbol_index: b.settings_symbol_index,
        toast_manager: b.toast_manager, dirty_flags: b.dirty_flags, needs_redraw: b.needs_redraw, ..*a })
    &&& e1 == e0
    &&& spec_delete_outcome(a, b)
}

/// The effective watchlist given an override and the configured list, by views.
pub open spec fn spec_effective_watchlist(ov: Option<Vec<String>>, configured: Vec<String>) -> Seq<Seq<char>> {
    match ov {
        Some(w) => strings_view(w@),
        None => strings_view(configured@),
    }
}

/// Whether the selection points into a non-empty effective watchlist.
pub open spec fn spec_can_remove(ov: Option<Vec<String>>, sel: usize, configured: Vec<String>) -> bool {
    let wl = spec_effective_watchlist(ov, configured);
    wl.len() > 0 && sel < wl.len()
}

/// Override and selection after removing the selected symbol: the override holds the
/// effective watchlist without it, and the selection stays in range.
pub open spec fn spec_removal(ov: Option<Vec<String>>, sel: usize, configured: Vec<String>,
    ov2: Option<Vec<String>>, sel2: usize) -> bool {
    let wl = spec_effective_watchlist(ov, configured);
    let idx = sel as int;
    &&& (ov2 matches Some(w) && strings_view(w@) == wl.remove(idx))
    &&& sel2 == if wl.len() - 1 == 0 { 0 } else if idx < wl.len() - 2 { idx } else { wl.len() - 2 }
}

/// Symbol deletion in Settings, on the fields it touches: in the Symbols section, a
/// selected entry of the effective watchlist is removed into the override, the
/// selection is kept in range and an info toast confirms; otherwise nothing changes.
pub open spec fn spec_delete_outcome(a: &App, b: &App) -> bool {
    if a.settings_section == SettingsSection::Symbols
        && spec_can_remove(a.watchlist_override, a.settings_symbol_index, a.config.watchlist) {
        &&& spec_removal(a.watchlist_override, a.settings_symbol_index, a.config.watchlist,
            b.watchlist_override, b.settings_symbol_index)
        &&& spec_toast_pushed(&a.toast_manager, &b.toast_manager, SYMBOL_REMOVED_MESSAGE@, ToastLevel::Info)
        &&& b.dirty_flags.overlay && b.needs_redraw
    } else {
        &&& b.watchlist_override == a.watchlist_override
        &&& b.settings_symbol_index == a.settings_symbol_index
        &&& b.toast_manager == a.toast_manager
        &&& b.dirty_flags == a.dirty_flags
        &&& b.needs_redraw == a.needs_redraw
    }
}

/// Effect of `Action::SettingsReset` (see `spec_loan_post`).
#[verifier::opaque]
pub open spec fn spec_settings_reset_post(a: &App, b: &App, e0: Seq<Effect>, e1: Seq<Effect>) -> bool {
    spec_toast_pushed(&a.toast_manager, &b.toast_manager, WATCHLIST_RESET_MESSAGE@, ToastLevel::Info)
            && *b == (App { watchlist_override: None, toast_manager: b.toast_manager,
                dirty_flags: b.dirty_flags, needs_redraw: true, ..*a })
            && e1 == e0
}

/// What a loans-handler action does: `b` is the state after `a`, `e1` the effects after
/// `e0`; actions the handler does not own change nothing.
pub open spec fn spec_loan_post(a: &App, b: &App, action: Action, e0: Seq<Effect>, e1: Seq<Effect>) -> bool {
    match action {
        Action::LoansBulkImportFocus => spec_loans_bulk_import_focus_post(a, b, e0, e1),
        Action::LoansImportPathEscape => *b == (App { loan_import_path: None, ..*a }) && e1 == e0,
        Action::LoansImportPathChar(c) => spec_loans_import_path_char_post(a, b, e0, e1, c),
        Action::LoansImportPathBackspace => spec_loans_import_path_backspace_post(a, b, e0, e1),
        Action::LoansImportPathEnter => spec_loans_import_path_enter_post(a, b, e0, e1),
        Action::LoansScrollUp => spec_loans_scroll_up_post(a, b, e0, e1),
        Action::LoansScrollDown => spec_loans_scroll_down_post(a, b, e0, e1),
        Action::LoansScrollPageUp => spec_loans_scroll_page_up_post(a, b, e0, e1),
        Action::LoansScrollPageDown => spec_loans_scroll_page_down_post(a, b, e0, e1),
        Action::DiscountBankScrollUp => spec_discount_bank_scroll_up_post(a, b, e0, e1),
        Action::DiscountBankScrollDown => spec_discount_bank_scroll_down_post(a, b, e0, e1),
        Action::DiscountBankScrollPageUp => spec_discount_bank_scroll_page_up_post(a, b, e0, e1),
        Action::DiscountBankScrollPageDown => spec_discount_bank_scroll_page_down_post(a, b, e0, e1),
        Action::DiscountBankRefresh => spec_discount_bank_refresh_post(a, b, e0, e1),
        Action::LoansNewLoan => spec_loans_new_loan_post(a, b, e0, e1),
        Action::LoansInputEscape => *b == (App { loan_entry: None, ..*a }) && e1 == e0,
        Action::LoansInputEnter => spec_loans_input_enter_post(a, b, e0, e1),
        Action::LoansInputNavUp => spec_loans_input_nav_up_post(a, b, e0, e1),
        Action::LoansInputNavDown => spec_loans_input_nav_down_post(a, b, e0, e1),
        Action::LoansInputChar(c) => spec_loans_input_char_post(a, b, e0, e1, c),
        Action::LoansInputBackspace => spec_loans_input_backspace_post(a, b, e0, e1),
        Action::SettingsDelete => spec_settings_delete_post(a, b, e0, e1),
        Action::SettingsReset => spec_settings_reset_post(a, b, e0, e1),
        _ => *b == *a && e1 == e0,

    }
}

/// Whether the loans handler owns `action` in state `a` (watchlist deletion only in the
/// Symbols section of Settings).
pub open spec fn spec_is_loan_action(a: &App, action: Action) -> bool {
    match action {
        Action::LoansBulkImportFocus | Action::LoansImportPathEscape | Action::LoansImportPathChar(_)
        | Action::LoansImportPathBackspace | Action::LoansImportPathEnter | Action::LoansScrollUp
        | Action::LoansScrollDown | Action::LoansScrollPageUp | Action::LoansScrollPageDown
        | Action::LoansNewLoan | Action::LoansInputEscape | Action::LoansInputEnter
        | Action::LoansInputNavUp | Action::LoansInputNavDown | Action::LoansInputChar(_)
        | Action::LoansInputBackspace | Action::DiscountBankScrollUp | Action::DiscountBankScrollDown
        | Action::DiscountBankScrollPageUp | Action::DiscountBankScrollPageDown
        | Action::DiscountBankRefresh | Action::SettingsReset => true,
        Action::SettingsDelete => a.settings_section == SettingsSection::Symbols,
        _ => false,
    }
}

fn list_scroll(scroll: usize, delta: isize, len: usize) -> (r: usize)
    requires
        -10 <= delta <= 10,
    ensures
        r == spec_list_scroll(scroll as nat, delta as int, len as nat),
{
    if delta < 0 {
        let d = (0 - delta) as usize;
        if scroll < d { 0 } else { scroll - d }
    } else if len == 0 {
        scroll
    } else {
        let s = scroll.saturating_add(delta as usize);
        if s < len - 1 { s } else { len - 1 }
    }
}


#[verifier::spinoff_prover]
fn bulk_import_focus(app: &mut App, effects: &mut Vec<Effect>)
    ensures
        spec_loans_bulk_import_focus_post(old(app), final(app), old(effects)@, final(effects)@),
{
    proof {
        reveal(spec_loans_bulk_import_focus_post);
    }
    let send = app.request_loans_fetch();
    app.loan_entry = None;
    app.active_tab = Tab::Loans;
    app.loan_import_path = Some(String::new());
    if send {
        effects.push(Effect::SendLoansFetch);
        assert(effects@ =~= old(effects)@ + seq![Effect::SendLoansFetch]);
    } else {
        assert(effects@ =~= old(effects)@ + Seq::<Effect>::empty());
    }
}

fn edit_path(o: &mut Option<String>, push: Option<char>)
    ensures
        match *old(o) {
            None => *final(o) is None,
            Some(p) => (*final(o)) matches Some(q) && q@ == match push {
                Some(c) => if spec_utf8_len(p@) < MAX_IMPORT_PATH_LEN { p@.push(c) } else { p@ },
                None => if p@.len() == 0 { p@ } else { p@.drop_last() },
            },
        },
{
    match o.take() {
        Some(mut buf) => {
            match push {
                Some(c) => {
                    if utf8_len_below(buf.as_str(), MAX_IMPORT_PATH_LEN) {
                        push_char(&mut buf, c);
                    }
                },
                None => {
                    let _ = pop_char(&mut buf);
                },
            }
            *o = Some(buf);
        },
        None => {},
    }
}

#[verifier::spinoff_prover]
fn import_path_char(app: &mut App, c: char, effects: &Vec<Effect>)
    ensures
        spec_loans_import_path_char_post(old(app), final(app), effects@, effects@, c),
{
    proof {
        reveal(spec_loans_import_path_char_post);
    }
    edit_path(&mut app.loan_import_path, Some(c));
}

#[verifier::spinoff_prover]
fn import_path_backspace(app: &mut App, effects: &Vec<Effect>)
    ensures
        spec_loans_import_path_backspace_post(old(app), final(app), effects@, effects@),
{
    proof {
        reveal(spec_loans_import_path_backspace_post);
    }
    edit_path(&mut app.loan_import_path, None);
}

/// What submitting the bulk-import path leads to.
enum ImportSubmit {
    Nothing,
    EmptyPath,
    Send(String),
    NotWired,
}

#[verifier::spinoff_prover]
#[verifier::rlimit(100)]
fn decide_import(o: &mut Option<String>, wired: bool) -> (r: ImportSubmit)
    ensures
        *final(o) is None,
        match *old(o) {
            None => r is Nothing,
            Some(p) => if spec_trim(p@).len() == 0 {
                r is EmptyPath
            } else if wired {
                r matches ImportSubmit::Send(path) && path@ == spec_trim(p@)
            } else {
                r is NotWired
            },
        },
{
    match o.take() {
        None => ImportSubmit::Nothing,
        Some(buf) => {
            let trimmed = trim(buf.as_str());
            if trimmed.unicode_len() == 0 {
                ImportSubmit::EmptyPath
            } else if wired {
                ImportSubmit::Send(trimmed)
            } else {
                ImportSubmit::NotWired
            }
        },
    }
}

#[verifier::spinoff_prover]
#[verifier::rlimit(100)]
fn submit_import_path(app: &mut App, effects: &mut Vec<Effect>)
    ensures
        spec_loans_import_path_enter_post(old(app), final(app), old(effects)@, final(effects)@),
{
    proof {
        reveal(spec_loans_import_path_enter_post);
    }
    let wired = app.wiring.loan_bulk_import;
    let outcome = decide_import(&mut app.loan_import_path, wired);
    match outcome {
        ImportSubmit::Nothing => {},
        ImportSubmit::EmptyPath => {
            notify(&mut app.toast_manager, &mut app.dirty_flags, &mut app.needs_redraw,
                EMPTY_IMPORT_PATH_MESSAGE, ToastLevel::Warning);
        },
        ImportSubmit::Send(path) => {
            effects.push(Effect::SendBulkImport(path));
            assert(effects@.subrange(0, old(effects)@.len() as int) =~= old(effects)@);
        },
        ImportSubmit::NotWired => {
            notify(&mut app.toast_manager, &mut app.dirty_flags, &mut app.needs_redraw,
                IMPORT_NOT_WIRED_MESSAGE, ToastLevel::Error);
        },
    }
}

#[verifier::spinoff_prover]
fn apply_list_scroll(app: &mut App, action: Action, effects: &mut Vec<Effect>)
    requires
        action == Action::LoansScrollUp || action == Action::LoansScrollDown
            || action == Action::LoansScrollPageUp || action == Action::LoansScrollPageDown
            || action == Action::DiscountBankScrollUp || action == Action::DiscountBankScrollDown
            || action == Action::DiscountBankScrollPageUp || action == Action::DiscountBankScrollPageDown
            || action == Action::DiscountBankRefresh,
    ensures
        spec_loan_post(old(app), final(app), action, old(effects)@, final(effects)@),
{
    proof {
        reveal(spec_loans_scroll_up_post);
        reveal(spec_loans_scroll_down_post);
        reveal(spec_loans_scroll_page_up_post);
        reveal(spec_loans_scroll_page_down_post);
        reveal(spec_discount_bank_scroll_up_post);
        reveal(spec_discount_bank_scroll_down_post);
        reveal(spec_discount_bank_scroll_page_up_post);
        reveal(spec_discount_bank_scroll_page_down_post);
        reveal(spec_discount_bank_refresh_post);
    }
    let loans_len: usize = match &app.loans_list {
        Some(Ok(n)) => *n,
        _ => 0,
    };
    let txn_len: usize = match &app.discount_bank_transactions {
        Some(Ok(n)) => *n,
        _ => 0,
    };
    match action {
        Action::LoansScrollUp => {
            app.loans_scroll = list_scroll(app.loans_scroll, -1, loans_len);
        },
        Action::LoansScrollDown => {
            app.loans_scroll = list_scroll(app.loans_scroll, 1, loans_len);
        },
        Action::LoansScrollPageUp => {
            app.loans_scroll = list_scroll(app.loans_scroll, -10, loans_len);
        },
        Action::LoansScrollPageDown => {
            app.loans_scroll = list_scroll(app.loans_scroll, 10, loans_len);
        },
        Action::DiscountBankScrollUp => {
            app.discount_bank_scroll = list_scroll(app.discount_bank_scroll, -1, txn_len);
        },
        Action::DiscountBankScrollDown => {
            app.discount_bank_scroll = list_scroll(app.discount_bank_scroll, 1, txn_len);
        },
        Action::DiscountBankScrollPageUp => {
            app.discount_bank_scroll = list_scroll(app.discount_bank_scroll, -10, txn_len);
        },
        Action::DiscountBankScrollPageDown => {
            app.discount_bank_scroll = list_scroll(app.discount_bank_scroll, 10, txn_len);
        },
        _ => {
            if app.request_discount_bank_fetch() {
                effects.push(Effect::SendDiscountBankFetch);
                assert(effects@ =~= old(effects)@ + seq![Effect::SendDiscountBankFetch]);
            } else {
                assert(effects@ =~= old(effects)@ + Seq::<Effect>::empty());
            }
        },
    }
}

#[verifier::spinoff_prover]
fn new_loan(app: &mut App, effects: &Vec<Effect>)
    ensures
        spec_loans_new_loan_post(old(app), final(app), effects@, effects@),
{
    proof {
        reveal(spec_loans_new_loan_post);
    }
    app.loan_import_path = None;
    app.loan_entry = Some(LoanEntryState::new());
}

#[verifier::spinoff_prover]
#[verifier::rlimit(100)]
fn enter_entry(o: &mut Option<LoanEntryState>, wired: bool, effects: &mut Vec<Effect>)
    ensures
        spec_entry_enter(*old(o), *final(o), wired, old(effects)@, final(effects)@),
{
    match o.take() {
        None => {},
        Some(mut e) => {
            if e.current_field == 2 {
                e.toggle_loan_type();
                e.validation_error = None;
                *o = Some(e);
            } else if e.is_complete() {
                if wired {
                    effects.push(Effect::SendLoanRecord(e));
                    assert(effects@ =~= old(effects)@ + seq![Effect::SendLoanRecord(old(o)->0)]);
                } else {
                    assert(effects@ =~= old(effects)@ + Seq::<Effect>::empty());
                }
            } else {
                e.validation_error = Some(copy_str(LOAN_FORM_INVALID_MESSAGE));
                *o = Some(e);
                effects.push(Effect::RecomputeLoanDerived);
            }
        },
    }
}

#[verifier::spinoff_prover]
fn loan_input_enter(app: &mut App, effects: &mut Vec<Effect>)
    ensures
        spec_loans_input_enter_post(old(app), final(app), old(effects)@, final(effects)@),
{
    proof {
        reveal(spec_loans_input_enter_post);
    }
    let wired = app.wiring.loan_create;
    enter_entry(&mut app.loan_entry, wired, effects);
}

fn nav_entry(o: &mut Option<LoanEntryState>, up: bool)
    ensures
        match *old(o) {
            None => *final(o) is None,
            Some(e) => (*final(o)) matches Some(e2) && e2.validation_error is None
                && e2.current_field == if up {
                    if e.current_field == 0 || e.current_field > 10 { 9 } else { (e.current_field - 1) as usize }
                } else {
                    if e.current_field < 9 { (e.current_field + 1) as usize } else { 0 }
                }
                && spec_texts_same_except(e, e2, -1) && e2.loan_type == e.loan_type,
        },
{
    match o.take() {
        None => {},
        Some(mut e) => {
            e.validation_error = None;
            e.current_field = if up {
                if e.current_field == 0 || e.current_field > 10 { 9 } else { e.current_field - 1 }
            } else {
                if e.current_field < 9 { e.current_field + 1 } else { 0 }
            };
            *o = Some(e);
        },
    }
}

#[verifier::spinoff_prover]
fn loan_input_nav_up(app: &mut App, effects: &Vec<Effect>)
    ensures
        spec_loans_input_nav_up_post(old(app), final(app), effects@, effects@),
{
    proof {
        reveal(spec_loans_input_nav_up_post);
    }
    nav_entry(&mut app.loan_entry, true);
}

#[verifier::spinoff_prover]
fn loan_input_nav_down(app: &mut App, effects: &Vec<Effect>)
    ensures
        spec_loans_input_nav_down_post(old(app), final(app), effects@, effects@),
{
    proof {
        reveal(spec_loans_input_nav_down_post);
    }
    nav_entry(&mut app.loan_entry, false);
}

#[verifier::spinoff_prover]
#[verifier::rlimit(100)]
fn edit_entry(o: &mut Option<LoanEntryState>, push: Option<char>) -> (edited: bool)
    ensures
        match *old(o) {
            None => *final(o) is None && !edited,
            Some(e) => if !spec_editable_field(e.current_field as int) {
                *final(o) == *old(o) && !edited
            } else {
                edited && ((*final(o)) matches Some(e2) && spec_entry_same_but(e, e2, e.current_field as int)
                    && spec_entry_field(e2, e.current_field as int) == match push {
                        Some(c) => if spec_utf8_len(spec_entry_field(e, e.current_field as int))
                            < spec_field_max_len(e.current_field as int) {
                            spec_entry_field(e, e.current_field as int).push(c)
                        } else {
                            spec_entry_field(e, e.current_field as int)
                        },
                        None => if spec_entry_field(e, e.current_field as int).len() == 0 {
                            spec_entry_field(e, e.current_field as int)
                        } else {
                            spec_entry_field(e, e.current_field as int).drop_last()
                        },
                    })
            },
        },
{
    match o.take() {
        None => false,
        Some(mut e) => {
            let f = e.current_field;
            if f <= 9 && f != 2 {
                match push {
                    Some(c) => push_field(&mut e, f, c),
                    None => pop_field(&mut e, f),
                }
                *o = Some(e);
                true
            } else {
                *o = Some(e);
                false
            }
        },
    }
}

#[verifier::spinoff_prover]
fn loan_input_char(app: &mut App, c: char, effects: &mut Vec<Effect>)
    ensures
        spec_loans_input_char_post(old(app), final(app), old(effects)@, final(effects)@, c),
{
    proof {
        reveal(spec_loans_input_char_post);
    }
    if edit_entry(&mut app.loan_entry, Some(c)) {
        effects.push(Effect::RecomputeLoanDerived);
    }
}

#[verifier::spinoff_prover]
fn loan_input_backspace(app: &mut App, effects: &mut Vec<Effect>)
    ensures
        spec_loans_input_backspace_post(old(app), final(app), old(effects)@, final(effects)@),
{
    proof {
        reveal(spec_loans_input_backspace_post);
    }
    if edit_entry(&mut app.loan_entry, None) {
        effects.push(Effect::RecomputeLoanDerived);
    }
}

/// Remove the selected symbol from the effective watchlist into the override; returns
/// whether one was removed (the selection must point into a non-empty list).
fn remove_selected_symbol(override_list: &mut Option<Vec<String>>, selected: &mut usize, configured: &Vec<String>) -> (removed: bool)
    ensures
        removed == spec_can_remove(*old(override_list), *old(selected), *configured),
        removed ==> spec_removal(*old(override_list), *old(selected), *configured, *final(override_list), *final(selected)),
        !removed ==> *final(override_list) == *old(override_list) && *final(selected) == *old(selected),
{
    let len = match override_list {
        Some(w) => w.len(),
        None => configured.len(),
    };
    let idx = *selected;
    if len == 0 || idx >= len {
        return false;
    }
    let mut list = match override_list {
        Some(w) => copy_strings(w),
        None => copy_strings(configured),
    };
    let ghost before = strings_view(list@);
    assert(list@.len() == before.len());
    let _ = list.remove(idx);
    assert(strings_view(list@) =~= before.remove(idx as int));
    let new_len = list.len();
    *override_list = Some(list);
    *selected = if new_len == 0 { 0 } else if idx < new_len - 1 { idx } else { new_len - 1 };
    true
}

#[verifier::spinoff_prover]
#[verifier::rlimit(100)]
fn settings_delete(app: &mut App, effects: &Vec<Effect>)
    ensures
        spec_settings_delete_post(old(app), final(app), effects@, effects@),
{
    proof {
        reveal(spec_settings_delete_post);
    }
    if app.settings_section == SettingsSection::Symbols {
        if remove_selected_symbol(&mut app.watchlist_override, &mut app.settings_symbol_index, &app.config.watchlist) {
            notify(&mut app.toast_manager, &mut app.dirty_flags, &mut app.needs_redraw,
                SYMBOL_REMOVED_MESSAGE, ToastLevel::Info);
        }
    }
}

#[verifier::spinoff_prover]
fn settings_reset(app: &mut App, effects: &Vec<Effect>)
    ensures
        spec_settings_reset_post(old(app), final(app), effects@, effects@),
{
    proof {
        reveal(spec_settings_reset_post);
    }
    app.watchlist_override = None;
    notify(&mut app.toast_manager, &mut app.dirty_flags, &mut app.needs_redraw,
        WATCHLIST_RESET_MESSAGE, ToastLevel::Info);
}

/// Apply a loans-handler action (see `spec_loan_post`); returns whether the handler owns
/// the action. Watchlist deletion is owned only in the Symbols section of Settings.
#[verifier::spinoff_prover]
#[verifier::rlimit(100)]
pub fn apply_loan_action(app: &mut App, action: Action, effects: &mut Vec<Effect>) -> (r: bool)
    ensures
        r == spec_is_loan_action(old(app), action),
        spec_loan_post(old(app), final(app), action, old(effects)@, final(effects)@),
{
    match action {
        Action::LoansBulkImportFocus => bulk_import_focus(app, effects),
        Action::LoansImportPathEscape => {
            app.loan_import_path = None;
        },
        Action::LoansImportPathChar(c) => import_path_char(app, c, effects),
        Action::LoansImportPathBackspace => import_path_backspace(app, effects),
        Action::LoansImportPathEnter => submit_import_path(app, effects),
        Action::LoansScrollUp | Action::LoansScrollDown | Action::LoansScrollPageUp
        | Action::LoansScrollPageDown | Action::DiscountBankScrollUp | Action::DiscountBankScrollDown
        | Action::DiscountBankScrollPageUp | Action::DiscountBankScrollPageDown
        | Action::DiscountBankRefresh => {
            apply_list_scroll(app, action, effects);
        },
        Action::LoansNewLoan => new_loan(app, effects),
        Action::LoansInputEscape => {
            app.loan_entry = None;
        },
        Action::LoansInputEnter => loan_input_enter(app, effects),
        Action::LoansInputNavUp => loan_input_nav_up(app, effects),
        Action::LoansInputNavDown => loan_input_nav_down(app, effects),
        Action::LoansInputChar(c) => loan_input_char(app, c, effects),
        Action::LoansInputBackspace => loan_input_backspace(app, effects),
        Action::SettingsDelete => {
            if app.settings_section != SettingsSection::Symbols {
                proof {
                    reveal(spec_settings_delete_post);
                }
                return false;
            }
            settings_delete(app, effects);
        },
        Action::SettingsReset => settings_reset(app, effects),
        _ => {
            return false;
        },
    }
    true
}

} // verus!
