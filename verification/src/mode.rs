//! Application mode system: Navigation, Edit and View modes.
use vstd::prelude::*;

verus! {

/// High-level application mode controlling available actions.
#[derive(Debug, Clone, Copy, PartialEq, Eq, Structural)]
pub enum AppMode {
    /// Navigation mode - tab switching, scrolling, selection (default)
    Navigation,
    /// Edit mode - form input, text editing
    Edit,
    /// View mode - detail views, charts (read-only)
    View,
}

/// The mode that follows `m` in the cycle Navigation -> Edit -> View -> Navigation.
pub open spec fn spec_cycle_next(m: AppMode) -> AppMode {
    match m {
        AppMode::Navigation => AppMode::Edit,
        AppMode::Edit => AppMode::View,
        AppMode::View => AppMode::Navigation,
    }
}

/// Display label of a mode.
pub open spec fn spec_mode_label(m: AppMode) -> Seq<char> {
    match m {
        AppMode::Navigation => "NAV"@,
        AppMode::Edit => "EDIT"@,
        AppMode::View => "VIEW"@,
    }
}

impl Default for AppMode {
    fn default() -> (r: Self)
        ensures
            r == AppMode::Navigation,
    {
        AppMode::Navigation
    }
}

impl AppMode {
    /// Get the display label for this mode.
    pub fn label(&self) -> (r: &'static str)
        ensures
            r@ == spec_mode_label(*self),
    {
        match self {
            AppMode::Navigation => "NAV",
            AppMode::Edit => "EDIT",
            AppMode::View => "VIEW",
        }
    }

    /// Cycle to the next mode (Navigation -> Edit -> View -> Navigation).
    pub fn cycle_next(&self) -> (r: Self)
        ensures
            r == spec_cycle_next(*self),
    {
        match self {
            AppMode::Navigation => AppMode::Edit,
            AppMode::Edit => AppMode::View,
            AppMode::View => AppMode::Navigation,
        }
    }

    /// Check if this mode allows navigation actions (tab switching, scrolling).
    pub fn allows_navigation(&self) -> (r: bool)
        ensures
            r == (*self == AppMode::Navigation),
    {
        matches!(self, AppMode::Navigation)
    }

    /// Check if this mode allows editing (form input).
    pub fn allows_editing(&self) -> (r: bool)
        ensures
            r == (*self == AppMode::Edit),
    {
        matches!(self, AppMode::Edit)
    }

    /// Check if this mode is read-only.
    pub fn is_read_only(&self) -> (r: bool)
        ensures
            r == (*self == AppMode::View),
    {
        matches!(self, AppMode::View)
    }
}

/// Context for determining the appropriate AppMode based on current state.
#[derive(Debug, Clone, Copy, PartialEq, Eq, Structural)]
pub struct ModeContext {
    pub has_detail_popup: bool,
    pub is_settings_editing: bool,
    pub is_loan_form: bool,
    pub is_chart_search: bool,
    pub is_orders_filter: bool,
    pub is_log_panel: bool,
}

/// The mode a context calls for: any text-entry surface means Edit, otherwise a popup
/// or the log panel means View, otherwise Navigation.
pub open spec fn spec_determine_mode(c: ModeContext) -> AppMode {
    if c.is_settings_editing || c.is_loan_form || c.is_chart_search || c.is_orders_filter {
        AppMode::Edit
    } else if c.has_detail_popup || c.is_log_panel {
        AppMode::View
    } else {
        AppMode::Navigation
    }
}

impl ModeContext {
    /// Determine the appropriate AppMode based on current UI state.
    pub fn determine_mode(&self) -> (r: AppMode)
        ensures
            r == spec_determine_mode(*self),
    {
        if self.is_settings_editing || self.is_loan_form || self.is_chart_search
            || self.is_orders_filter {
            AppMode::Edit
        } else if self.has_detail_popup || self.is_log_panel {
            AppMode::View
        } else {
            AppMode::Navigation
        }
    }
}

impl Default for ModeContext {
    fn default() -> (r: Self)
        ensures
            r == (ModeContext {
                has_detail_popup: false,
                is_settings_editing: false,
                is_loan_form: false,
                is_chart_search: false,
                is_orders_filter: false,
                is_log_panel: false,
            }),
    {
        ModeContext {
            has_detail_popup: false,
            is_settings_editing: false,
            is_loan_form: false,
            is_chart_search: false,
            is_orders_filter: false,
            is_log_panel: false,
        }
    }
}

/// Cycling through the modes three times returns to the starting mode, and no shorter
/// positive number of steps does.
pub proof fn law_mode_cycle_has_period_three(m: AppMode)
    ensures
        spec_cycle_next(spec_cycle_next(spec_cycle_next(m))) == m,
        spec_cycle_next(m) != m,
        spec_cycle_next(spec_cycle_next(m)) != m,
{
}

/// Every mode grants exactly one of the three permissions (navigation, editing, read-only).
pub proof fn law_mode_permissions_exclusive(m: AppMode)
    ensures
        (m == AppMode::Navigation) || (m == AppMode::Edit) || (m == AppMode::View),
        !((m == AppMode::Navigation) && (m == AppMode::Edit)),
        !((m == AppMode::Navigation) && (m == AppMode::View)),
        !((m == AppMode::Edit) && (m == AppMode::View)),
{
}

} // verus!
