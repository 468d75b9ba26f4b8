//! Dirty flags for selective re-rendering.
//!
//! Each flag records whether one UI region must be redrawn on the next frame.
use vstd::prelude::*;

verus! {

/// Flags indicating which UI regions need redrawing.
#[derive(Debug, Clone, Copy, PartialEq, Eq, Structural)]
pub struct DirtyFlags {
    /// Tab bar needs redraw.
    pub tabs: bool,
    /// Main content area needs redraw.
    pub content: bool,
    /// Status bar needs redraw.
    pub status_bar: bool,
    /// Hint bar needs redraw.
    pub hint_bar: bool,
    /// Overlay needs redraw.
    pub overlay: bool,
}

impl DirtyFlags {
    /// The value with every region clean.
    pub open spec fn clean() -> DirtyFlags {
        DirtyFlags { tabs: false, content: false, status_bar: false, hint_bar: false, overlay: false }
    }

    /// The value with every region dirty.
    pub open spec fn all_dirty() -> DirtyFlags {
        DirtyFlags { tabs: true, content: true, status_bar: true, hint_bar: true, overlay: true }
    }

    /// Whether at least one region is dirty.
    pub open spec fn any(self) -> bool {
        self.tabs || self.content || self.status_bar || self.hint_bar || self.overlay
    }

    /// Create new dirty flags with all regions marked clean.
    pub fn new() -> (r: Self)
        ensures
            r == Self::clean(),
    {
        DirtyFlags { tabs: false, content: false, status_bar: false, hint_bar: false, overlay: false }
    }

    /// Mark all regions as dirty (force full redraw).
    pub fn mark_all(&mut self)
        ensures
            *final(self) == Self::all_dirty(),
    {
        self.tabs = true;
        self.content = true;
        self.status_bar = true;
        self.hint_bar = true;
        self.overlay = true;
    }

    /// Mark all regions as clean after render.
    pub fn clear_all(&mut self)
        ensures
            *final(self) == Self::clean(),
    {
        *self = Self::new();
    }

    /// Check if any region is dirty.
    pub fn is_dirty(&self) -> (r: bool)
        ensures
            r == self.any(),
    {
        self.tabs || self.content || self.status_bar || self.hint_bar || self.overlay
    }

    /// Check if tabs region needs redraw.
    pub fn tabs_dirty(&self) -> (r: bool)
        ensures
            r == self.tabs,
    {
        self.tabs
    }

    /// Check if content region needs redraw.
    pub fn content_dirty(&self) -> (r: bool)
        ensures
            r == self.content,
    {
        self.content
    }

    /// Check if status bar needs redraw.
    pub fn status_bar_dirty(&self) -> (r: bool)
        ensures
            r == self.status_bar,
    {
        self.status_bar
    }

    /// Check if hint bar needs redraw.
    pub fn hint_bar_dirty(&self) -> (r: bool)
        ensures
            r == self.hint_bar,
    {
        self.hint_bar
    }

    /// Check if overlay needs redraw.
    pub fn overlay_dirty(&self) -> (r: bool)
        ensures
            r == self.overlay,
    {
        self.overlay
    }

    /// Mark tabs as dirty.
    pub fn mark_tabs(&mut self)
        ensures
            *final(self) == (DirtyFlags { tabs: true, ..*old(self) }),
    {
        self.tabs = true;
    }

    /// Mark content as dirty.
    pub fn mark_content(&mut self)
        ensures
            *final(self) == (DirtyFlags { content: true, ..*old(self) }),
    {
        self.content = true;
    }

    /// Mark status bar as dirty.
    pub fn mark_status_bar(&mut self)
        ensures
            *final(self) == (DirtyFlags { status_bar: true, ..*old(self) }),
    {
        self.status_bar = true;
    }

    /// Mark hint bar as dirty.
    pub fn mark_hint_bar(&mut self)
        ensures
            *final(self) == (DirtyFlags { hint_bar: true, ..*old(self) }),
    {
        self.hint_bar = true;
    }

    /// Mark overlay as dirty.
    pub fn mark_overlay(&mut self)
        ensures
            *final(self) == (DirtyFlags { overlay: true, ..*old(self) }),
    {
        self.overlay = true;
    }

    /// Clear tabs flag.
    pub fn clear_tabs(&mut self)
        ensures
            *final(self) == (DirtyFlags { tabs: false, ..*old(self) }),
    {
        self.tabs = false;
    }

    /// Clear content flag.
    pub fn clear_content(&mut self)
        ensures
            *final(self) == (DirtyFlags { content: false, ..*old(self) }),
    {
        self.content = false;
    }

    /// Clear status bar flag.
    pub fn clear_status_bar(&mut self)
        ensures
            *final(self) == (DirtyFlags { status_bar: false, ..*old(self) }),
    {
        self.status_bar = false;
    }

    /// Clear hint bar flag.
    pub fn clear_hint_bar(&mut self)
        ensures
            *final(self) == (DirtyFlags { hint_bar: false, ..*old(self) }),
    {
        self.hint_bar = false;
    }

    /// Clear overlay flag.
    pub fn clear_overlay(&mut self)
        ensures
            *final(self) == (DirtyFlags { overlay: false, ..*old(self) }),
    {
        self.overlay = false;
    }
}

impl Default for DirtyFlags {
    fn default() -> (r: Self)
        ensures
            r == DirtyFlags::clean(),
    {
        DirtyFlags::new()
    }
}

} // verus!
