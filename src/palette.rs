use vstd::prelude::*;

verus! {

/// What a collapsible section emits when its header toggle is switched.
#[derive(Clone, Copy, Debug, PartialEq, Eq, Structural)]
pub enum Signal {
    Expand,
    Fold,
}

/// A collapsible section: a labelled toggle above a body that is shown only
/// while the section is expanded.
pub struct Palette {
    pub label: String,
    pub active: bool,
    pub expanded: bool,
}

impl Palette {
    /// A folded section with an empty label and its toggle off.
    pub fn new() -> (r: Palette)
        ensures
            r.label@.len() == 0,
            !r.active,
            !r.expanded,
    {
        Palette { label: String::new(), active: false, expanded: false }
    }

    pub fn set_label(&mut self, label: &str)
        ensures
            final(self).label@ == label@,
            final(self).active == old(self).active,
            final(self).expanded == old(self).expanded,
    {
        self.label = label.to_owned();
    }

    /// Whether the header toggle is on.
    pub fn get_active(&self) -> (r: bool)
        ensures
            r == self.active,
    {
        self.active
    }

    /// The toggle switched to `active`: records it and returns the signal
    /// the section emits, `Expand` when switched on and `Fold` when off.
    pub fn toggled(&mut self, active: bool) -> (r: Signal)
        ensures
            final(self).active == active,
            r == (if active { Signal::Expand } else { Signal::Fold }),
            final(self).label@ == old(self).label@,
            final(self).expanded == old(self).expanded,
    {
        self.active = active;
        if active {
            Signal::Expand
        } else {
            Signal::Fold
        }
    }

    /// Shows the body on `Expand` and hides it on `Fold`.
    pub fn update(&mut self, s: Signal)
        ensures
            final(self).expanded == (s == Signal::Expand),
            final(self).label@ == old(self).label@,
            final(self).active == old(self).active,
    {
        match s {
            Signal::Expand => self.expanded = true,
            Signal::Fold => self.expanded = false,
        }
    }
}

} // verus!
