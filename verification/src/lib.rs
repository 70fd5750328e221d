//! A thin adapter that maps an abstract, toolkit-agnostic description of a
//! desktop application (applications, windows, widgets) onto plans for a
//! native Adwaita/GTK widget toolkit.
//!
//! The [`abstracts`] module holds the declarative schema: an application with
//! an ordered list of windows, each window carrying a title, a size and an
//! optional content widget. The [`bridge`] module translates abstract widget
//! trees into native builder values, and the [`driver`] module walks an
//! abstract application and produces the activation plan that an unverified
//! shell executes against the real toolkit: which windows to build, with
//! which attributes and chrome, and in which order to show them.

use vstd::prelude::*;

pub mod abstracts;
pub mod bridge;
pub mod driver;

verus! {

/// Sum of two sizes.
pub fn add(left: usize, right: usize) -> (r: usize)
    requires
        left + right <= usize::MAX,
    ensures
        r == left + right,
{
    left + right
}

} // verus!
