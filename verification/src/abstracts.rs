//! The abstract widget schema: a declarative, toolkit-agnostic description of
//! an application and its user interface.
//!
//! Values of these types form finite trees: a window may carry one content
//! widget, and a widget may itself contain a window. They are consumed
//! read-only by the bridge and the driver; cloning yields an independent deep
//! copy that is equal, field by field, to the original.

use vstd::prelude::*;

verus! {

/// Declarative description of an application: an identifier and the ordered
/// list of top-level windows to show at activation.
#[derive(Debug)]
pub struct Application {
    pub id: String,
    pub main_windows: Vec<Window>,
}

/// Declarative description of a top-level window.
///
/// `width` and `height` are non-negative; the toolkit stores window sizes in
/// a signed 32-bit type, so dimensions are expected to stay within that range
/// (see the bridge's well-formedness predicates).
#[derive(Debug)]
pub struct Window {
    pub title: String,
    pub width: u32,
    pub height: u32,
    pub content: Option<Box<Widget>>,
}

/// The closed set of abstract widget variants.
///
/// `Window` is the variant the bridge translates today. `Label` is declared
/// by the schema but has no native builder arm yet: translating it fails
/// with an `UnsupportedVariant` error.
#[derive(Debug)]
pub enum Widget {
    Window(Box<Window>),
    Label(String),
}

impl Clone for Window {
    /// Deep copy; the copy is equal to the original.
    fn clone(&self) -> (res: Self)
        ensures
            res == *self,
        decreases *self,
    {
        Window {
            title: self.title.clone(),
            width: self.width,
            height: self.height,
            content: match &self.content {
                Some(c) => Some(Box::new((&**c).clone())),
                None => None,
            },
        }
    }
}

impl Clone for Widget {
    /// Deep copy; the copy is equal to the original.
    fn clone(&self) -> (res: Self)
        ensures
            res == *self,
        decreases *self,
    {
        match self {
            Widget::Window(w) => Widget::Window(Box::new((&**w).clone())),
            Widget::Label(t) => Widget::Label(t.clone()),
        }
    }
}

impl Clone for Application {
    /// Deep copy; the copy carries the same identifier and the same window
    /// list as the original.
    fn clone(&self) -> (res: Self)
        ensures
            res.id == self.id,
            res.main_windows@ == self.main_windows@,
    {
        let res = Application {
            id: self.id.clone(),
            main_windows: self.main_windows.clone(),
        };
        proof {
            assert(res.main_windows@ =~= self.main_windows@);
        }
        res
    }
}

} // verus!
