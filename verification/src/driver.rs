//! The application driver: owns an abstract application description and
//! decides what the native toolkit must do when the application activates.
//!
//! The decisions are returned as a plan of plain values: the application
//! identifier to register, the chrome to construct, and the native windows
//! to build and show, in declared order. An unverified shell executes the
//! plan against the real toolkit: it registers the activation callback,
//! performs the toolkit calls, and blocks inside the toolkit's run loop.

use vstd::prelude::*;
use crate::abstracts::Application;
use crate::bridge::{
    BridgeError, NativeWindow, spec_shown_window, window_content_supported, window_dims_ok,
    window_offending,
};

verus! {

/// Orientation of a box container.
#[derive(Debug)]
pub enum BoxOrientation {
    Horizontal,
    Vertical,
}

/// Plan for the demo action row inside the chrome list: activatable, titled,
/// and wired to emit a diagnostic on each activation.
#[derive(Debug)]
pub struct RowPlan {
    pub activatable: bool,
    pub title: String,
    /// The diagnostic the shell emits to the error stream, once per click.
    pub activation_message: String,
}

/// Plan for the chrome list box: a styled list holding the demo rows.
#[derive(Debug)]
pub struct ListPlan {
    pub margin_top: i32,
    pub margin_end: i32,
    pub margin_bottom: i32,
    pub margin_start: i32,
    pub selection_none: bool,
    pub css_classes: Vec<String>,
    pub rows: Vec<RowPlan>,
}

/// Plan for the chrome attached around every window's primary content: a
/// box holding a header bar and the demo list.
#[derive(Debug)]
pub struct ChromePlan {
    pub orientation: BoxOrientation,
    pub spacing: i32,
    pub has_header_bar: bool,
    pub list: ListPlan,
}

/// What the chrome looks like: a vertical box with no spacing, a header bar,
/// and a "boxed-list" styled list without selection, whose single activatable
/// row is titled "Click me" and emits "Clicked!" when activated.
pub open spec fn chrome_plan_ok(c: ChromePlan) -> bool {
    &&& c.orientation is Vertical
    &&& c.spacing == 0
    &&& c.has_header_bar
    &&& c.list.margin_top == 32
    &&& c.list.margin_end == 32
    &&& c.list.margin_bottom == 32
    &&& c.list.margin_start == 32
    &&& c.list.selection_none
    &&& c.list.css_classes@.len() == 1
    &&& c.list.css_classes@[0]@ == "boxed-list"@
    &&& c.list.rows@.len() == 1
    &&& c.list.rows@[0].activatable
    &&& c.list.rows@[0].title@ == "Click me"@
    &&& c.list.rows@[0].activation_message@ == "Clicked!"@
}

/// Build the chrome plan the driver attaches to every main window.
pub fn chrome_plan() -> (c: ChromePlan)
    ensures
        chrome_plan_ok(c),
{
    let mut css: Vec<String> = Vec::new();
    css.push("boxed-list".to_owned());
    let mut rows: Vec<RowPlan> = Vec::new();
    rows.push(RowPlan {
        activatable: true,
        title: "Click me".to_owned(),
        activation_message: "Clicked!".to_owned(),
    });
    ChromePlan {
        orientation: BoxOrientation::Vertical,
        spacing: 0,
        has_header_bar: true,
        list: ListPlan {
            margin_top: 32,
            margin_end: 32,
            margin_bottom: 32,
            margin_start: 32,
            selection_none: true,
            css_classes: css,
            rows,
        },
    }
}

/// Every window of the application fits the toolkit's widget-size type.
pub open spec fn app_dims_ok(a: Application) -> bool {
    forall|i: int|
        0 <= i < a.main_windows@.len() ==> window_dims_ok(#[trigger] a.main_windows@[i])
}

/// Every window of the application has translatable content.
pub open spec fn app_supported(a: Application) -> bool {
    forall|i: int|
        0 <= i < a.main_windows@.len() ==> window_content_supported(
            #[trigger] a.main_windows@[i],
        )
}

/// The ordered outcome of one activation: the identifier to register the
/// native application under, the chrome, and the native windows to build
/// and show, in declared order.
///
/// The chrome is constructed once per activation and attached to every main
/// window, exactly as the activation callback does. With more than one
/// window, attaching one widget instance to several parents is not something
/// most toolkits permit, so a shell may instead build one chrome per window
/// from this same plan.
#[derive(Debug)]
pub struct ActivationPlan {
    pub application_id: String,
    pub chrome: ChromePlan,
    pub windows: Vec<NativeWindow>,
}

/// The application driver. It owns the abstract description; the shell asks
/// it for the activation plan and performs the toolkit work.
pub struct NativeApplication {
    pub abst: Application,
}

impl NativeApplication {
    /// Capture the abstract application description by owned value.
    pub fn new(abst: Application) -> (r: NativeApplication)
        ensures
            r.abst == abst,
    {
        NativeApplication { abst }
    }

    /// Check that every window in the description fits the toolkit's
    /// widget-size type, as `activation_plan` requires.
    pub fn dims_ok(&self) -> (b: bool)
        ensures
            b == app_dims_ok(self.abst),
    {
        let mut i: usize = 0;
        while i < self.abst.main_windows.len()
            invariant
                i <= self.abst.main_windows@.len(),
                forall|j: int| 0 <= j < i ==> window_dims_ok(#[trigger] self.abst.main_windows@[j]),
            decreases self.abst.main_windows@.len() - i,
        {
            if !self.abst.main_windows[i].dims_ok() {
                return false;
            }
            i += 1;
        }
        true
    }

    /// Decide one activation: walk the main windows in declared order,
    /// translate each through the bridge, extract the window builder,
    /// finalize it, and collect the finalized windows in show order, next
    /// to the chrome and the fixed application identifier.
    ///
    /// Translation failures are fatal by design: the first window with
    /// unsupported content stops the walk and its offending node is
    /// reported.
    pub fn activation_plan(&self) -> (r: Result<ActivationPlan, BridgeError>)
        requires
            app_dims_ok(self.abst),
        ensures
            r is Ok <==> app_supported(self.abst),
            r matches Ok(plan) ==> {
                &&& plan.application_id@ == "com.example.FirstAdwaitaApp"@
                &&& chrome_plan_ok(plan.chrome)
                &&& plan.windows@.len() == self.abst.main_windows@.len()
                &&& forall|j: int|
                    0 <= j < plan.windows@.len() ==> (#[trigger] plan.windows@[j])@
                        == spec_shown_window(self.abst.main_windows@[j])
            },
            r matches Err(e) ==> exists|j: int|
                {
                    &&& 0 <= j < self.abst.main_windows@.len()
                    &&& !window_content_supported(#[trigger] self.abst.main_windows@[j])
                    &&& forall|k: int|
                        0 <= k < j ==> window_content_supported(
                            #[trigger] self.abst.main_windows@[k],
                        )
                    &&& e == BridgeError::UnsupportedVariant(
                        window_offending(self.abst.main_windows@[j]),
                    )
                },
    {
        let chrome = chrome_plan();
        let mut windows: Vec<NativeWindow> = Vec::new();
        let mut i: usize = 0;
        while i < self.abst.main_windows.len()
            invariant
                i <= self.abst.main_windows@.len(),
                windows@.len() == i,
                app_dims_ok(self.abst),
                chrome_plan_ok(chrome),
                forall|j: int|
                    0 <= j < i ==> window_content_supported(#[trigger] self.abst.main_windows@[j]),
                forall|j: int|
                    0 <= j < i ==> (#[trigger] windows@[j])@
                        == spec_shown_window(self.abst.main_windows@[j]),
            decreases self.abst.main_windows@.len() - i,
        {
            let w = &self.abst.main_windows[i];
            let nb = match w.native_builder() {
                Ok(nb) => nb,
                Err(e) => {
                    return Err(e);
                },
            };
            let wb = match nb.into_window() {
                Ok(wb) => wb,
                Err(e) => {
                    return Err(e);
                },
            };
            windows.push(wb.build());
            i += 1;
        }
        Ok(ActivationPlan {
            application_id: "com.example.FirstAdwaitaApp".to_owned(),
            chrome,
            windows,
        })
    }
}

} // verus!
