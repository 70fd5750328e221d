//! The native builder bridge: translates abstract widget trees into tagged
//! native builder values.
//!
//! The builder and widget types here are the library's model of the toolkit
//! objects: plain values carrying exactly the attributes the translation
//! sets. An unverified shell turns them into real toolkit widgets; the
//! translation itself — which attributes are set, how content is
//! materialized and attached, and when translation fails — is decided and
//! proved here.

use vstd::prelude::*;
use crate::abstracts::{Widget, Window};

verus! {

/// A configured, not yet finalized native window: title, default size, and
/// the materialized content widget, if any.
#[derive(Debug)]
pub struct WindowBuilder {
    pub title: String,
    pub default_width: i32,
    pub default_height: i32,
    pub content: Option<Box<NativeWidget>>,
}

/// Tagged union of native builder values, one arm per supported widget
/// variant. A builder is single-use: `build` consumes it and yields exactly
/// one native widget.
#[derive(Debug)]
pub enum NativeWidgetBuilder {
    Window(WindowBuilder),
}

/// A finalized native window, as realized by the toolkit.
#[derive(Debug)]
pub struct NativeWindow {
    pub title: String,
    pub default_width: i32,
    pub default_height: i32,
    pub content: Option<Box<NativeWidget>>,
}

/// A finalized native widget.
#[derive(Debug)]
pub enum NativeWidget {
    Window(NativeWindow),
}

/// Translation failures. They indicate a structural mismatch between the
/// schema and the bridge and are fatal by design.
#[derive(Debug)]
pub enum BridgeError {
    /// The abstract widget variant has no native builder arm; carries the
    /// offending node.
    UnsupportedVariant(Widget),
    /// A builder of an unexpected shape was handed to the driver.
    BuilderShapeMismatch,
}

// ----- mathematical models of the native values -----

/// Model of a configured window builder.
#[verifier::ext_equal]
pub struct WindowBuilderView {
    pub title: Seq<char>,
    pub default_width: int,
    pub default_height: int,
    /// Empty for no content, a singleton for an attached content widget.
    pub content: Seq<NativeWidgetView>,
}

/// Model of a native builder value.
#[verifier::ext_equal]
pub enum NativeBuilderView {
    Window(WindowBuilderView),
}

/// Model of a finalized native window.
#[verifier::ext_equal]
pub struct NativeWindowView {
    pub title: Seq<char>,
    pub default_width: int,
    pub default_height: int,
    /// Empty for no content, a singleton for an attached content widget.
    pub content: Seq<NativeWidgetView>,
}

/// Model of a finalized native widget.
#[verifier::ext_equal]
pub enum NativeWidgetView {
    Window(NativeWindowView),
}

pub open spec fn view_native_window(w: NativeWindow) -> NativeWindowView
    decreases w,
{
    NativeWindowView {
        title: w.title@,
        default_width: w.default_width as int,
        default_height: w.default_height as int,
        content: match w.content {
            Some(c) => seq![view_native_widget(*c)],
            None => Seq::empty(),
        },
    }
}

pub open spec fn view_native_widget(w: NativeWidget) -> NativeWidgetView
    decreases w,
{
    match w {
        NativeWidget::Window(win) => NativeWidgetView::Window(view_native_window(win)),
    }
}

pub open spec fn view_window_builder(b: WindowBuilder) -> WindowBuilderView
    decreases b,
{
    WindowBuilderView {
        title: b.title@,
        default_width: b.default_width as int,
        default_height: b.default_height as int,
        content: match b.content {
            Some(c) => seq![view_native_widget(*c)],
            None => Seq::empty(),
        },
    }
}

impl View for NativeWindow {
    type V = NativeWindowView;

    open spec fn view(&self) -> NativeWindowView {
        view_native_window(*self)
    }
}

impl View for NativeWidget {
    type V = NativeWidgetView;

    open spec fn view(&self) -> NativeWidgetView {
        view_native_widget(*self)
    }
}

impl View for WindowBuilder {
    type V = WindowBuilderView;

    open spec fn view(&self) -> WindowBuilderView {
        view_window_builder(*self)
    }
}

impl View for NativeWidgetBuilder {
    type V = NativeBuilderView;

    open spec fn view(&self) -> NativeBuilderView {
        match *self {
            NativeWidgetBuilder::Window(wb) => NativeBuilderView::Window(view_window_builder(wb)),
        }
    }
}

// ----- which abstract trees the bridge covers -----

/// A widget is supported when every variant in its tree has a builder arm.
pub open spec fn widget_supported(w: Widget) -> bool
    decreases w,
{
    match w {
        Widget::Window(win) => window_content_supported(*win),
        Widget::Label(_) => false,
    }
}

/// A window is translatable when its content, if any, is supported.
pub open spec fn window_content_supported(w: Window) -> bool
    decreases w,
{
    match w.content {
        Some(c) => widget_supported(*c),
        None => true,
    }
}

/// The first node, in depth order, whose variant has no builder arm.
pub open spec fn widget_offending(w: Widget) -> Widget
    recommends
        !widget_supported(w),
    decreases w,
{
    match w {
        Widget::Window(win) => match (*win).content {
            Some(c) => widget_offending(*c),
            None => w,
        },
        Widget::Label(_) => w,
    }
}

/// The first node in a window's content with no builder arm.
pub open spec fn window_offending(w: Window) -> Widget
    recommends
        !window_content_supported(w),
{
    match w.content {
        Some(c) => widget_offending(*c),
        None => arbitrary(),
    }
}

/// Every dimension in the window's tree fits the toolkit's signed 32-bit
/// widget-size type.
pub open spec fn window_dims_ok(w: Window) -> bool
    decreases w,
{
    &&& w.width as int <= i32::MAX as int
    &&& w.height as int <= i32::MAX as int
    &&& match w.content {
        Some(c) => widget_dims_ok(*c),
        None => true,
    }
}

/// Every dimension in the widget's tree fits the toolkit's signed 32-bit
/// widget-size type.
pub open spec fn widget_dims_ok(w: Widget) -> bool
    decreases w,
{
    match w {
        Widget::Window(win) => window_dims_ok(*win),
        Widget::Label(_) => true,
    }
}

// ----- the translation, as a mathematical function -----

/// The builder a window translates to: its title, its size, and, when
/// content is declared, the finalized translation of that content.
pub open spec fn spec_window_builder(w: Window) -> WindowBuilderView
    decreases w,
{
    WindowBuilderView {
        title: w.title@,
        default_width: w.width as int,
        default_height: w.height as int,
        content: match w.content {
            Some(c) => seq![spec_build(spec_widget_builder(*c))],
            None => Seq::empty(),
        },
    }
}

/// The builder a supported widget translates to.
pub open spec fn spec_widget_builder(w: Widget) -> NativeBuilderView
    recommends
        widget_supported(w),
    decreases w,
{
    match w {
        Widget::Window(win) => NativeBuilderView::Window(spec_window_builder(*win)),
        Widget::Label(_) => arbitrary(),
    }
}

/// Finalizing a window builder yields a window with the same attributes.
pub open spec fn spec_finalize(b: WindowBuilderView) -> NativeWindowView {
    NativeWindowView {
        title: b.title,
        default_width: b.default_width,
        default_height: b.default_height,
        content: b.content,
    }
}

/// Finalizing any builder yields the widget its arm describes.
pub open spec fn spec_build(b: NativeBuilderView) -> NativeWidgetView {
    match b {
        NativeBuilderView::Window(wb) => NativeWidgetView::Window(spec_finalize(wb)),
    }
}

/// The native window a declared window ends up shown as.
pub open spec fn spec_shown_window(w: Window) -> NativeWindowView {
    spec_finalize(spec_window_builder(w))
}

// ----- the translation, executable and proved -----

impl Window {
    /// Translate this window into a native window builder: set the title and
    /// the default size and, if content is declared, materialize the content
    /// widget first and attach it.
    pub fn native_builder(&self) -> (r: Result<NativeWidgetBuilder, BridgeError>)
        requires
            window_dims_ok(*self),
        ensures
            r is Ok <==> window_content_supported(*self),
            r matches Ok(b) ==> b@ == NativeBuilderView::Window(spec_window_builder(*self)),
            r matches Err(e) ==> e == BridgeError::UnsupportedVariant(window_offending(*self)),
        decreases *self,
    {
        let content: Option<Box<NativeWidget>> = match &self.content {
            Some(c) => {
                let child = match (&**c).native_builder() {
                    Ok(b) => b,
                    Err(e) => {
                        return Err(e);
                    },
                };
                Some(Box::new(child.build()))
            },
            None => None,
        };
        Ok(NativeWidgetBuilder::Window(WindowBuilder {
            title: self.title.clone(),
            default_width: self.width as i32,
            default_height: self.height as i32,
            content,
        }))
    }

    /// Check that every dimension in this window's tree fits the toolkit's
    /// signed 32-bit widget-size type.
    pub fn dims_ok(&self) -> (b: bool)
        ensures
            b == window_dims_ok(*self),
        decreases *self,
    {
        if self.width > i32::MAX as u32 || self.height > i32::MAX as u32 {
            return false;
        }
        match &self.content {
            Some(c) => (&**c).dims_ok(),
            None => true,
        }
    }
}

impl Widget {
    /// Dispatch on the widget variant and delegate to that variant's builder
    /// arm. A variant with no arm yet is rejected with `UnsupportedVariant`
    /// carrying the offending node.
    pub fn native_builder(&self) -> (r: Result<NativeWidgetBuilder, BridgeError>)
        requires
            widget_dims_ok(*self),
        ensures
            r is Ok <==> widget_supported(*self),
            r matches Ok(b) ==> b@ == spec_widget_builder(*self),
            r matches Err(e) ==> e == BridgeError::UnsupportedVariant(widget_offending(*self)),
        decreases *self,
    {
        match self {
            Widget::Window(win) => (&**win).native_builder(),
            Widget::Label(_) => Err(BridgeError::UnsupportedVariant(self.clone())),
        }
    }

    /// Check that every dimension in this widget's tree fits the toolkit's
    /// signed 32-bit widget-size type.
    pub fn dims_ok(&self) -> (b: bool)
        ensures
            b == widget_dims_ok(*self),
        decreases *self,
    {
        match self {
            Widget::Window(w) => (&**w).dims_ok(),
            Widget::Label(_) => true,
        }
    }
}

impl NativeWidgetBuilder {
    /// Consume the builder and finalize it into a native widget carrying the
    /// builder's attributes.
    pub fn build(self) -> (r: NativeWidget)
        ensures
            r@ == spec_build(self@),
    {
        match self {
            NativeWidgetBuilder::Window(wb) => NativeWidget::Window(wb.build()),
        }
    }

    /// Extract the window arm. The driver expects a window-shaped builder
    /// for every main window; any other shape would be a
    /// `BuilderShapeMismatch` (with `Window` the only arm today, extraction
    /// always succeeds).
    pub fn into_window(self) -> (r: Result<WindowBuilder, BridgeError>)
        ensures
            r is Ok,
            self matches NativeWidgetBuilder::Window(wb) ==> r == Ok::<WindowBuilder, BridgeError>(wb),
    {
        match self {
            NativeWidgetBuilder::Window(wb) => Ok(wb),
        }
    }
}

impl WindowBuilder {
    /// Finalize the window builder into a native window carrying its
    /// attributes.
    pub fn build(self) -> (r: NativeWindow)
        ensures
            r@ == spec_finalize(self@),
    {
        NativeWindow {
            title: self.title,
            default_width: self.default_width,
            default_height: self.default_height,
            content: self.content,
        }
    }
}

// ----- laws of the translation -----

/// Attribute preservation: a translated and finalized window reports the
/// declared title and the declared default size.
pub proof fn lemma_window_attribute_preservation(w: Window)
    ensures
        spec_shown_window(w).title == w.title@,
        spec_shown_window(w).default_width == w.width as int,
        spec_shown_window(w).default_height == w.height as int,
{
}

/// Content attachment: the translated window carries the finalized
/// translation of its declared content exactly when content is declared.
pub proof fn lemma_content_attachment(w: Window)
    ensures
        w.content matches Some(c) ==> spec_shown_window(w).content
            == seq![spec_build(spec_widget_builder(*c))],
        w.content is None ==> spec_shown_window(w).content == Seq::<NativeWidgetView>::empty(),
{
}

/// Idempotent translation on clones: a widget tree and any deep clone of it
/// translate to equal native builder models, and one is supported exactly
/// when the other is.
pub proof fn lemma_clone_translates_alike(w: Widget, c: Widget)
    requires
        vstd::pervasive::cloned::<Widget>(w, c),
    ensures
        widget_supported(c) == widget_supported(w),
        spec_widget_builder(c) == spec_widget_builder(w),
{
    assert(c == w);
}

} // verus!
