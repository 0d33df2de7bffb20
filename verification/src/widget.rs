//! Declarative widget scaffolding: sizes, leaf widgets, containers and
//! the top-level widget window.
//!
//! Layout passes are not implemented yet; what is here is the data model
//! (sizes in whole pixels or percent), uniform size access through the
//! [`Widget`] trait, and the extraction of the pixel extent a widget
//! window asks of the platform.

use vstd::prelude::*;

verus! {

/// A widget dimension: absolute pixels or percent of the parent.
#[derive(Clone, Copy, Debug, PartialEq, Eq, Structural)]
pub enum Size {
    Pixel(u32),
    Percent(u32),
}

impl Default for Size {
    /// The default dimension: zero pixels.
    fn default() -> (size: Self)
        ensures
            size == Size::Pixel(0u32),
    {
        Size::Pixel(0)
    }
}

/// Anything with a width and a height that can be drawn.
pub trait Widget: Sized {
    /// The widget's current (width, height).
    spec fn spec_size(&self) -> (Size, Size);

    /// Read the widget's (width, height).
    fn get_size(&self) -> (size: (Size, Size))
        ensures
            size == self.spec_size(),
    ;

    /// Give the widget a new width and height.
    fn set_size(&mut self, width: Size, height: Size)
        ensures
            final(self).spec_size() == (width, height),
    ;

    /// Draw the widget.  Every current widget draws nothing yet.
    fn render(self);
}

/// Guard that a value is a widget, handing it back unchanged.
pub fn is_widget<T: Widget>(widget: T) -> (w: T)
    ensures
        w == widget,
{
    widget
}

/// A text label.
#[derive(Clone, Copy, Debug)]
pub struct Label {
    pub width: Size,
    pub height: Size,
}

impl Default for Label {
    /// A label of zero size.
    fn default() -> (label: Self)
        ensures
            label.width == Size::Pixel(0u32),
            label.height == Size::Pixel(0u32),
    {
        Label { width: Size::Pixel(0), height: Size::Pixel(0) }
    }
}

impl Widget for Label {
    open spec fn spec_size(&self) -> (Size, Size) {
        (self.width, self.height)
    }

    fn get_size(&self) -> (size: (Size, Size)) {
        (self.width, self.height)
    }

    fn set_size(&mut self, width: Size, height: Size) {
        self.width = width;
        self.height = height;
    }

    fn render(self) {
    }
}

/// A push button.
#[derive(Clone, Copy, Debug)]
pub struct Button {
    pub width: Size,
    pub height: Size,
}

impl Default for Button {
    /// A button of zero size.
    fn default() -> (button: Self)
        ensures
            button.width == Size::Pixel(0u32),
            button.height == Size::Pixel(0u32),
    {
        Button { width: Size::Pixel(0), height: Size::Pixel(0) }
    }
}

impl Widget for Button {
    open spec fn spec_size(&self) -> (Size, Size) {
        (self.width, self.height)
    }

    fn get_size(&self) -> (size: (Size, Size)) {
        (self.width, self.height)
    }

    fn set_size(&mut self, width: Size, height: Size) {
        self.width = width;
        self.height = height;
    }

    fn render(self) {
    }
}

/// One leaf widget of any kind, so containers can hold a mixed list of
/// children by value.
#[derive(Clone, Copy, Debug)]
pub enum WidgetKind {
    Label(Label),
    Button(Button),
}

impl Widget for WidgetKind {
    open spec fn spec_size(&self) -> (Size, Size) {
        match *self {
            WidgetKind::Label(label) => label.spec_size(),
            WidgetKind::Button(button) => button.spec_size(),
        }
    }

    fn get_size(&self) -> (size: (Size, Size)) {
        match self {
            WidgetKind::Label(label) => label.get_size(),
            WidgetKind::Button(button) => button.get_size(),
        }
    }

    fn set_size(&mut self, width: Size, height: Size) {
        match self {
            WidgetKind::Label(label) => label.set_size(width, height),
            WidgetKind::Button(button) => button.set_size(width, height),
        }
    }

    fn render(self) {
        match self {
            WidgetKind::Label(label) => label.render(),
            WidgetKind::Button(button) => button.render(),
        }
    }
}

/// An ordered list of child widgets.
pub type Widgets = Vec<WidgetKind>;

/// A container that lays out its children on a flexible axis.  The
/// layout pass itself is not implemented yet.
#[derive(Debug)]
pub struct FlexLayout {
    pub width: Size,
    pub height: Size,
    pub children: Widgets,
}

impl Default for FlexLayout {
    /// A flex container of zero size with no children.
    fn default() -> (layout: Self)
        ensures
            layout.width == Size::Pixel(0u32),
            layout.height == Size::Pixel(0u32),
            layout.children@.len() == 0,
    {
        FlexLayout { width: Size::Pixel(0), height: Size::Pixel(0), children: Vec::new() }
    }
}

/// A container that lays out its children on a grid.  The layout pass
/// itself is not implemented yet.
#[derive(Clone, Copy, Debug)]
pub struct GridLayout {
    pub width: Size,
    pub height: Size,
}

impl Default for GridLayout {
    /// A grid container of zero size.
    fn default() -> (layout: Self)
        ensures
            layout.width == Size::Pixel(0u32),
            layout.height == Size::Pixel(0u32),
    {
        GridLayout { width: Size::Pixel(0), height: Size::Pixel(0) }
    }
}

/// A container that stacks its children.  The layout pass itself is not
/// implemented yet.
#[derive(Clone, Copy, Debug)]
pub struct StackLayout {
    pub width: Size,
    pub height: Size,
}

impl Default for StackLayout {
    /// A stack container of zero size.
    fn default() -> (layout: Self)
        ensures
            layout.width == Size::Pixel(0u32),
            layout.height == Size::Pixel(0u32),
    {
        StackLayout { width: Size::Pixel(0), height: Size::Pixel(0) }
    }
}

impl Widget for FlexLayout {
    open spec fn spec_size(&self) -> (Size, Size) {
        (self.width, self.height)
    }

    fn get_size(&self) -> (size: (Size, Size)) {
        (self.width, self.height)
    }

    fn set_size(&mut self, width: Size, height: Size) {
        self.width = width;
        self.height = height;
    }

    fn render(self) {
    }
}

impl Widget for GridLayout {
    open spec fn spec_size(&self) -> (Size, Size) {
        (self.width, self.height)
    }

    fn get_size(&self) -> (size: (Size, Size)) {
        (self.width, self.height)
    }

    fn set_size(&mut self, width: Size, height: Size) {
        self.width = width;
        self.height = height;
    }

    fn render(self) {
    }
}

impl Widget for StackLayout {
    open spec fn spec_size(&self) -> (Size, Size) {
        (self.width, self.height)
    }

    fn get_size(&self) -> (size: (Size, Size)) {
        (self.width, self.height)
    }

    fn set_size(&mut self, width: Size, height: Size) {
        self.width = width;
        self.height = height;
    }

    fn render(self) {
    }
}

/// A widget that can hold children.
pub trait Container: Widget {

}

impl Container for FlexLayout {

}

impl Container for GridLayout {

}

impl Container for StackLayout {

}

/// One container of any kind, so a window can hold its child by value.
#[derive(Debug)]
pub enum Layout {
    Flex(FlexLayout),
    Grid(GridLayout),
    Stack(StackLayout),
}

impl Default for Layout {
    /// The default container: an empty stack.
    fn default() -> (layout: Self)
        ensures
            layout matches Layout::Stack(stack) && stack.width == Size::Pixel(0u32)
                && stack.height == Size::Pixel(0u32),
    {
        Layout::Stack(StackLayout { width: Size::Pixel(0), height: Size::Pixel(0) })
    }
}

/// The top-level widget: a window with a title and one container child.
#[derive(Debug)]
pub struct Window {
    pub width: Size,
    pub height: Size,
    pub title: &'static str,
    pub child: Layout,
}

impl Default for Window {
    /// A window of zero size with a default title and an empty flex
    /// child.
    fn default() -> (window: Self)
        ensures
            window.width == Size::Pixel(0u32),
            window.height == Size::Pixel(0u32),
            window.title@ == "My Application"@,
            window.child matches Layout::Flex(flex) && flex.children@.len() == 0,
    {
        Window {
            width: Size::Pixel(0),
            height: Size::Pixel(0),
            title: "My Application",
            child: Layout::Flex(FlexLayout {
                width: Size::Pixel(0),
                height: Size::Pixel(0),
                children: Vec::new(),
            }),
        }
    }
}

impl Window {
    /// The extent, in pixels, this window asks of the platform: the
    /// numeric value of each dimension, whatever its unit.  (A percent
    /// dimension has no parent to be relative to here, so its number is
    /// taken as pixels.)
    pub fn pixel_extent(&self) -> (extent: (u32, u32))
        ensures
            extent.0 == (match self.width {
                Size::Pixel(n) => n,
                Size::Percent(n) => n,
            }),
            extent.1 == (match self.height {
                Size::Pixel(n) => n,
                Size::Percent(n) => n,
            }),
    {
        let width = match self.width {
            Size::Pixel(n) => n,
            Size::Percent(n) => n,
        };
        let height = match self.height {
            Size::Pixel(n) => n,
            Size::Percent(n) => n,
        };
        (width, height)
    }
}

} // verus!
