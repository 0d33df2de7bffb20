use widgets::widget::{
    is_widget, Button, FlexLayout, GridLayout, Label, Layout, Size, StackLayout, Widget,
    WidgetKind, Window,
};

#[test]
fn sizes_default_to_zero_pixels() {
    assert_eq!(Size::default(), Size::Pixel(0));
    let label = Label::default();
    assert_eq!(label.get_size(), (Size::Pixel(0), Size::Pixel(0)));
    let button = Button::default();
    assert_eq!(button.get_size(), (Size::Pixel(0), Size::Pixel(0)));
}

#[test]
fn widgets_take_the_size_they_are_given() {
    let mut button = Button::default();
    button.set_size(Size::Pixel(100), Size::Pixel(100));
    assert_eq!(button.get_size(), (Size::Pixel(100), Size::Pixel(100)));

    let mut child = WidgetKind::Button(button);
    child.set_size(Size::Percent(50), Size::Pixel(20));
    assert_eq!(child.get_size(), (Size::Percent(50), Size::Pixel(20)));

    let mut flex = FlexLayout::default();
    flex.set_size(Size::Pixel(10), Size::Pixel(10));
    flex.children.push(child);
    assert_eq!(flex.get_size(), (Size::Pixel(10), Size::Pixel(10)));
    assert_eq!(flex.children.len(), 1);

    let mut grid = GridLayout::default();
    grid.set_size(Size::Percent(30), Size::Percent(40));
    assert_eq!(grid.get_size(), (Size::Percent(30), Size::Percent(40)));

    let mut stack = StackLayout::default();
    stack.set_size(Size::Pixel(1), Size::Pixel(2));
    assert_eq!(stack.get_size(), (Size::Pixel(1), Size::Pixel(2)));
}

#[test]
fn is_widget_hands_the_widget_back() {
    let label = is_widget(Label::default());
    assert_eq!(label.get_size(), (Size::Pixel(0), Size::Pixel(0)));
}

#[test]
fn default_window_has_a_flex_child_and_a_title() {
    let window = Window::default();
    assert_eq!(window.title, "My Application");
    match window.child {
        Layout::Flex(flex) => assert!(flex.children.is_empty()),
        _ => panic!("expected a flex child"),
    }
}

#[test]
fn window_extent_takes_the_numeric_value_of_each_dimension() {
    let mut window = Window::default();
    window.width = Size::Pixel(500);
    window.height = Size::Percent(60);
    assert_eq!(window.pixel_extent(), (500, 60));

    let default_layout = Layout::default();
    match default_layout {
        Layout::Stack(stack) => assert_eq!(stack.get_size(), (Size::Pixel(0), Size::Pixel(0))),
        _ => panic!("expected a stack"),
    }
}
