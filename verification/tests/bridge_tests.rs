use adw_bridge::abstracts::{Widget, Window};
use adw_bridge::bridge::{BridgeError, NativeWidget, NativeWidgetBuilder};

#[test]
fn window_builder_preserves_attributes() {
    let w = Window {
        title: "Hello".to_string(),
        width: 640,
        height: 480,
        content: None,
    };
    let builder = w.native_builder().unwrap();
    let wb = builder.into_window().unwrap();
    assert_eq!(wb.title, "Hello");
    assert_eq!(wb.default_width, 640);
    assert_eq!(wb.default_height, 480);
    assert!(wb.content.is_none());
}

#[test]
fn builder_build_yields_window() {
    let w = Window {
        title: "Hello".to_string(),
        width: 640,
        height: 480,
        content: None,
    };
    let builder = w.native_builder().unwrap();
    let widget = builder.build();
    let NativeWidget::Window(nw) = widget;
    assert_eq!(nw.title, "Hello");
    assert_eq!(nw.default_width, 640);
    assert_eq!(nw.default_height, 480);
    assert!(nw.content.is_none());
}

#[test]
fn nested_window_materialized_as_content() {
    let inner = Window {
        title: "Inner".to_string(),
        width: 200,
        height: 100,
        content: None,
    };
    let outer = Window {
        title: "Outer".to_string(),
        width: 800,
        height: 600,
        content: Some(Box::new(Widget::Window(Box::new(inner)))),
    };
    let wb = outer.native_builder().unwrap().into_window().unwrap();
    assert_eq!(wb.title, "Outer");
    assert_eq!(wb.default_width, 800);
    assert_eq!(wb.default_height, 600);
    let content = wb.content.expect("content widget must be attached");
    let NativeWidget::Window(nw) = *content;
    assert_eq!(nw.title, "Inner");
    assert_eq!(nw.default_width, 200);
    assert_eq!(nw.default_height, 100);
    assert!(nw.content.is_none());
}

#[test]
fn supported_window_widget_translates() {
    let w = Widget::Window(Box::new(Window {
        title: "W".to_string(),
        width: 1,
        height: 2,
        content: None,
    }));
    let builder = w.native_builder().unwrap();
    let NativeWidgetBuilder::Window(wb) = builder;
    assert_eq!(wb.title, "W");
}

#[test]
fn label_is_unsupported() {
    let l = Widget::Label("plain text".to_string());
    let err = l.native_builder().unwrap_err();
    match err {
        BridgeError::UnsupportedVariant(node) => match node {
            Widget::Label(text) => assert_eq!(text, "plain text"),
            other => panic!("wrong offending node: {:?}", other),
        },
        other => panic!("wrong error: {:?}", other),
    }
}

#[test]
fn deep_unsupported_node_reported() {
    let outer = Window {
        title: "Outer".to_string(),
        width: 10,
        height: 10,
        content: Some(Box::new(Widget::Window(Box::new(Window {
            title: "Mid".to_string(),
            width: 5,
            height: 5,
            content: Some(Box::new(Widget::Label("oops".to_string()))),
        })))),
    };
    let err = outer.native_builder().unwrap_err();
    let rendered = format!("{:?}", err);
    assert!(rendered.contains("UnsupportedVariant"));
    assert!(rendered.contains("Label"));
    assert!(rendered.contains("oops"));
    match err {
        BridgeError::UnsupportedVariant(Widget::Label(text)) => assert_eq!(text, "oops"),
        other => panic!("wrong error: {:?}", other),
    }
}

#[test]
fn clone_translates_equal() {
    let tree = Widget::Window(Box::new(Window {
        title: "Outer".to_string(),
        width: 800,
        height: 600,
        content: Some(Box::new(Widget::Window(Box::new(Window {
            title: "Inner".to_string(),
            width: 200,
            height: 100,
            content: None,
        })))),
    }));
    let copy = tree.clone();
    let built_orig = tree.native_builder().unwrap();
    let built_copy = copy.native_builder().unwrap();
    assert_eq!(format!("{:?}", built_orig), format!("{:?}", built_copy));
}

#[test]
fn clone_preserves_fields() {
    let w = Window {
        title: "Hello".to_string(),
        width: 640,
        height: 480,
        content: Some(Box::new(Widget::Label("x".to_string()))),
    };
    let c = w.clone();
    assert_eq!(c.title, "Hello");
    assert_eq!(c.width, 640);
    assert_eq!(c.height, 480);
    match *c.content.expect("content must be cloned") {
        Widget::Label(text) => assert_eq!(text, "x"),
        other => panic!("wrong content: {:?}", other),
    }
}

#[test]
fn dims_check_rejects_oversized() {
    let ok = Window {
        title: "fits".to_string(),
        width: i32::MAX as u32,
        height: 0,
        content: None,
    };
    assert!(ok.dims_ok());
    let too_wide = Window {
        title: "wide".to_string(),
        width: u32::MAX,
        height: 10,
        content: None,
    };
    assert!(!too_wide.dims_ok());
    let deep = Window {
        title: "outer".to_string(),
        width: 10,
        height: 10,
        content: Some(Box::new(Widget::Window(Box::new(Window {
            title: "inner".to_string(),
            width: 10,
            height: u32::MAX,
            content: None,
        })))),
    };
    assert!(!deep.dims_ok());
}

#[test]
fn zero_sized_window_passes_through() {
    let w = Window {
        title: "tiny".to_string(),
        width: 0,
        height: 0,
        content: None,
    };
    let wb = w.native_builder().unwrap().into_window().unwrap();
    assert_eq!(wb.default_width, 0);
    assert_eq!(wb.default_height, 0);
}
