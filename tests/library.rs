use gphoto::camera::{read_camera_text, finish};
use gphoto::error::{check, ErrorKind};
use gphoto::media::Backing;
use gphoto::value_text::parse_int;
use gphoto::widget::{checked_value, value_shape};
use gphoto::write::{contains_nul, parse_toggle, plan_write, WriteAction};
use gphoto::{
    camera_text_to_string, Camera, CameraFile, ConfigNode, ConfigTree, Context, Error, FileMedia,
    Handle, Media, RefEvent, ValueShape, Video, Widget, WidgetType, WidgetValue,
};

fn h(id: u64) -> Handle {
    Handle { id }
}

fn node(id: u64, ty: WidgetType, children: Vec<usize>) -> ConfigNode {
    ConfigNode { handle: h(id), ty, children }
}

#[test]
fn status_codes_map_to_kinds() {
    assert!(check(0).is_ok());
    assert_eq!(check(-103).unwrap_err().kind(), ErrorKind::FileExists);
    assert_eq!(Error::from_code(-105).kind(), ErrorKind::DeviceNotFound);
    assert_eq!(Error::from_code(-52).kind(), ErrorKind::DeviceNotFound);
    assert_eq!(Error::from_code(-2).kind(), ErrorKind::BadParameters);
    assert_eq!(Error::from_code(-6).kind(), ErrorKind::NotSupported);
    assert_eq!(Error::from_code(-102).kind(), ErrorKind::CorruptedData);
    assert_eq!(Error::from_code(-110).kind(), ErrorKind::Other);
    assert_eq!(Error::from_code(-110).code(), -110);
    assert_eq!(finish(-7), Err(Error { code: -7 }));
}

#[test]
fn tags_map_to_types() {
    let expected = [
        WidgetType::Window,
        WidgetType::Section,
        WidgetType::Text,
        WidgetType::Range,
        WidgetType::Toggle,
        WidgetType::Radio,
        WidgetType::Menu,
        WidgetType::Button,
        WidgetType::Date,
    ];
    for (tag, ty) in expected.iter().enumerate() {
        assert_eq!(WidgetType::from_tag(tag as i32), Some(*ty));
    }
    assert_eq!(WidgetType::from_tag(9), None);
    assert_eq!(WidgetType::from_tag(-1), None);
}

#[test]
fn every_type_has_its_value_shape() {
    assert_eq!(value_shape(WidgetType::Menu), Some(ValueShape::Select));
    assert_eq!(value_shape(WidgetType::Radio), Some(ValueShape::Select));
    assert_eq!(value_shape(WidgetType::Range), Some(ValueShape::Range));
    assert_eq!(value_shape(WidgetType::Text), Some(ValueShape::Text));
    assert_eq!(value_shape(WidgetType::Toggle), Some(ValueShape::Number));
    assert_eq!(value_shape(WidgetType::Date), Some(ValueShape::Number));
    assert_eq!(value_shape(WidgetType::Button), None);
    assert_eq!(value_shape(WidgetType::Section), None);
    assert_eq!(value_shape(WidgetType::Window), None);
}

#[test]
fn read_value_must_match_the_type() {
    let v = checked_value(WidgetType::Date, Some(WidgetValue::Number(1700000000))).unwrap();
    assert!(matches!(v, Some(WidgetValue::Number(1700000000))));
    let bits = 1.5f32.to_bits();
    let r = checked_value(WidgetType::Range, Some(WidgetValue::Range(bits, 0, bits, bits))).unwrap();
    assert_eq!(r.unwrap().shape(), ValueShape::Range);
    let wrong = checked_value(WidgetType::Toggle, Some(WidgetValue::Text("x".to_string())));
    assert_eq!(wrong.unwrap_err().kind(), ErrorKind::CorruptedData);
    assert!(checked_value(WidgetType::Button, None).unwrap().is_none());
    assert!(checked_value(WidgetType::Text, None).is_err());
}

#[test]
fn teardown_releases_in_order() {
    let w = Widget::from_raw(h(1), h(2), h(3), h(4)).unwrap();
    assert_eq!(
        w.release_refs(),
        vec![
            RefEvent::UnrefContext(h(1)),
            RefEvent::UnrefCamera(h(2)),
            RefEvent::UnrefWidget(h(3)),
            RefEvent::UnrefWidget(h(4)),
        ]
    );
    assert_eq!(
        w.acquire_refs(),
        vec![
            RefEvent::RefContext(h(1)),
            RefEvent::RefCamera(h(2)),
            RefEvent::RefWidget(h(3)),
            RefEvent::RefWidget(h(4)),
        ]
    );
}

fn nested_tree() -> ConfigTree {
    // window(10) -> [section(11) -> [text(12), toggle(13)], date(14), section(15) -> [menu(16)]]
    ConfigTree {
        nodes: vec![
            node(10, WidgetType::Window, vec![1, 4, 5]),
            node(11, WidgetType::Section, vec![2, 3]),
            node(12, WidgetType::Text, vec![]),
            node(13, WidgetType::Toggle, vec![]),
            node(14, WidgetType::Date, vec![]),
            node(15, WidgetType::Section, vec![6]),
            node(16, WidgetType::Menu, vec![]),
        ],
    }
}

#[test]
fn flatten_keeps_leaves_in_depth_first_order() {
    assert_eq!(nested_tree().leaves(), vec![h(12), h(13), h(14), h(16)]);
}

#[test]
fn flatten_of_lone_window_is_empty() {
    let t = ConfigTree { nodes: vec![node(1, WidgetType::Window, vec![])] };
    assert!(t.leaves().is_empty());
}

#[test]
fn camera_widgets_share_context_camera_and_window() {
    let camera = Camera { handle: h(2) };
    let context = Context { handle: h(1) };
    let ws = camera.widget(&context, &nested_tree()).unwrap();
    let inner: Vec<u64> = ws.iter().map(|w| w.inner.id).collect();
    assert_eq!(inner, vec![12, 13, 14, 16]);
    for w in &ws {
        assert_eq!((w.context, w.camera, w.window), (h(1), h(2), h(10)));
    }
    let empty = ConfigTree { nodes: vec![] };
    assert_eq!(camera.widget(&context, &empty).unwrap_err().code(), -1);
}

#[test]
fn parse_int_follows_decimal_rules() {
    assert_eq!(parse_int("42"), Some(42));
    assert_eq!(parse_int("+7"), Some(7));
    assert_eq!(parse_int("-15"), Some(-15));
    assert_eq!(parse_int("007"), Some(7));
    assert_eq!(parse_int("2147483647"), Some(i32::MAX));
    assert_eq!(parse_int("-2147483648"), Some(i32::MIN));
    assert_eq!(parse_int("2147483648"), None);
    assert_eq!(parse_int("99999999999999999999"), None);
    assert_eq!(parse_int(""), None);
    assert_eq!(parse_int("-"), None);
    assert_eq!(parse_int("12a"), None);
    assert_eq!(parse_int(" 1"), None);
}

#[test]
fn toggle_words() {
    for w in ["true", "yes", "on", "1"] {
        assert_eq!(parse_toggle(w), Some(1));
    }
    for w in ["false", "no", "off", "0"] {
        assert_eq!(parse_toggle(w), Some(0));
    }
    assert_eq!(parse_toggle("maybe"), None);
    assert_eq!(parse_toggle("True"), None);
}

#[test]
fn write_plans_by_type() {
    assert!(matches!(plan_write(WidgetType::Text, true, "x"), Ok(WriteAction::Refused)));
    assert!(matches!(plan_write(WidgetType::Button, false, "x"), Ok(WriteAction::PushOnly)));
    match plan_write(WidgetType::Menu, false, "Auto") {
        Ok(WriteAction::SetText(s)) => assert_eq!(s, "Auto"),
        other => panic!("unexpected {:?}", other),
    }
    assert!(matches!(plan_write(WidgetType::Toggle, false, "on"), Ok(WriteAction::SetInt(1))));
    assert!(matches!(plan_write(WidgetType::Date, false, "1700000000"), Ok(WriteAction::SetInt(1700000000))));
    match plan_write(WidgetType::Range, false, "3.5") {
        Ok(WriteAction::SetRange(s)) => assert_eq!(s, "3.5"),
        other => panic!("unexpected {:?}", other),
    }
    assert_eq!(plan_write(WidgetType::Toggle, false, "maybe").unwrap_err().kind(), ErrorKind::BadParameters);
    assert_eq!(plan_write(WidgetType::Date, false, "now").unwrap_err().kind(), ErrorKind::BadParameters);
    assert_eq!(plan_write(WidgetType::Text, false, "a\0b").unwrap_err().kind(), ErrorKind::BadParameters);
    assert!(contains_nul("a\0"));
    assert!(!contains_nul("abc"));
}

#[test]
fn written_value_text_round_trips() {
    for n in [0i32, 1, -1, 1700000000, i32::MIN, i32::MAX] {
        let text = n.to_string();
        assert!(matches!(plan_write(WidgetType::Date, false, &text), Ok(WriteAction::SetInt(m)) if m == n));
    }
    for n in [0i32, 1] {
        assert!(matches!(plan_write(WidgetType::Toggle, false, &n.to_string()), Ok(WriteAction::SetInt(m)) if m == n));
    }
    match plan_write(WidgetType::Radio, false, "1/250") {
        Ok(WriteAction::SetText(s)) => assert_eq!(s, "1/250"),
        other => panic!("unexpected {:?}", other),
    }
}

#[test]
fn native_text_stops_at_nul() {
    assert_eq!(camera_text_to_string(b"Model: X\0garbage").unwrap(), "Model: X");
    assert_eq!(camera_text_to_string(b"no terminator").unwrap(), "no terminator");
    assert_eq!(camera_text_to_string(b"\0").unwrap(), "");
    assert_eq!(camera_text_to_string("caf\u{e9}\0".as_bytes()).unwrap(), "caf\u{e9}");
}

#[test]
fn invalid_native_text_is_corrupted_data() {
    let r = camera_text_to_string(&[0x66, 0xff, 0xfe, 0]);
    assert_eq!(r.unwrap_err().kind(), ErrorKind::CorruptedData);
    // bytes after the terminator do not matter
    assert_eq!(camera_text_to_string(&[0x61, 0, 0xff]).unwrap(), "a");
    assert_eq!(read_camera_text(0, &[0xc3, 0x28, 0]).unwrap_err().kind(), ErrorKind::CorruptedData);
    assert_eq!(read_camera_text(-6, b"text\0").unwrap_err().kind(), ErrorKind::NotSupported);
    assert_eq!(read_camera_text(0, b"text\0").unwrap(), "text");
}

#[test]
fn media_creation_outcomes() {
    assert_eq!(FileMedia::opened(-1).unwrap_err().kind(), ErrorKind::FileExists);
    assert_eq!(FileMedia::opened(5).unwrap(), 5);
    assert_eq!(FileMedia::check_path("img\0.jpg").unwrap_err().kind(), ErrorKind::BadParameters);
    assert!(FileMedia::check_path("/tmp/img.jpg").is_ok());
    let m = FileMedia::from_native(0, h(9), Backing::Memory).unwrap();
    assert_eq!(m.file_handle(), h(9));
    assert_eq!(FileMedia::from_native(-3, h(9), Backing::Disk).unwrap_err().code(), -3);
}

#[test]
fn download_names_source_and_sink() {
    let camera = Camera { handle: h(2) };
    let context = Context { handle: h(1) };
    let file = CameraFile { folder: "/store_00010001/DCIM/100CANON".to_string(), name: "IMG_0001.JPG".to_string() };
    assert_eq!(file.directory(), "/store_00010001/DCIM/100CANON");
    assert_eq!(file.basename(), "IMG_0001.JPG");
    let sink = FileMedia::from_native(0, h(7), Backing::Disk).unwrap();
    let req = camera.download(&context, &file, &sink);
    assert_eq!((req.camera, req.destination, req.context), (h(2), h(7), h(1)));
    assert_eq!(req.folder, file.folder);
    assert_eq!(req.name, file.name);
}

#[test]
fn camera_open_and_capture_outcomes() {
    let context = Context { handle: h(1) };
    assert_eq!(Camera::autodetect(&context, -105, h(0)).unwrap_err().kind(), ErrorKind::DeviceNotFound);
    let camera = Camera::autodetect(&context, 0, h(2)).unwrap();
    assert_eq!(camera.handle, h(2));
    let f = camera.capture_image(0, "/DCIM".to_string(), "a.jpg".to_string()).unwrap();
    assert_eq!(f.basename(), "a.jpg");
    assert_eq!(camera.capture_image(-110, String::new(), String::new()).unwrap_err().code(), -110);
}

#[test]
fn video_lifecycle() {
    let camera = Camera { handle: h(2) };
    let context = Context { handle: h(1) };
    let mut v = Video::new_fifo("/tmp/preview.fifo");
    assert_eq!(v.fifo_path(), "/tmp/preview.fifo");
    assert_eq!(v.fifo_fd, -1);
    assert!(!v.is_started());
    assert_eq!(v.poll(&camera, &context).unwrap_err().kind(), ErrorKind::BadParameters);
    assert_eq!(v.start(-1, 0, h(8)).unwrap_err().code(), -7);
    assert_eq!(v.start(4, -3, h(8)).unwrap_err().code(), -3);
    assert!(!v.is_started());
    v.start(4, 0, h(8)).unwrap();
    let req = v.poll(&camera, &context).unwrap();
    assert_eq!((req.camera, req.file, req.context), (h(2), h(8), h(1)));
    assert_eq!(v.stop(), Some(h(8)));
    assert_eq!(v.stop(), None);
    assert!(v.poll(&camera, &context).is_err());
}
