use image_watcher::config::{decimal_text, parse_config};
use image_watcher::{ConfigEntry, ConfigValue, Resize, ResizeFilter, Size};

fn text(s: &str) -> ConfigValue {
    ConfigValue::Text(s.to_string())
}

fn entry(k: &str, v: ConfigValue) -> ConfigEntry {
    ConfigEntry { key: text(k), value: v }
}

fn root_with(files: Vec<ConfigValue>, shared: Vec<ConfigEntry>) -> ConfigValue {
    let mut t = vec![entry("files", ConfigValue::List(files))];
    t.extend(shared);
    ConfigValue::Table(t)
}

fn error_of(root: ConfigValue) -> String {
    match parse_config(&root) {
        Err(e) => e,
        Ok(_) => panic!("expected an error"),
    }
}

#[test]
fn reads_files_and_shared_settings() {
    let file = ConfigValue::Table(vec![
        entry("path", text("img/a.png")),
        entry("width", ConfigValue::Integer(100)),
        entry("blur", ConfigValue::Real(Some(1.5f32.to_bits()))),
        entry("flipv", ConfigValue::Boolean(true)),
        entry("resize_filter", text("Lanczos3")),
    ]);
    let other = ConfigValue::Table(vec![
        entry("path", text("b.jpg")),
        entry("output", text("out/b.jpg")),
        entry("height", ConfigValue::Integer(20)),
        entry("width", ConfigValue::Integer(30)),
    ]);
    let root = root_with(
        vec![file, other],
        vec![entry("grayscale", ConfigValue::Boolean(true)), entry("brighten", ConfigValue::Integer(-3))],
    );
    let s = parse_config(&root).unwrap();
    assert_eq!(s.files_list.len(), 2);
    let a = &s.files_list[0];
    assert_eq!(a.path, "img/a.png");
    assert_eq!(a.output, "img/a.min.png");
    assert_eq!(a.other.jobs.resize, Some(Resize { size: Size::Width(100) }));
    assert_eq!(a.other.jobs.blur, Some(1.5f32.to_bits()));
    assert!(a.other.jobs.flipv);
    assert_eq!(a.other.resize_filter, Some(ResizeFilter::Lanczos3));
    let b = &s.files_list[1];
    assert_eq!(b.output, "out/b.jpg");
    assert_eq!(b.other.jobs.resize, Some(Resize { size: Size::WidthHeight(30, 20) }));
    assert!(!b.other.jobs.flipv);
    assert!(s.other.jobs.grayscale);
    assert_eq!(s.other.jobs.brighten, Some(-3));
    assert_eq!(s.other.resize_filter, None);
}

#[test]
fn document_shape_errors() {
    assert_eq!(error_of(ConfigValue::List(vec![])), "Base of the file not a hash.");
    assert_eq!(error_of(ConfigValue::Table(vec![])), "No files section in config file.");
    assert_eq!(
        error_of(ConfigValue::Table(vec![entry("files", text("x"))])),
        "Files section in config is not a list."
    );
    let ok = ConfigValue::Table(vec![entry("path", text("a.png"))]);
    assert_eq!(
        error_of(root_with(vec![ok, ConfigValue::Integer(1)], vec![])),
        "file index 1 is not a hash"
    );
}

#[test]
fn file_entry_errors() {
    let no_path = ConfigValue::Table(vec![]);
    assert_eq!(error_of(root_with(vec![no_path], vec![])), "file index 0 has no path");
    let bad_path = ConfigValue::Table(vec![entry("path", ConfigValue::Integer(3))]);
    assert_eq!(
        error_of(root_with(vec![bad_path], vec![])),
        "file index 0 has a path that is not a string"
    );
    let bad_output = ConfigValue::Table(vec![entry("path", text("a.png")), entry("output", ConfigValue::Other)]);
    assert_eq!(
        error_of(root_with(vec![bad_output], vec![])),
        "file index 0 has a output path that is not a string"
    );
    let no_ext = ConfigValue::Table(vec![entry("path", text("dir/a"))]);
    let mut files: Vec<ConfigValue> = (0..12).map(|_| ConfigValue::Table(vec![entry("path", text("a.png"))])).collect();
    files.push(no_ext);
    assert_eq!(
        error_of(root_with(files, vec![])),
        "file index 12 has a output path with invalid extension."
    );
}

#[test]
fn field_errors() {
    let file = |e: ConfigEntry| ConfigValue::Table(vec![entry("path", text("a.png")), e]);
    assert_eq!(
        error_of(root_with(vec![file(entry("width", ConfigValue::Integer(-1)))], vec![])),
        "width value is valid: Not a valid number"
    );
    assert_eq!(
        error_of(root_with(vec![file(entry("sharpen", ConfigValue::Integer(1 << 40)))], vec![])),
        "sharpen value is valid: Not a valid number"
    );
    assert_eq!(
        error_of(root_with(vec![file(entry("invert", text("yes")))], vec![])),
        "invert value is valid: Not true or false."
    );
    assert_eq!(
        error_of(root_with(vec![file(entry("contrast", ConfigValue::Integer(2)))], vec![])),
        "contrast value is valid: Not Float"
    );
    assert_eq!(
        error_of(root_with(vec![file(entry("resize_filter", text("Bicubic")))], vec![])),
        "Unknown resize_filter Bicubic"
    );
    assert_eq!(
        error_of(root_with(vec![], vec![entry("resize_filter", ConfigValue::Boolean(true))])),
        "Resize_filter not a string."
    );
}

#[test]
fn first_error_in_field_order_wins() {
    let f = ConfigValue::Table(vec![
        entry("path", text("a.png")),
        entry("invert", text("no")),
        entry("blur", ConfigValue::Boolean(false)),
    ]);
    assert_eq!(error_of(root_with(vec![f], vec![])), "blur value is valid: Not Float");
}

#[test]
fn decimal_text_writes_numbers() {
    assert_eq!(decimal_text(0), "0");
    assert_eq!(decimal_text(7), "7");
    assert_eq!(decimal_text(10), "10");
    assert_eq!(decimal_text(4096), "4096");
    assert_eq!(decimal_text(usize::MAX), usize::MAX.to_string());
}
