use image_watcher::{derived_output_path, min_output_path, ChangeError, Mode, PathPart};

#[test]
fn mode_words_with_and_without_dashes() {
    for w in ["C", "c", "-c", "-C", "--compile", "--Compile", "-compile", "-Compile", "--C", "--c", "compile", "Compile"] {
        assert_eq!(Mode::parse_word(w), Some(Mode::Compile), "{}", w);
        assert_eq!(w.parse::<Mode>(), Ok(Mode::Compile));
    }
    for w in ["W", "w", "-w", "-W", "--watch", "--Watch", "-watch", "-Watch", "--W", "--w", "watch", "Watch"] {
        assert_eq!(Mode::parse_word(w), Some(Mode::Watch), "{}", w);
    }
}

#[test]
fn other_words_name_no_mode() {
    for w in ["", "-", "---c", "COMPILE", "comp", "watching", "x", "- c"] {
        assert_eq!(Mode::parse_word(w), None, "{}", w);
        assert_eq!(w.parse::<Mode>(), Err(()));
    }
}

#[test]
fn set_error_keeps_success_and_replaces_failure() {
    let ok: Result<u8, i32> = Ok(3);
    assert_eq!(ok.set_error("bad"), Ok(3));
    let err: Result<u8, i32> = Err(7);
    assert_eq!(err.set_error("bad"), Err("bad".to_string()));
    assert_eq!(Some(4).set_error("none"), Ok(4));
    assert_eq!(None::<u8>.set_error("none"), Err("none".to_string()));
}

#[test]
fn output_path_is_derived_next_to_the_source() {
    assert_eq!(derived_output_path("images/cat.png"), Ok("images/cat.min.png".to_string()));
    assert_eq!(derived_output_path("cat.jpg"), Ok("cat.min.jpg".to_string()));
    assert_eq!(derived_output_path("/a/b/c.d.gif"), Ok("/a/b/c.d.min.gif".to_string()));
}

#[test]
fn output_path_needs_parent_stem_and_extension() {
    assert_eq!(derived_output_path(""), Err(PathPart::Parent));
    assert_eq!(derived_output_path("/"), Err(PathPart::Parent));
    assert_eq!(derived_output_path("images/.."), Err(PathPart::FileStem));
    assert_eq!(derived_output_path("images/cat"), Err(PathPart::Extension));
    assert_eq!(PathPart::Extension.name(), "extension");
    assert_eq!(PathPart::FileStem.name(), "file stem");
}

#[test]
fn min_output_path_joins_the_parts() {
    assert_eq!(min_output_path("images", "cat", "png"), "images/cat.min.png");
    assert_eq!(min_output_path("", "cat", "jpg"), "cat.min.jpg");
}
