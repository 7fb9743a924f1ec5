use std::path::Path;

use rls_vfs::Vfs;

use lscoord::FmtInput;
use lscoord::FmtOutput;
use lscoord::WriteMode;
use lscoord::fmt_input;
use lscoord::fmt_input_for;
use lscoord::fmt_output;
use lscoord::overlay_for;
use lscoord::single_pass_config;

#[test]
fn overlay_content_wins_over_disk() {
    let r = fmt_input(String::from("src/lib.rs"), Some(String::from("fn edited() {}\n")));
    assert_eq!(r, FmtInput::Text(String::from("fn edited() {}\n")));
}

#[test]
fn disk_file_used_without_overlay() {
    let r = fmt_input(String::from("src/lib.rs"), None);
    assert_eq!(r, FmtInput::File(String::from("src/lib.rs")));
}

#[test]
fn overlay_lookup_finds_matching_entry() {
    let changes = vec![
        (String::from("a.rs"), String::from("a text")),
        (String::from("b.rs"), String::from("b text")),
    ];
    let r = overlay_for(changes, &String::from("b.rs"));
    assert_eq!(r, Some(String::from("b text")));
}

#[test]
fn overlay_lookup_takes_first_matching_entry() {
    let changes = vec![
        (String::from("a.rs"), String::from("first")),
        (String::from("a.rs"), String::from("second")),
    ];
    let r = overlay_for(changes, &String::from("a.rs"));
    assert_eq!(r, Some(String::from("first")));
}

#[test]
fn overlay_lookup_misses_absent_entry() {
    let changes = vec![(String::from("a.rs"), String::from("a text"))];
    let r = overlay_for(changes, &String::from("b.rs"));
    assert_eq!(r, None);
}

#[test]
fn produced_text_surfaces_as_change() {
    let r = fmt_output(Ok(String::from("fn f() {}\n")));
    assert_eq!(r, FmtOutput::Changed(String::from("fn f() {}\n")));
}

#[test]
fn backend_failure_surfaces_as_format_error() {
    let r = fmt_output(Err(String::from("parse error")));
    assert_eq!(r, FmtOutput::FormatError);
}

#[test]
fn formatting_config_is_single_file_plain_text() {
    let c = single_pass_config();
    assert!(c.skip_children);
    assert_eq!(c.write_mode, WriteMode::Plain);
}

#[test]
fn unsaved_edit_in_store_is_chosen_over_disk_path() {
    let vfs: Vfs = Vfs::new();
    vfs.set_file(Path::new("src/edited.rs"), "fn unsaved() {}\n");
    let r = fmt_input_for(&vfs, String::from("src/edited.rs"));
    assert_eq!(r, FmtInput::Text(String::from("fn unsaved() {}\n")));
}

#[test]
fn file_without_unsaved_edit_is_formatted_from_disk() {
    let vfs: Vfs = Vfs::new();
    let r = fmt_input_for(&vfs, String::from("src/clean.rs"));
    assert_eq!(r, FmtInput::File(String::from("src/clean.rs")));
}
