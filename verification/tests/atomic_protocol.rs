//! The atomic-replace protocol: temporary-path derivation, and the
//! crash-safety behaviour observed on the executable filesystem
//! double.

use td6::{temp_path_for, SimFs};

#[test]
fn temp_path_appends_marker_after_extension() {
    assert_eq!(temp_path_for("out.td6"), "out.td6.__tmp");
    assert_eq!(temp_path_for("archive.tar.gz"), "archive.tar.gz.__tmp");
    assert_eq!(temp_path_for("a/b.c/x.y"), "a/b.c/x.y.__tmp");
    assert_eq!(temp_path_for("trailing.dot."), "trailing.dot..__tmp");
}

#[test]
fn temp_path_treats_backslash_as_separator() {
    assert_eq!(temp_path_for("c:\\work\\out.td6"), "c:\\work\\out.td6.__tmp");
    assert_eq!(temp_path_for("dir.d\\file"), "dir.d\\file.tmp.__tmp");
    assert_eq!(temp_path_for("a\\.hidden"), "a\\.hidden.tmp.__tmp");
    assert_eq!(temp_path_for("mixed.d/sub\\name"), "mixed.d/sub\\name.tmp.__tmp");
}

#[test]
fn temp_path_assumes_tmp_extension_where_none_exists() {
    assert_eq!(temp_path_for("data"), "data.tmp.__tmp");
    assert_eq!(temp_path_for("dir.d/file"), "dir.d/file.tmp.__tmp");
    assert_eq!(temp_path_for(".bashrc"), ".bashrc.tmp.__tmp");
    assert_eq!(temp_path_for(""), ".tmp.__tmp");
}

#[test]
fn interrupted_save_leaves_existing_destination_untouched() {
    let old_content = b"the previous save".to_vec();
    let mut fs = SimFs::new_with_dest(old_content.clone());
    fs.create_temp();
    fs.append_temp(b"half of the new con");
    // The save is abandoned here: no commit ever runs.
    assert_eq!(fs.dest(), Some(&old_content));
}

#[test]
fn interrupted_save_leaves_missing_destination_missing() {
    let mut fs = SimFs::new_absent();
    fs.create_temp();
    fs.append_temp(b"partial");
    assert_eq!(fs.dest(), None);
}

#[test]
fn completed_save_installs_exactly_the_new_content() {
    let mut fs = SimFs::new_absent();
    fs.save_to(b"fresh content");
    assert_eq!(fs.dest(), Some(&b"fresh content".to_vec()));
    assert_eq!(fs.temp(), None);
}

#[test]
fn completed_save_replaces_existing_content_wholesale() {
    let mut fs = SimFs::new_with_dest(b"old".to_vec());
    fs.save_to(b"entirely new and longer content");
    assert_eq!(fs.dest(), Some(&b"entirely new and longer content".to_vec()));
    assert_eq!(fs.temp(), None);
}

#[test]
fn append_before_create_does_nothing() {
    let mut fs = SimFs::new_with_dest(b"old".to_vec());
    fs.append_temp(b"lost");
    assert_eq!(fs.temp(), None);
    fs.commit();
    assert_eq!(fs.dest(), Some(&b"old".to_vec()));
}

#[test]
fn truncating_create_discards_earlier_temp_content() {
    let mut fs = SimFs::new_absent();
    fs.create_temp();
    fs.append_temp(b"from an earlier, failed save");
    fs.create_temp();
    fs.append_temp(b"second try");
    fs.commit();
    assert_eq!(fs.dest(), Some(&b"second try".to_vec()));
}
