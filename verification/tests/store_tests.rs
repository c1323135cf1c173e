use workspace_launcher::appinfo::app_display_name;
use workspace_launcher::store::empty_store_value;
use workspace_launcher::store::load_value;
use workspace_launcher::store::workspaces_dir_path;
use workspace_launcher::store::workspaces_file_path;

#[test]
fn loading_before_any_save_gives_the_empty_list() {
    assert_eq!(load_value(None), "[]");
    assert_eq!(empty_store_value(), "[]");
}

#[test]
fn loading_reads_back_what_was_saved() {
    let data = "[{\"name\":\"Morning\",\"apps\":[{\"id\":\"1\"}]}]".to_string();
    assert_eq!(load_value(Some(data.clone())), data);
}

#[test]
fn round_trip_keeps_the_empty_string() {
    assert_eq!(load_value(Some(String::new())), "");
}

#[test]
fn round_trip_keeps_escapes_and_nesting() {
    let data = "[{\"name\":\"a\\\"b\",\"nested\":{\"list\":[1,2,{\"x\":null}]}}]".to_string();
    assert_eq!(load_value(Some(data.clone())), data);
}

#[test]
fn store_paths_join_the_data_directory() {
    assert_eq!(workspaces_dir_path("/home/u/.local/share/app"), "/home/u/.local/share/app/workspaces");
    assert_eq!(
        workspaces_file_path("/home/u/.local/share/app"),
        "/home/u/.local/share/app/workspaces/workspaces.json"
    );
}

#[test]
fn display_name_is_the_file_stem() {
    assert_eq!(app_display_name("/usr/bin/code"), "code");
    assert_eq!(app_display_name("/opt/tools/editor.exe"), "editor");
    assert_eq!(app_display_name("archive.tar.gz"), "archive.tar");
}

#[test]
fn display_name_keeps_a_leading_dot() {
    assert_eq!(app_display_name(".bashrc"), ".bashrc");
    assert_eq!(app_display_name("/home/u/.config.bak"), ".config");
}

#[test]
fn display_name_ignores_trailing_separators() {
    assert_eq!(app_display_name("/opt/app/"), "app");
    assert_eq!(app_display_name("bin///"), "bin");
}

#[test]
fn display_name_ignores_trailing_cur_dir_components() {
    assert_eq!(app_display_name("a/."), "a");
    assert_eq!(app_display_name("foo.txt/."), "foo");
    assert_eq!(app_display_name("/opt/app/./."), "app");
    assert_eq!(app_display_name("bin/./"), "bin");
}

#[test]
fn dot_runs_longer_than_cur_dir_are_ordinary_names() {
    assert_eq!(app_display_name("./."), "Unknown");
    assert_eq!(app_display_name("..."), "..");
    assert_eq!(app_display_name("a.."), "a.");
}

#[test]
fn paths_without_a_file_name_fall_back() {
    assert_eq!(app_display_name(""), "Unknown");
    assert_eq!(app_display_name("/"), "Unknown");
    assert_eq!(app_display_name("a/.."), "Unknown");
    assert_eq!(app_display_name("."), "Unknown");
}
