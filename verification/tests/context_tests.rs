use phper_test::context::Context;
use phper_test::ephemeral::EphemeralConfigFile;
use std::path::Path;

fn sample_context() -> Context {
    Context::new(
        String::from("/usr/bin/php"),
        Some(String::from("base = 1\n")),
        vec![String::from("a = 2\n"), String::from("b = 3\n")],
    )
}

#[test]
fn merged_config_concatenates_in_order() {
    let ctx = sample_context();
    assert_eq!(ctx.php_bin, "/usr/bin/php");
    assert_eq!(ctx.ini_content, "base = 1\na = 2\nb = 3\n");
}

#[test]
fn merged_config_without_primary_file() {
    let ctx = Context::new(
        String::from("/usr/bin/php"),
        None,
        vec![String::from("x"), String::from("y")],
    );
    assert_eq!(ctx.ini_content, "xy");
}

#[test]
fn merged_config_empty_discovery() {
    let ctx = Context::new(String::from("php"), None, Vec::new());
    assert_eq!(ctx.ini_content, "");
}

#[test]
fn ini_content_text_appends_one_extension_line() {
    let ctx = sample_context();
    assert_eq!(
        ctx.build_tmp_php_ini_content("/build/target/libdemo.so"),
        "base = 1\na = 2\nb = 3\nextension=/build/target/libdemo.so\n"
    );
    let empty = Context::new(String::from("php"), None, Vec::new());
    assert_eq!(
        empty.build_tmp_php_ini_content("/e.so"),
        "extension=/e.so\n"
    );
}

#[test]
fn ephemeral_file_records_what_it_was_given() {
    let file = EphemeralConfigFile::create(String::from("payload\n"));
    assert_eq!(file.content, "payload\n");
    assert!(!file.path.is_empty());
    assert!(Path::new(&file.path).exists());
}

#[test]
fn ephemeral_file_content_is_config_plus_extension_line() {
    let ctx = sample_context();
    let file = ctx.create_tmp_php_ini_file("/build/target/libdemo.so");
    assert_eq!(
        file.content,
        "base = 1\na = 2\nb = 3\nextension=/build/target/libdemo.so\n"
    );
    assert!(Path::new(&file.path).exists());
}

#[test]
fn ephemeral_files_are_uniquely_named() {
    let ctx = sample_context();
    let first = ctx.create_tmp_php_ini_file("/a.so");
    let second = ctx.create_tmp_php_ini_file("/a.so");
    assert_ne!(first.path, second.path);
}

#[test]
fn ephemeral_file_removed_when_handle_drops() {
    let ctx = sample_context();
    let file = ctx.create_tmp_php_ini_file("/build/target/libdemo.so");
    let recorded_path = file.path.clone();
    assert!(Path::new(&recorded_path).exists());
    drop(file);
    assert!(!Path::new(&recorded_path).exists());
}

#[test]
fn invocation_has_exactly_four_fixed_args() {
    let ctx = sample_context();
    let file = ctx.create_tmp_php_ini_file("/build/target/libdemo.so");
    let cmd = ctx.create_command_with_tmp_php_ini_args(&file, "/tests/run.php");
    assert_eq!(cmd.program, "/usr/bin/php");
    assert_eq!(
        cmd.get_args(),
        &[
            String::from("-n"),
            String::from("-c"),
            file.path.clone(),
            String::from("/tests/run.php"),
        ]
    );
}

#[test]
fn invocation_args_accessor_matches_field() {
    let ctx = sample_context();
    let file = ctx.create_tmp_php_ini_file("/lib.so");
    let cmd = ctx.create_command_with_tmp_php_ini_args(&file, "s.php");
    assert_eq!(cmd.get_args(), cmd.args.as_slice());
    assert_eq!(cmd.get_args().len(), 4);
}
