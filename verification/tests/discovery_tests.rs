use phper_test::context::Context;
use phper_test::discovery::{
    loaded_ini_probe, php_binary_probe, probe_tool_name, scanned_ini_probe, split_scanned_list,
    trim_trailing_whitespace,
};

#[test]
fn probe_tool_defaults_when_unset() {
    assert_eq!(probe_tool_name(None), "php-config");
}

#[test]
fn probe_tool_defaults_when_empty() {
    assert_eq!(probe_tool_name(Some(String::new())), "php-config");
}

#[test]
fn probe_tool_uses_override() {
    assert_eq!(
        probe_tool_name(Some(String::from("php-config8.1"))),
        "php-config8.1"
    );
}

#[test]
fn binary_probe_invocation_shape() {
    assert_eq!(
        php_binary_probe("php-config"),
        vec![String::from("php-config"), String::from("--php-binary")]
    );
}

#[test]
fn ini_probe_invocation_shapes() {
    assert_eq!(
        loaded_ini_probe("/usr/bin/php"),
        vec![
            String::from("/usr/bin/php"),
            String::from("-d"),
            String::from("display_errors=stderr"),
            String::from("-r"),
            String::from("echo php_ini_loaded_file();"),
        ]
    );
    assert_eq!(
        scanned_ini_probe("/usr/bin/php"),
        vec![
            String::from("/usr/bin/php"),
            String::from("-d"),
            String::from("display_errors=stderr"),
            String::from("-r"),
            String::from("echo php_ini_scanned_files();"),
        ]
    );
}

#[test]
fn scanned_list_splits_and_trims() {
    assert_eq!(
        split_scanned_list("/a/ini.d/x.ini, /a/ini.d/y.ini"),
        vec![String::from("/a/ini.d/x.ini"), String::from("/a/ini.d/y.ini")]
    );
}

#[test]
fn scanned_list_empty_output_means_no_files() {
    assert_eq!(split_scanned_list(""), Vec::<String>::new());
}

#[test]
fn scanned_list_skips_blank_entries() {
    assert_eq!(split_scanned_list(" , ,"), Vec::<String>::new());
    assert_eq!(
        split_scanned_list(",/x.ini,,  /y.ini  ,"),
        vec![String::from("/x.ini"), String::from("/y.ini")]
    );
}

#[test]
fn scanned_list_single_entry() {
    assert_eq!(split_scanned_list("/only.ini"), vec![String::from("/only.ini")]);
}

#[test]
fn merged_config_follows_scanned_list_order() {
    let listed = split_scanned_list("/a/ini.d/x.ini, /a/ini.d/y.ini");
    assert_eq!(listed.len(), 2);
    let primary_content = String::from("main\n");
    let x_content = String::from("x-setting\n");
    let y_content = String::from("y-setting\n");
    let ctx = Context::new(
        String::from("/usr/bin/php"),
        Some(primary_content.clone()),
        vec![x_content.clone(), y_content.clone()],
    );
    let mut expected = primary_content;
    expected.push_str(&x_content);
    expected.push_str(&y_content);
    assert_eq!(ctx.ini_content, expected);
}

#[test]
fn trailing_whitespace_is_trimmed() {
    assert_eq!(trim_trailing_whitespace("/usr/bin/php\n"), "/usr/bin/php");
    assert_eq!(trim_trailing_whitespace("out \t\r\n"), "out");
    assert_eq!(trim_trailing_whitespace(" keep-lead "), " keep-lead");
    assert_eq!(trim_trailing_whitespace(""), "");
}
