use phper_test::context::Context;
use phper_test::fpm::FPM_CONF_TEMPLATE;

fn context_with_bin(php_bin: &str) -> Context {
    Context::new(String::from(php_bin), None, Vec::new())
}

#[test]
fn fpm_path_keeps_version_suffix() {
    let ctx = context_with_bin("/usr/bin/php8.1");
    assert_eq!(ctx.find_php_fpm(), Some(String::from("/usr/sbin/php-fpm8.1")));
}

#[test]
fn fpm_path_without_suffix() {
    let ctx = context_with_bin("/usr/local/bin/php");
    assert_eq!(ctx.find_php_fpm(), Some(String::from("/usr/local/sbin/php-fpm")));
}

#[test]
fn fpm_path_without_php_prefix_drops_suffix() {
    let ctx = context_with_bin("/usr/bin/interpreter9");
    assert_eq!(ctx.find_php_fpm(), Some(String::from("/usr/sbin/php-fpm")));
}

#[test]
fn fpm_path_needs_a_grandparent_directory() {
    assert_eq!(context_with_bin("php8.1").find_php_fpm(), None);
    assert_eq!(context_with_bin("/php8.1").find_php_fpm(), None);
}

#[test]
fn fpm_path_at_filesystem_root() {
    let ctx = context_with_bin("/usr/php8.1");
    assert_eq!(ctx.find_php_fpm(), Some(String::from("/sbin/php-fpm8.1")));
}

#[test]
fn fpm_conf_file_holds_template_verbatim() {
    let ctx = context_with_bin("/usr/bin/php");
    let file = ctx.create_tmp_fpm_conf_file();
    assert_eq!(file.content, FPM_CONF_TEMPLATE);
    assert!(std::path::Path::new(&file.path).exists());
}
