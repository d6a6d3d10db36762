use vocab_store::logs::{last_lines, log_file_name, tagged};
use vocab_store::paths::{
    get_base_storage_path, get_db_url, get_image_path, get_storage_path, is_dev_environment, join,
    AppPaths, PlatformDirs,
};

fn resolved(data_dir: &str, resource_dir: &str) -> AppPaths {
    let mut dirs = PlatformDirs::unresolved();
    dirs.app_data_dir = Some(data_dir.to_string());
    dirs.resource_dir = Some(resource_dir.to_string());
    let mut paths = AppPaths::new();
    paths.init(&dirs);
    paths
}

#[test]
fn test_storage_paths() {
    let paths = AppPaths::new();
    println!(
        "当前环境: {}",
        if is_dev_environment(&paths) { "开发环境" } else { "生产环境" }
    );

    println!("基础存储路径: {}", get_base_storage_path(&paths));
    println!("日志存储路径: {}", get_storage_path(&paths, "logs"));
    println!("缓存存储路径: {}", get_storage_path(&paths, "cache"));
}

#[test]
fn join_puts_one_separator_between() {
    assert_eq!(join("/data/app", "images"), "/data/app/images");
    assert_eq!(join("/data/app/", "images"), "/data/app/images");
}

#[test]
fn join_of_an_empty_base_is_the_name() {
    assert_eq!(join("", "images"), "images");
}

#[test]
fn join_of_a_rooted_name_is_the_name() {
    assert_eq!(join("/data/app", "/etc/other"), "/etc/other");
}

#[test]
fn join_of_an_empty_name_ends_with_separator() {
    assert_eq!(join("/data/app", ""), "/data/app/");
    assert_eq!(join("", ""), "");
}

#[test]
fn new_paths_are_all_empty() {
    let paths = AppPaths::new();
    assert_eq!(paths.app_data_dir(), "");
    assert_eq!(paths.app_cache_dir(), "");
    assert_eq!(paths.data_path(), "");
    assert_eq!(paths.local_res_path(), "");
    assert_eq!(paths.temp_dir(), "");
    assert!(!is_dev_environment(&paths));
}

#[test]
fn init_takes_resolved_directories_over() {
    let mut dirs = PlatformDirs::unresolved();
    dirs.app_cache_dir = Some("/c".to_string());
    dirs.app_config_dir = Some("/cfg".to_string());
    dirs.app_data_dir = Some("/d".to_string());
    dirs.app_local_data_dir = Some("/ld".to_string());
    dirs.app_log_dir = Some("/log".to_string());
    dirs.audio_dir = Some("/music".to_string());
    dirs.cache_dir = Some("/uc".to_string());
    dirs.config_dir = Some("/ucfg".to_string());
    dirs.data_dir = Some("/ud".to_string());
    dirs.desktop_dir = Some("/desk".to_string());
    dirs.document_dir = Some("/docs".to_string());
    dirs.download_dir = Some("/dl".to_string());
    dirs.executable_dir = Some("/bin".to_string());
    dirs.font_dir = Some("/fonts".to_string());
    dirs.home_dir = Some("/home/u".to_string());
    dirs.local_data_dir = Some("/uld".to_string());
    dirs.picture_dir = Some("/pics".to_string());
    dirs.public_dir = Some("/pub".to_string());
    dirs.resource_dir = Some("/res".to_string());
    dirs.runtime_dir = Some("/run".to_string());
    dirs.temp_dir = Some("/tmp".to_string());
    dirs.template_dir = Some("/tpl".to_string());
    dirs.dev = true;
    let mut paths = AppPaths::new();
    paths.init(&dirs);
    assert_eq!(paths.app_cache_dir(), "/c");
    assert_eq!(paths.app_config_dir(), "/cfg");
    assert_eq!(paths.app_data_dir(), "/d");
    assert_eq!(paths.app_local_data_dir(), "/ld");
    assert_eq!(paths.app_log_dir(), "/log");
    assert_eq!(paths.audio_dir(), "/music");
    assert_eq!(paths.cache_dir(), "/uc");
    assert_eq!(paths.config_dir(), "/ucfg");
    assert_eq!(paths.data_dir(), "/ud");
    assert_eq!(paths.desktop_dir(), "/desk");
    assert_eq!(paths.document_dir(), "/docs");
    assert_eq!(paths.download_dir(), "/dl");
    assert_eq!(paths.executable_dir(), "/bin");
    assert_eq!(paths.font_dir(), "/fonts");
    assert_eq!(paths.home_dir(), "/home/u");
    assert_eq!(paths.local_data_dir(), "/uld");
    assert_eq!(paths.picture_dir(), "/pics");
    assert_eq!(paths.public_dir(), "/pub");
    assert_eq!(paths.resource_dir(), "/res");
    assert_eq!(paths.runtime_dir(), "/run");
    assert_eq!(paths.temp_dir(), "/tmp");
    assert_eq!(paths.template_dir(), "/tpl");
    assert_eq!(paths.data_path(), "/d/appdata");
    assert_eq!(paths.local_res_path(), "/res/res");
    assert_eq!(paths.local_data_path(), "/res/data");
    assert!(is_dev_environment(&paths));
}

#[test]
fn unresolved_directories_are_empty_and_derived_ones_relative() {
    let mut paths = AppPaths::new();
    paths.init(&PlatformDirs::unresolved());
    assert_eq!(paths.app_data_dir(), "");
    assert_eq!(paths.home_dir(), "");
    assert_eq!(paths.data_path(), "appdata");
    assert_eq!(paths.local_res_path(), "res");
    assert_eq!(paths.local_data_path(), "data");
}

#[test]
fn base_storage_path_is_the_data_directory() {
    let paths = resolved("/data/app", "/res");
    assert_eq!(get_base_storage_path(&paths), "/data/app");
}

#[test]
fn storage_path_is_below_the_base() {
    let paths = resolved("/data/app", "/res");
    assert_eq!(get_storage_path(&paths, "logs"), "/data/app/logs");
    assert_eq!(get_storage_path(&paths, "cache"), "/data/app/cache");
}

#[test]
fn image_path_is_in_the_image_directory() {
    let paths = resolved("/data/app", "/res");
    assert_eq!(get_image_path(&paths, "lidai.jpg"), "/data/app/images/lidai.jpg");
}

#[test]
fn db_url_names_the_store_file() {
    let paths = resolved("/data/app", "/res");
    assert_eq!(get_db_url(&paths), "sqlite:////data/app/vocabulary.db");
}

#[test]
fn log_file_is_named_by_its_day() {
    assert_eq!(log_file_name("2024-05-17"), "app-2024-05-17.log");
}

#[test]
fn log_entry_has_its_tags_in_brackets() {
    assert_eq!(tagged("INFO", "started"), "[INFO] started");
    assert_eq!(tagged("2024-05-17 10:00:00", &tagged("WARN", "low")), "[2024-05-17 10:00:00] [WARN] low");
    assert_eq!(tagged("", ""), "[] ");
}

fn lines(n: usize) -> Vec<String> {
    let mut out = Vec::new();
    for i in 0..n {
        out.push(format!("line {}", i));
    }
    out
}

#[test]
fn last_lines_are_the_tail() {
    assert_eq!(last_lines(&lines(5), 2), vec!["line 3".to_string(), "line 4".to_string()]);
    assert_eq!(last_lines(&lines(3), 3), lines(3));
    assert_eq!(last_lines(&lines(3), 100), lines(3));
    assert_eq!(last_lines(&lines(3), 0), Vec::<String>::new());
    assert_eq!(last_lines(&Vec::new(), 4), Vec::<String>::new());
    let many = last_lines(&lines(250), 100);
    assert_eq!(many.len(), 100);
    assert_eq!(many[0], "line 150");
    assert_eq!(many[99], "line 249");
}
