use scrawl::host::{Host, SCRAWL_TEMP_DIR, TEMP_FILE_PREFIX};
use scrawl::naming::{join, push_decimal, push_underscore};

fn decimal(n: u64) -> String {
    let mut text = String::new();
    push_decimal(&mut text, n);
    text
}

fn host(temp_dir: &str, windows: bool, process_id: u32, counter: usize, timestamp: u64) -> Host {
    Host {
        temp_dir: String::from(temp_dir),
        visual: None,
        editor: None,
        windows,
        process_id,
        timestamp,
        counter,
    }
}

#[test]
fn decimal_of_single_digits() {
    let digits: Vec<String> = (0..10).map(decimal).collect();
    assert_eq!(digits, vec!["0", "1", "2", "3", "4", "5", "6", "7", "8", "9"]);
}

#[test]
fn decimal_of_larger_numbers() {
    assert_eq!(decimal(10), "10");
    assert_eq!(decimal(100), "100");
    assert_eq!(decimal(1674864208), "1674864208");
    assert_eq!(decimal(9007199254740993), "9007199254740993");
    assert_eq!(decimal(u64::MAX), "18446744073709551615");
}

#[test]
fn decimal_agrees_with_the_standard_formatting() {
    let mut n: u64 = 1;
    for _ in 0..64 {
        for probe in [n - 1, n, n + 1, n.wrapping_mul(3)] {
            assert_eq!(decimal(probe), format!("{}", probe));
        }
        n = n.wrapping_mul(2);
    }
}

#[test]
fn decimal_is_appended_to_what_is_there() {
    let mut text = String::from("n=");
    push_decimal(&mut text, 42);
    push_underscore(&mut text);
    push_decimal(&mut text, 0);
    assert_eq!(text, "n=42_0");
}

#[test]
fn join_puts_one_separator_between() {
    assert_eq!(join("/tmp", "file.txt", false), "/tmp/file.txt");
    assert_eq!(join("C:\\Temp", "file.txt", true), "C:\\Temp\\file.txt");
}

#[test]
fn join_adds_no_separator_to_one_that_is_there() {
    assert_eq!(join("/var/folders/T/", "file.txt", false), "/var/folders/T/file.txt");
    assert_eq!(join("C:\\Temp\\", "file.txt", true), "C:\\Temp\\file.txt");
    assert_eq!(join("C:/Temp/", "file.txt", true), "C:/Temp/file.txt");
    assert_eq!(join("/", "file.txt", false), "/file.txt");
}

#[test]
fn join_takes_a_backslash_for_a_separator_on_windows_only() {
    assert_eq!(join("odd\\", "file.txt", false), "odd\\/file.txt");
}

#[test]
fn join_with_an_empty_directory_is_the_name() {
    assert_eq!(join("", "file.txt", false), "file.txt");
    assert_eq!(join("", "file.txt", true), "file.txt");
}

#[test]
fn join_keeps_characters_beyond_ascii() {
    assert_eq!(join("/tmp/été", "naïve.txt", false), "/tmp/été/naïve.txt");
}

#[test]
fn the_fixed_names() {
    assert_eq!(SCRAWL_TEMP_DIR, "xvrqt_scrawl");
    assert_eq!(TEMP_FILE_PREFIX, "scrawl");
}

#[test]
fn temp_directory_lies_in_the_temporary_directory() {
    assert_eq!(host("/tmp", false, 1, 0, 0).temp_directory(), "/tmp/xvrqt_scrawl");
    assert_eq!(host("/tmp/", false, 1, 0, 0).temp_directory(), "/tmp/xvrqt_scrawl");
    assert_eq!(host("C:\\Temp\\", true, 1, 0, 0).temp_directory(), "C:\\Temp\\xvrqt_scrawl");
}

#[test]
fn temp_file_name_holds_process_counter_and_time() {
    let host = host("/tmp", false, 123, 17, 1674864208);
    assert_eq!(host.temp_file_name(".txt"), "scrawl_123_17_1674864208.txt");
    assert_eq!(host.temp_file_name(""), "scrawl_123_17_1674864208");
    assert_eq!(host.temp_file_name(".tar.gz"), "scrawl_123_17_1674864208.tar.gz");
}

#[test]
fn temp_file_name_of_the_smallest_and_largest_numbers() {
    assert_eq!(host("/tmp", false, 0, 0, 0).temp_file_name(".rs"), "scrawl_0_0_0.rs");
    assert_eq!(
        host("/tmp", false, u32::MAX, usize::MAX, u64::MAX).temp_file_name(".rs"),
        format!("scrawl_{}_{}_{}.rs", u32::MAX, usize::MAX, u64::MAX)
    );
}

#[test]
fn temp_file_path_is_the_name_in_the_directory() {
    assert_eq!(
        host("/tmp", false, 123, 17, 1674864208).temp_file_path(".txt"),
        "/tmp/xvrqt_scrawl/scrawl_123_17_1674864208.txt"
    );
    assert_eq!(
        host("C:\\Temp", true, 9, 0, 5).temp_file_path(".md"),
        "C:\\Temp\\xvrqt_scrawl\\scrawl_9_0_5.md"
    );
}

#[test]
fn temp_file_paths_of_one_process_differ_by_the_counter() {
    let mut seen = std::collections::HashSet::new();
    for counter in 0..2000 {
        let path = host("/tmp", false, 77, counter, 1674864208).temp_file_path(".txt");
        assert!(seen.insert(path));
    }
    assert_eq!(seen.len(), 2000);
}

#[test]
fn temp_file_paths_differ_where_digits_could_run_together() {
    let one = host("/tmp", false, 1, 23, 4).temp_file_path("");
    let other = host("/tmp", false, 12, 3, 4).temp_file_path("");
    assert_ne!(one, other);
    let one = host("/tmp", false, 1, 2, 34).temp_file_path("5");
    let other = host("/tmp", false, 1, 23, 4).temp_file_path("5");
    assert_ne!(one, other);
    let one = host("/tmp", false, 1, 2, 3).temp_file_path("_4");
    let other = host("/tmp", false, 1, 2, 3).temp_file_path("_5");
    assert_ne!(one, other);
}

#[test]
fn temp_file_paths_of_two_processes_differ() {
    let one = host("/tmp", false, 100, 0, 50).temp_file_path(".txt");
    let other = host("/tmp", false, 101, 0, 50).temp_file_path(".txt");
    assert_ne!(one, other);
}
