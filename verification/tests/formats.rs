use pkgbuild_manager::actions::error_log::{error_log_file_name, is_leap, unix_to_datetime};

fn dt(secs: u64) -> (String, String) {
    unix_to_datetime(secs)
}

#[test]
fn epoch_start() {
    assert_eq!(dt(0), ("19700101".to_string(), "000000".to_string()));
}

#[test]
fn last_second_of_a_day() {
    assert_eq!(dt(86399), ("19700101".to_string(), "235959".to_string()));
}

#[test]
fn last_second_of_a_year_stays_in_december() {
    assert_eq!(dt(946684799), ("19991231".to_string(), "235959".to_string()));
    assert_eq!(dt(946684800), ("20000101".to_string(), "000000".to_string()));
}

#[test]
fn leap_day() {
    assert_eq!(dt(951782400), ("20000229".to_string(), "000000".to_string()));
    assert_eq!(dt(1709164800), ("20240229".to_string(), "000000".to_string()));
}

#[test]
fn an_ordinary_timestamp() {
    assert_eq!(dt(1700000000), ("20231114".to_string(), "221320".to_string()));
}

#[test]
fn leap_years() {
    assert!(is_leap(2000));
    assert!(is_leap(2024));
    assert!(!is_leap(1900));
    assert!(!is_leap(2023));
}

#[test]
fn log_file_names() {
    assert_eq!(error_log_file_name("shellcheck", 0), "shellcheck-19700101-000000.log");
}

#[test]
fn stamps_sort_as_times() {
    let stamp = |s: u64| {
        let (d, t) = dt(s);
        format!("{d}{t}")
    };
    let times = [0u64, 59, 60, 3599, 86399, 86400, 946684799, 946684800, 951782400, 1700000000, 4102444799, 4102444800, 253402300799];
    for w in times.windows(2) {
        assert!(stamp(w[0]) < stamp(w[1]));
    }
}

#[test]
fn last_second_with_a_four_digit_year() {
    assert_eq!(dt(253402300799), ("99991231".to_string(), "235959".to_string()));
    assert_eq!(dt(253402300800), ("100000101".to_string(), "000000".to_string()));
}
