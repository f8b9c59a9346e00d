use rbuild::times::{diff_date, diff_text_of, change_date, FileTime, MAX_TIMESTAMP, MIN_TIMESTAMP};
use rbuild::project::BuildProject;

fn t(secs: i64, nanos: u32) -> FileTime {
    FileTime { secs, nanos }
}

#[test]
fn diff_text_whole_units() {
    assert_eq!(diff_text_of(0), "0:0:0");
    assert_eq!(diff_text_of((86400 + 3600 + 60 + 1) * 1_000_000_000 + 5), "1d 1:1:1");
    assert_eq!(diff_text_of(3 * 86400 * 1_000_000_000), "3d 0:0:0");
    assert_eq!(diff_text_of(59 * 1_000_000_000 + 999_999_999), "0:0:59");
}

#[test]
fn diff_text_negative() {
    assert_eq!(diff_text_of(-(3723 * 1_000_000_000)), "-1:2:3");
    assert_eq!(diff_text_of(-(2 * 86400 + 5) * 1_000_000_000), "-2d 0:0:5");
}

#[test]
fn diff_text_drops_sub_second_sign() {
    assert_eq!(diff_text_of(-500_000_000), "0:0:0");
    assert_eq!(diff_text_of(-1_500_000_000), "-0:0:1");
}

#[test]
fn diff_text_extremes() {
    assert_eq!(diff_text_of(i64::MAX), "106751d 23:47:16");
    assert_eq!(diff_text_of(i64::MIN), "-106751d 23:47:16");
}

#[test]
fn diff_date_of_times() {
    assert_eq!(diff_date(Some(t(100, 0)), Some(t(110, 200))), "0:0:10");
    assert_eq!(diff_date(Some(t(110, 0)), Some(t(100, 0))), "-0:0:10");
    assert_eq!(diff_date(Some(t(100, 900_000_000)), Some(t(101, 100_000_000))), "0:0:0");
    assert_eq!(diff_date(Some(t(-5, 0)), Some(t(86405, 0))), "1d 0:0:10");
}

#[test]
fn diff_date_unknown_time() {
    assert_eq!(diff_date(None, Some(t(1, 0))), "");
    assert_eq!(diff_date(Some(t(1, 0)), None), "");
    assert_eq!(diff_date(None, None), "");
}

#[test]
fn diff_date_at_range_ends() {
    assert_eq!(diff_date(Some(t(MIN_TIMESTAMP, 0)), Some(t(MIN_TIMESTAMP + 1, 0))), "0:0:1");
    assert_eq!(diff_date(Some(t(MAX_TIMESTAMP - 1, 0)), Some(t(MAX_TIMESTAMP, 999_999_999))), "0:0:1");
}

#[test]
fn diff_swap_adds_sign() {
    let a = t(1000, 0);
    let b = t(1000 + 90061, 0);
    let forward = BuildProject::diffDate(Some(a), Some(b));
    let backward = BuildProject::diffDate(Some(b), Some(a));
    assert_eq!(forward, "1d 1:1:1");
    assert_eq!(backward, format!("-{}", forward));
}

fn looks_like_date(s: &str) -> bool {
    let c: Vec<char> = s.chars().collect();
    c.len() == 19
        && c.iter().enumerate().all(|(i, ch)| match i {
            4 | 7 | 13 | 16 => *ch == ':',
            10 => *ch == ' ',
            _ => ch.is_ascii_digit(),
        })
}

#[test]
fn change_date_shape() {
    assert_eq!(change_date(None), "");
    let s = change_date(Some(t(1_700_000_000, 0)));
    assert!(looks_like_date(&s), "{}", s);
    assert!(s.starts_with("2023:11:1"), "{}", s);
}

#[test]
fn change_date_of_project_dirs() {
    assert_eq!(BuildProject::changeDateOf(None), "");
    let s = BuildProject::changeDateOf(Some(t(0, 0)));
    assert!(looks_like_date(&s), "{}", s);
}

#[test]
fn chrono_range_is_exact() {
    assert_eq!(diff_date(Some(t(MIN_TIMESTAMP - 1, 0)), Some(t(MIN_TIMESTAMP, 0))), "");
    assert_eq!(diff_date(Some(t(MAX_TIMESTAMP, 0)), Some(t(MAX_TIMESTAMP + 1, 0))), "");
}

#[test]
fn diff_with_one_unknown_time_is_empty() {
    assert_eq!(BuildProject::diffDate(Some(t(MAX_TIMESTAMP + 1, 0)), None), "");
    assert_eq!(BuildProject::diffDate(None, Some(t(MIN_TIMESTAMP - 1, 0))), "");
}
