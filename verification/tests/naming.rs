use aw_screenshot::archive::{archive_name, archive_path};
use aw_screenshot::decimal::decimal;

#[test]
fn decimal_of_single_digits() {
    assert_eq!(decimal(0), "0");
    assert_eq!(decimal(7), "7");
    assert_eq!(decimal(9), "9");
}

#[test]
fn decimal_of_longer_numbers() {
    assert_eq!(decimal(10), "10");
    assert_eq!(decimal(5666), "5666");
    assert_eq!(decimal(1_000_000), "1000000");
    assert_eq!(decimal(u64::MAX), "18446744073709551615");
}

#[test]
fn decimal_agrees_with_std() {
    for n in [0u64, 1, 9, 10, 11, 99, 100, 101, 65_535, 4_294_967_296] {
        assert_eq!(decimal(n), n.to_string());
    }
}

#[test]
fn archive_name_joins_stamp_index_and_extension() {
    assert_eq!(archive_name("2024-05-06_07-08-09", 0), "2024-05-06_07-08-09_0.webp");
    assert_eq!(archive_name("2024-05-06_07-08-09", 1), "2024-05-06_07-08-09_1.webp");
    assert_eq!(archive_name("2024-05-06_07-08-09", 12), "2024-05-06_07-08-09_12.webp");
}

#[test]
fn archive_path_lies_in_the_archive_directory() {
    assert_eq!(
        archive_path("2024-05-06_07-08-09", 3),
        "target/screenshots/2024-05-06_07-08-09_3.webp"
    );
}

#[test]
fn archive_name_of_an_empty_stamp() {
    assert_eq!(archive_name("", 0), "_0.webp");
}

#[test]
fn displays_of_one_second_do_not_collide() {
    let stamp = "2024-05-06_07-08-09";
    let mut names: Vec<String> = Vec::new();
    for index in 0..25usize {
        let name = archive_path(stamp, index);
        assert!(!names.contains(&name));
        names.push(name);
    }
    assert_eq!(names.len(), 25);
}

#[test]
fn cycles_of_different_seconds_do_not_collide() {
    assert_ne!(
        archive_name("2024-05-06_07-08-09", 0),
        archive_name("2024-05-06_07-08-10", 0)
    );
}

#[test]
fn a_stamp_that_ends_in_digits_does_not_collide_either() {
    assert_ne!(archive_name("a_1", 2), archive_name("a", 12));
    assert_ne!(archive_name("a_1", 2), archive_name("a_1_2", 0));
    assert_eq!(archive_name("a_1", 2), "a_1_2.webp");
}
