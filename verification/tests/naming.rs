use outline_backup::store::{backup_filename, Timestamp};

#[test]
fn the_filename_is_the_zero_padded_timestamp() {
    let ts = Timestamp { year: 2023, month: 1, day: 2, hour: 3, minute: 4, second: 5 };
    assert_eq!(backup_filename(&ts), "outline-backup-2023-01-02-03-04-05.zip");
}

#[test]
fn the_filename_is_deterministic_in_the_instant() {
    let ts = Timestamp { year: 2024, month: 11, day: 30, hour: 23, minute: 59, second: 58 };
    let first = backup_filename(&ts);
    let again = backup_filename(&ts);
    assert_eq!(first, again);
    assert_eq!(first, "outline-backup-2024-11-30-23-59-58.zip");
}

#[test]
fn the_largest_representable_instant_still_fits_the_pattern() {
    let ts = Timestamp { year: 9999, month: 12, day: 31, hour: 23, minute: 59, second: 59 };
    assert_eq!(backup_filename(&ts), "outline-backup-9999-12-31-23-59-59.zip");
}

#[test]
fn an_early_year_keeps_four_digits() {
    let ts = Timestamp { year: 987, month: 6, day: 7, hour: 8, minute: 9, second: 10 };
    assert_eq!(backup_filename(&ts), "outline-backup-0987-06-07-08-09-10.zip");
}
