use ptp_ingest::date::Date;
use ptp_ingest::numerals::u64_to_string;
use ptp_ingest::object::size_display;
use ptp_ingest::object::size_mib_hundredths;
use ptp_ingest::paths::bucket_path;
use ptp_ingest::paths::candidate_path;

#[test]
fn renders_decimal_numerals() {
    assert_eq!(u64_to_string(0), "0");
    assert_eq!(u64_to_string(7), "7");
    assert_eq!(u64_to_string(10), "10");
    assert_eq!(u64_to_string(10159), "10159");
    assert_eq!(u64_to_string(u64::MAX), "18446744073709551615");
}

#[test]
fn bucket_uses_natural_width_components() {
    let d = Date {
        year: 2023,
        month: 6,
        day: 15,
    };
    assert_eq!(bucket_path(&d), "2023/6/15");
}

#[test]
fn bucket_keeps_two_digit_components() {
    let d = Date {
        year: 2023,
        month: 11,
        day: 5,
    };
    assert_eq!(bucket_path(&d), "2023/11/5");
}

#[test]
fn unsuffixed_candidate_is_bucket_slash_filename() {
    assert_eq!(
        candidate_path("2023/6/15", "IMG_0001.JPG", 0),
        "2023/6/15/IMG_0001.JPG"
    );
}

#[test]
fn suffixed_candidates_append_dash_n() {
    assert_eq!(
        candidate_path("2023/6/15", "IMG_0001.JPG", 1),
        "2023/6/15/IMG_0001.JPG-1"
    );
    assert_eq!(
        candidate_path("2023/6/15", "IMG_0001.JPG", 12),
        "2023/6/15/IMG_0001.JPG-12"
    );
}

#[test]
fn size_reporting_in_hundredths_of_mebibyte() {
    assert_eq!(size_mib_hundredths(5_242_880), 500);
    assert_eq!(size_display(500), "5.00");
    assert_eq!(size_mib_hundredths(1_048_576), 100);
    assert_eq!(size_mib_hundredths(0), 0);
    assert_eq!(size_display(0), "0.00");
    assert_eq!(size_mib_hundredths(31_457_280), 3000);
    assert_eq!(size_display(3000), "30.00");
    assert_eq!(size_mib_hundredths(1_100_000), 104);
    assert_eq!(size_display(104), "1.04");
    assert_eq!(size_display(1234), "12.34");
}
