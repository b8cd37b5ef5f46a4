use album_fetch::outcome::{ErrorKind, Outcome};
use album_fetch::report::{failures, format_ratio, tally, Tally};

#[test]
fn tally_counts_skipped_as_satisfied() {
    let outcomes = vec![
        Outcome::Succeeded,
        Outcome::Skipped,
        Outcome::Failed(ErrorKind::NetworkFailure),
        Outcome::Succeeded,
    ];
    assert_eq!(tally(&outcomes), Tally { completed: 3, total: 4 });
}

#[test]
fn tally_of_empty_batch() {
    let outcomes: Vec<Outcome> = Vec::new();
    assert_eq!(tally(&outcomes), Tally { completed: 0, total: 0 });
}

#[test]
fn ratio_prints_two_of_three() {
    assert_eq!(format_ratio(2, 3), "2/3");
    assert_eq!(format_ratio(0, 0), "0/0");
    assert_eq!(format_ratio(100, 100), "100/100");
}

#[test]
fn failures_list_each_cause_in_item_order() {
    let outcomes = vec![
        Outcome::Failed(ErrorKind::UrlInvalid),
        Outcome::Succeeded,
        Outcome::Failed(ErrorKind::IoFailure),
        Outcome::Skipped,
    ];
    let list = failures(&outcomes);
    assert_eq!(
        list,
        vec![(0, ErrorKind::UrlInvalid), (2, ErrorKind::IoFailure)]
    );
}

#[test]
fn failures_empty_when_all_satisfied() {
    let outcomes = vec![Outcome::Succeeded, Outcome::Skipped];
    assert!(failures(&outcomes).is_empty());
}

#[test]
fn describe_names_every_cause() {
    assert_eq!(ErrorKind::UrlInvalid.describe(), "invalid URL");
    assert_eq!(ErrorKind::NetworkFailure.describe(), "network failure");
    assert_eq!(ErrorKind::IoFailure.describe(), "I/O failure");
    assert_eq!(
        ErrorKind::MetadataUnavailable { permission_denied: true }.describe(),
        "permission denied when retrieving file metadata"
    );
    assert_eq!(
        ErrorKind::MetadataUnavailable { permission_denied: false }.describe(),
        "unable to retrieve file metadata"
    );
    assert_eq!(ErrorKind::DestinationIsFile.describe(), "destination is a file");
    assert_eq!(ErrorKind::DestinationIsDirectory.describe(), "found existing directory");
}
