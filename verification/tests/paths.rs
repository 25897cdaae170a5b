use filecopy::destination::DestinationMode;
use filecopy::error::CopyError;
use filecopy::paths::{place_in, target_path};

fn directory(path: &str) -> DestinationMode {
    DestinationMode::DirectoryTarget(String::from(path))
}

#[test]
fn single_file_target_is_the_destination_unchanged() {
    let mode = DestinationMode::SingleFileTarget;
    assert_eq!(target_path(&mode, "dir/a.txt", "b.txt"), Ok(String::from("b.txt")));
}

#[test]
fn single_file_target_does_not_ask_for_a_file_name() {
    let mode = DestinationMode::SingleFileTarget;
    assert_eq!(target_path(&mode, "", "b.txt"), Ok(String::from("b.txt")));
    assert_eq!(target_path(&mode, "/", "b.txt"), Ok(String::from("b.txt")));
}

#[test]
fn directory_target_takes_the_base_name() {
    assert_eq!(
        target_path(&directory("/tmp/out"), "dir/a.txt", "/tmp/out"),
        Ok(String::from("/tmp/out/a.txt"))
    );
}

#[test]
fn directory_target_of_a_plain_name() {
    assert_eq!(target_path(&directory("out"), "a.txt", "out"), Ok(String::from("out/a.txt")));
}

#[test]
fn directory_target_with_a_trailing_separator() {
    assert_eq!(
        target_path(&directory("/tmp/out/"), "/x/y/z.bin", "/tmp/out/"),
        Ok(String::from("/tmp/out/z.bin"))
    );
}

#[test]
fn directory_target_of_a_source_with_a_trailing_separator() {
    assert_eq!(target_path(&directory("out"), "dir/sub/", "out"), Ok(String::from("out/sub")));
}

#[test]
fn directory_target_goes_by_the_mode_not_the_destination_argument() {
    assert_eq!(target_path(&directory("d"), "a", "elsewhere"), Ok(String::from("d/a")));
}

#[test]
fn empty_source_is_malformed() {
    assert_eq!(target_path(&directory("out"), "", "out"), Err(CopyError::MalformedSourcePath));
}

#[test]
fn root_source_is_malformed() {
    assert_eq!(target_path(&directory("out"), "/", "out"), Err(CopyError::MalformedSourcePath));
}

#[test]
fn source_that_ends_in_the_parent_is_malformed() {
    assert_eq!(
        target_path(&directory("out"), "dir/..", "out"),
        Err(CopyError::MalformedSourcePath)
    );
}

#[test]
fn place_in_a_directory_under_the_name() {
    assert_eq!(
        place_in(&directory("/tmp/out"), "/tmp/out", Some(String::from("a.txt"))),
        Ok(String::from("/tmp/out/a.txt"))
    );
}

#[test]
fn place_in_a_directory_without_a_name_is_malformed() {
    assert_eq!(place_in(&directory("/tmp/out"), "/tmp/out", None), Err(CopyError::MalformedSourcePath));
}

#[test]
fn place_in_a_single_file_target_ignores_the_name() {
    let mode = DestinationMode::SingleFileTarget;
    assert_eq!(place_in(&mode, "b.txt", Some(String::from("a.txt"))), Ok(String::from("b.txt")));
    assert_eq!(place_in(&mode, "b.txt", None), Ok(String::from("b.txt")));
}
