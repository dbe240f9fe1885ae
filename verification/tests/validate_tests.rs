use reference_finder::category::Category;
use reference_finder::validate::{check_args, check_filename};
use reference_finder::FinderError;

#[test]
fn filenames_must_end_in_the_text_extension() {
    assert!(check_filename(&"notes.txt".to_string()));
    assert!(check_filename(&"txt".to_string()));
    assert!(!check_filename(&"notes.md".to_string()));
    assert!(!check_filename(&"tx".to_string()));
    assert!(!check_filename(&"".to_string()));
    assert!(!check_filename(&"notes.TXT".to_string()));
}

#[test]
fn valid_inputs_yield_the_category() {
    let r = check_args(&"foo.txt".to_string(), &"fundamentals".to_string(), true);
    assert_eq!(r, Ok(Category::Fundamentals));
    let r = check_args(&"foo.txt".to_string(), &"other".to_string(), true);
    assert_eq!(r, Ok(Category::Other));
}

#[test]
fn the_filename_is_checked_first() {
    let r = check_args(&"foo.md".to_string(), &"nonsense".to_string(), false);
    assert_eq!(r, Err(FinderError::InvalidFilename));
}

#[test]
fn the_category_is_checked_second() {
    let r = check_args(&"foo.txt".to_string(), &"nonsense".to_string(), false);
    assert_eq!(r, Err(FinderError::InvalidCategory));
}

#[test]
fn the_base_directory_is_checked_last() {
    let r = check_args(&"foo.txt".to_string(), &"usage-examples".to_string(), false);
    assert_eq!(r, Err(FinderError::MissingBaseDir));
}
