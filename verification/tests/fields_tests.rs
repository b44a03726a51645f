use cleaner_lib::fields::{n_chars_last_field, n_data_fields};

#[test]
fn counts_tab_fields() {
    assert_eq!(n_data_fields(&String::from("a\tb\tc"), "\t"), 3);
    assert_eq!(n_data_fields(&String::from("1\t2\t3"), "\t"), 3);
    assert_eq!(n_data_fields(&String::from("4\t5"), "\t"), 2);
    assert_eq!(n_data_fields(&String::from("single"), "\t"), 1);
}

#[test]
fn trims_before_splitting() {
    assert_eq!(n_data_fields(&String::from("  a\tb  "), "\t"), 2);
    assert_eq!(n_data_fields(&String::from("a\t"), "\t"), 1);
    assert_eq!(n_data_fields(&String::from(""), "\t"), 1);
    assert_eq!(n_data_fields(&String::from("   "), "\t"), 1);
}

#[test]
fn measures_last_field() {
    assert_eq!(n_chars_last_field(&String::from("1\t22"), "\t"), Some(2));
    assert_eq!(n_chars_last_field(&String::from("abc"), "\t"), Some(3));
    assert_eq!(n_chars_last_field(&String::from(""), "\t"), Some(0));
    assert_eq!(n_chars_last_field(&String::from("x\t"), "\t"), Some(1));
    assert_eq!(n_chars_last_field(&String::from("aa\tbbb\tcccc"), "\t"), Some(4));
}
