use crypto_rs::passphrase::{generate_passphrase, WordList, PASSWORD_LEN};
use crypto_rs::AppError;

fn test_list(n: usize) -> WordList {
    let words: Vec<String> = (0..n).map(|i| format!("word{i:04}")).collect();
    WordList::new(words).expect("non-empty list")
}

#[test]
fn ten_words_from_the_list() {
    let list = test_list(2048);
    let phrase = generate_passphrase(&list, PASSWORD_LEN).expect("list is non-empty");
    let text = phrase.text();
    let parts: Vec<&str> = text.split('-').collect();
    assert_eq!(parts.len(), 10);
    for part in parts {
        assert!(part.starts_with("word"));
        let i: usize = part[4..].parse().expect("numeric tail");
        assert!(i < 2048);
        assert_eq!(part, format!("word{i:04}"));
    }
}

#[test]
fn two_calls_differ() {
    let list = test_list(2048);
    let p1 = generate_passphrase(&list, PASSWORD_LEN).expect("list is non-empty");
    let p2 = generate_passphrase(&list, PASSWORD_LEN).expect("list is non-empty");
    // Ten independent draws from 2048 words collide with probability
    // far below any practical concern.
    assert_ne!(p1.text(), p2.text());
}

#[test]
fn single_word_list_joins_with_delimiter() {
    let list = WordList::new(vec![String::from("alpha")]).expect("non-empty list");
    let phrase = generate_passphrase(&list, PASSWORD_LEN).expect("list is non-empty");
    assert_eq!(
        phrase.text(),
        "alpha-alpha-alpha-alpha-alpha-alpha-alpha-alpha-alpha-alpha"
    );
}

#[test]
fn empty_list_is_a_configuration_error() {
    assert!(matches!(
        WordList::new(Vec::new()),
        Err(AppError::ConfigurationError)
    ));
    let list = test_list(1);
    // A valid list generates; word count is the caller's constant.
    assert!(generate_passphrase(&list, PASSWORD_LEN).is_ok());
}
