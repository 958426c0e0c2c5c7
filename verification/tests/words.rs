use pickle::generate::generate_words;
use pickle::messages::{Words, WordsResponse};

#[test]
fn words_from_wordsresponse() {
    let p = WordsResponse {
        words: vec![String::from("happy"), String::from("hungry"), String::from("hare")],
        ..Default::default()
    };
    let s = Words::from(p);
    assert_eq!(s, Words {
        words: vec![String::from("happy"), String::from("hungry"), String::from("hare")],
        timestamp: None,
        signature: None,
    })
}

#[test]
fn main_words_from_wordsresponse() {
    let p = WordsResponse {
        words: vec![
            String::from("happy"),
            String::from("hungry"),
            String::from("hare"),
        ],
        ..Default::default()
    };
    let s = Words::from(p);
    assert_eq!(
        s,
        Words {
            words: vec![
                String::from("happy"),
                String::from("hungry"),
                String::from("hare")
            ],
            timestamp: None,
            signature: None,
        }
    )
}

#[test]
fn generate_words_with_one() {
    let a = generate_words(1);
    assert_eq!(a.len(), 1);
    assert!(a[0].len() > 0);
}

#[test]
fn generate_words_with_two() {
    let a = generate_words(2);
    assert_eq!(a.len(), 2);
    assert!(a[0].len() > 0);
    assert!(a[1].len() > 0);
}

#[test]
fn generate_words_with_zero() {
    let a = generate_words(0);
    assert_eq!(a.len(), 0);
}

#[test]
fn generate_words_with_three() {
    let a = generate_words(3);
    assert_eq!(a.len(), 3);
    assert_eq!(a.into_iter().filter(|w| w.len() > 0).collect::<Vec<String>>().len(), 3);
}

#[test]
fn generate_words_with_even() {
    let a = generate_words(42);
    assert_eq!(a.len(), 42);
    assert_eq!(a.into_iter().filter(|w| w.len() > 0).collect::<Vec<String>>().len(), 42);
}

#[test]
fn generate_words_with_odd() {
    let a = generate_words(93);
    assert_eq!(a.len(), 93);
    assert_eq!(a.into_iter().filter(|w| w.len() > 0).collect::<Vec<String>>().len(), 93);
}

#[test]
fn main_generate_words_with_one() {
    let a = generate_words(1);
    assert_eq!(a.len(), 1);
    assert!(a[0].len() > 0);
}

#[test]
fn main_generate_words_with_two() {
    let a = generate_words(2);
    assert_eq!(a.len(), 2);
    assert!(a[0].len() > 0);
    assert!(a[1].len() > 0);
}

#[test]
fn main_generate_words_with_zero() {
    let a = generate_words(0);
    assert_eq!(a.len(), 0);
}

#[test]
fn main_generate_words_with_three() {
    let a = generate_words(3);
    assert_eq!(a.len(), 3);
    assert_eq!(
        a.into_iter()
            .filter(|w| w.len() > 0)
            .collect::<Vec<String>>()
            .len(),
        3
    );
}

#[test]
fn main_generate_words_with_even() {
    let a = generate_words(42);
    assert_eq!(a.len(), 42);
    assert_eq!(
        a.into_iter()
            .filter(|w| w.len() > 0)
            .collect::<Vec<String>>()
            .len(),
        42
    );
}

#[test]
fn main_generate_words_with_odd() {
    let a = generate_words(93);
    assert_eq!(a.len(), 93);
    assert_eq!(
        a.into_iter()
            .filter(|w| w.len() > 0)
            .collect::<Vec<String>>()
            .len(),
        93
    );
}
