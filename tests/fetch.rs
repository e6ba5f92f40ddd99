use dalle::fetch::{artifact_filename, fresh_filename};
use dalle::{fetch_all, DalleResponse, FetchError};

fn refs(n: usize) -> Vec<DalleResponse> {
    (0..n)
        .map(|i| DalleResponse { image_url: format!("https://images.test/{}.webp", i) })
        .collect()
}

fn looks_fresh(name: &str) -> bool {
    name.len() == 41 && name.ends_with(".webp") && name.chars().filter(|c| *c == '-').count() == 4
}

#[test]
fn one_failure_of_four() {
    let downloads = vec![
        Ok(vec![1u8]),
        Ok(vec![2u8]),
        Err("404 Not Found".to_string()),
        Ok(vec![4u8]),
    ];
    let random: Vec<u128> = vec![1, 2, 3, 4];
    let (fetched, errors) = fetch_all(&refs(4), downloads, &random);
    let contents: Vec<Vec<u8>> = fetched.iter().map(|a| a.content.clone()).collect();
    assert_eq!(contents, vec![vec![1u8], vec![2u8], vec![4u8]]);
    assert!(fetched.iter().all(|a| looks_fresh(&a.filename)));
    assert_eq!(fetched[2].filename, fresh_filename(4));
    assert_eq!(
        errors,
        vec![FetchError {
            image_url: "https://images.test/2.webp".to_string(),
            message: "404 Not Found".to_string()
        }]
    );
}

#[test]
fn empty_batch() {
    let (fetched, errors) = fetch_all(&Vec::new(), Vec::new(), &Vec::new());
    assert!(fetched.is_empty());
    assert!(errors.is_empty());
}

#[test]
fn all_fail() {
    let downloads = vec![Err("a".to_string()), Err("b".to_string())];
    let (fetched, errors) = fetch_all(&refs(2), downloads, &vec![7, 8]);
    assert!(fetched.is_empty());
    assert_eq!(errors.len(), 2);
    assert_eq!(errors[1].image_url, "https://images.test/1.webp");
}

#[test]
fn names_are_fresh() {
    let a = fresh_filename(0);
    let b = fresh_filename(0x0123_4567_89ab_cdef_0123_4567_89ab_cdef);
    assert!(looks_fresh(&a));
    assert!(looks_fresh(&b));
    assert_ne!(a, b);
    assert_eq!(a, "00000000-0000-4000-8000-000000000000.webp");
    assert_eq!(fresh_filename(0), a);
    assert_eq!(artifact_filename("x"), "x.webp");
}
