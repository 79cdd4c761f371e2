use haproxy_api::pairs::{collect_pair_answers, pairs_source, PairsSource};

#[test]
fn custom_pairs_are_used_only_when_present() {
    assert_eq!(pairs_source(true), PairsSource::Custom);
    assert_eq!(pairs_source(false), PairsSource::Raw);
}

#[test]
fn pair_answers_stop_at_the_end_of_iteration() {
    let answers: Vec<Result<Option<(String, u32)>, &str>> = vec![
        Ok(Some(("a".to_string(), 1))),
        Ok(Some(("b".to_string(), 2))),
        Ok(None),
        Ok(Some(("c".to_string(), 3))),
    ];
    assert_eq!(
        collect_pair_answers(answers),
        Ok(vec![("a".to_string(), 1), ("b".to_string(), 2)])
    );
}

#[test]
fn pair_answers_return_the_first_error() {
    let answers: Vec<Result<Option<(String, u32)>, &str>> = vec![
        Ok(Some(("a".to_string(), 1))),
        Err("bad key"),
        Err("later"),
    ];
    assert_eq!(collect_pair_answers(answers), Err("bad key"));
}

#[test]
fn pair_answers_without_end_keep_every_entry() {
    let answers: Vec<Result<Option<(String, u32)>, &str>> =
        vec![Ok(Some(("x".to_string(), 7))), Ok(Some(("y".to_string(), 8)))];
    assert_eq!(
        collect_pair_answers(answers),
        Ok(vec![("x".to_string(), 7), ("y".to_string(), 8)])
    );
    let empty: Vec<Result<Option<(String, u32)>, &str>> = Vec::new();
    assert_eq!(collect_pair_answers(empty), Ok(Vec::new()));
}
