use haproxy_api::fetch::{
    collect_header_answers, converters_call, converters_source, header_fetch_source,
    ConvertersSource, HeaderFetchSource,
};

#[test]
fn batched_fetch_is_preferred() {
    assert_eq!(header_fetch_source(true), HeaderFetchSource::Batched);
    assert_eq!(header_fetch_source(false), HeaderFetchSource::OneByOne);
}

#[test]
fn header_answers_keep_name_order_and_missing_headers() {
    let answers: Vec<Result<Option<&str>, &str>> = vec![Ok(Some("a")), Ok(None), Ok(Some("c"))];
    assert_eq!(
        collect_header_answers(answers),
        Ok(vec![Some("a"), None, Some("c")])
    );
}

#[test]
fn header_answers_return_the_first_error() {
    let answers: Vec<Result<Option<&str>, &str>> =
        vec![Ok(Some("a")), Err("first"), Ok(None), Err("second")];
    assert_eq!(collect_header_answers(answers), Err("first"));
}

#[test]
fn converters_need_a_class() {
    assert_eq!(converters_source(true), ConvertersSource::Absent);
    assert_eq!(converters_source(false), ConvertersSource::Class);
    assert_eq!(converters_call(ConvertersSource::Class), Ok(()));
    assert_eq!(
        converters_call(ConvertersSource::Absent),
        Err("converters are unavailable for this transaction")
    );
}
