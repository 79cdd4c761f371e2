use vstd::prelude::*;

verus! {

/// How several request headers are fetched.
#[derive(Debug, Clone, Copy, PartialEq, Eq, Structural)]
pub enum HeaderFetchSource {
    /// One call of HAProxy's batched `req_fhdrs` fetch; its answer, error
    /// included, is the result.
    Batched,
    /// One `req_fhdr` fetch per name, in the order of the names.
    OneByOne,
}

/// The batched fetch is used whenever HAProxy offers it; the per-name
/// fallback only when it does not.
pub fn header_fetch_source(has_batched_fetch: bool) -> (r: HeaderFetchSource)
    ensures
        r == (if has_batched_fetch {
            HeaderFetchSource::Batched
        } else {
            HeaderFetchSource::OneByOne
        }),
{
    if has_batched_fetch {
        HeaderFetchSource::Batched
    } else {
        HeaderFetchSource::OneByOne
    }
}

/// What the per-name answers add up to: every value, in the order of the
/// names (`None` for a missing header), or the first error.
pub open spec fn header_answers<S, E>(answers: Seq<Result<Option<S>, E>>) -> Result<Seq<Option<S>>, E>
    decreases answers.len(),
{
    if answers.len() == 0 {
        Ok(Seq::empty())
    } else {
        match answers[0] {
            Err(error) => Err(error),
            Ok(value) => match header_answers(answers.drop_first()) {
                Ok(rest) => Ok(seq![value] + rest),
                Err(error) => Err(error),
            },
        }
    }
}

/// The per-name answers add up to the first error among them, if any; and
/// when they add up to values, every answer was a value, kept at its place.
pub proof fn header_answers_characterized<S, E>(answers: Seq<Result<Option<S>, E>>)
    ensures
        forall|k: int|
            #![trigger answers[k]]
            0 <= k < answers.len() && answers[k] is Err && (forall|j: int|
                0 <= j < k ==> #[trigger] answers[j] is Ok) ==> header_answers(answers) == Err::<
                Seq<Option<S>>,
                E,
            >(answers[k]->Err_0),
        header_answers(answers) is Ok ==> header_answers(answers)->Ok_0.len() == answers.len(),
        header_answers(answers) is Ok ==> forall|k: int|
            0 <= k < answers.len() ==> #[trigger] answers[k] is Ok && header_answers(
                answers,
            )->Ok_0[k] == answers[k]->Ok_0,
    decreases answers.len(),
{
    if answers.len() > 0 {
        let rest = answers.drop_first();
        header_answers_characterized(rest);
        assert forall|k: int|
            #![trigger answers[k]]
            0 <= k < answers.len() && answers[k] is Err && (forall|j: int|
                0 <= j < k ==> #[trigger] answers[j] is Ok) implies header_answers(answers) == Err::<
            Seq<Option<S>>,
            E,
        >(answers[k]->Err_0) by {
            if k > 0 {
                assert(answers[0] is Ok);
                assert(rest[k - 1] == answers[k]);
                assert forall|j: int| 0 <= j < k - 1 implies #[trigger] rest[j] is Ok by {
                    assert(rest[j] == answers[j + 1]);
                }
            }
        }
        if header_answers(answers) is Ok {
            assert forall|k: int|
                0 <= k < answers.len() implies #[trigger] answers[k] is Ok && header_answers(
                answers,
            )->Ok_0[k] == answers[k]->Ok_0 by {
                if k > 0 {
                    assert(rest[k - 1] == answers[k]);
                }
            }
        }
    }
}

/// Gathers the per-name fetch answers, one per requested name; the first
/// error is the result.
pub fn collect_header_answers<S, E>(answers: Vec<Result<Option<S>, E>>) -> (r: Result<
    Vec<Option<S>>,
    E,
>)
    ensures
        header_answers(answers@) == (match r {
            Ok(values) => Ok::<Seq<Option<S>>, E>(values@),
            Err(error) => Err(error),
        }),
        r is Ok ==> r->Ok_0@.len() == answers@.len(),
        r is Ok ==> forall|k: int|
            0 <= k < answers@.len() ==> #[trigger] answers@[k] is Ok && r->Ok_0@[k]
                == answers@[k]->Ok_0,
        forall|k: int|
            #![trigger answers@[k]]
            0 <= k < answers@.len() && answers@[k] is Err && (forall|j: int|
                0 <= j < k ==> #[trigger] answers@[j] is Ok) ==> r == Err::<Vec<Option<S>>, E>(
                answers@[k]->Err_0,
            ),
{
    proof {
        header_answers_characterized(answers@);
    }
    let ghost orig = answers@;
    let n = answers.len();
    let mut input = answers;
    let mut values: Vec<Option<S>> = Vec::new();
    let mut i: usize = 0;
    assert(orig.skip(0) =~= orig);
    while i < n
        invariant
            orig == answers@,
            n == orig.len(),
            i <= n,
            values@.len() == i,
            input@ == orig.skip(i as int),
            header_answers(orig) == (match header_answers(orig.skip(i as int)) {
                Ok(rest) => Ok(values@ + rest),
                Err(error) => Err(error),
            }),
        decreases n - i,
    {
        let answer = input.remove(0);
        let ghost rest = orig.skip(i as int);
        assert(rest.drop_first() =~= orig.skip(i + 1));
        assert(answer == rest[0]);
        match answer {
            Err(error) => {
                assert(header_answers(rest) == Err::<Seq<Option<S>>, E>(error));
                proof {
                    header_answers_characterized(orig);
                }
                return Err(error);
            },
            Ok(value) => {
                let ghost before = values@;
                values.push(value);
                proof {
                    match header_answers(orig.skip(i + 1)) {
                        Ok(tail) => {
                            assert(before + (seq![value] + tail) =~= values@ + tail);
                        },
                        Err(_) => {},
                    }
                }
            },
        }
        i = i + 1;
    }
    assert(orig.skip(n as int) =~= Seq::<Result<Option<S>, E>>::empty());
    assert(values@ + Seq::<Option<S>>::empty() =~= values@);
    Ok(values)
}

/// Where a transaction's converters come from.
#[derive(Debug, Clone, Copy, PartialEq, Eq, Structural)]
pub enum ConvertersSource {
    /// HAProxy gave no converters class for this transaction.
    Absent,
    /// HAProxy gave a converters class (a table).
    Class,
}

/// A nil converters value is a supported absence; anything else must be the
/// converters class.
pub fn converters_source(is_nil: bool) -> (r: ConvertersSource)
    ensures
        r == (if is_nil {
            ConvertersSource::Absent
        } else {
            ConvertersSource::Class
        }),
{
    if is_nil {
        ConvertersSource::Absent
    } else {
        ConvertersSource::Class
    }
}

/// Calling a converter fails when the transaction has no converters class.
pub fn converters_call(source: ConvertersSource) -> (r: Result<(), &'static str>)
    ensures
        source == ConvertersSource::Class ==> r == Ok::<(), &'static str>(()),
        source == ConvertersSource::Absent ==> r is Err && r->Err_0@
            == "converters are unavailable for this transaction"@,
{
    match source {
        ConvertersSource::Class => Ok(()),
        ConvertersSource::Absent => Err("converters are unavailable for this transaction"),
    }
}

} // verus!
