use vstd::prelude::*;

verus! {

/// Where the entries of a Lua table are read from.
#[derive(Debug, Clone, Copy, PartialEq, Eq, Structural)]
pub enum PairsSource {
    /// The iterator returned by the metatable's `__pairs` metamethod.
    Custom,
    /// The table's own entries, iterated raw.
    Raw,
}

/// A table with a `__pairs` metamethod is iterated through it; any other
/// table is iterated raw.
pub fn pairs_source(has_custom_pairs: bool) -> (r: PairsSource)
    ensures
        r == (if has_custom_pairs {
            PairsSource::Custom
        } else {
            PairsSource::Raw
        }),
{
    if has_custom_pairs {
        PairsSource::Custom
    } else {
        PairsSource::Raw
    }
}

/// `prefix` put in front of the entries of a successful collection.
pub open spec fn prepend<T, E>(prefix: Seq<(String, T)>, rest: Result<Seq<(String, T)>, E>) -> Result<
    Seq<(String, T)>,
    E,
> {
    match rest {
        Ok(entries) => Ok(prefix + entries),
        Err(error) => Err(error),
    }
}

/// What collecting the answers of a `__pairs` iterator yields: the entries up
/// to the first end of iteration (`Ok(None)`), or the first error, which
/// stops the collection.
pub open spec fn collected<T, E>(answers: Seq<Result<Option<(String, T)>, E>>) -> Result<
    Seq<(String, T)>,
    E,
>
    decreases answers.len(),
{
    if answers.len() == 0 {
        Ok(Seq::empty())
    } else {
        match answers[0] {
            Err(error) => Err(error),
            Ok(None) => Ok(Seq::empty()),
            Ok(Some(entry)) => prepend(seq![entry], collected(answers.drop_first())),
        }
    }
}

/// How the answers of a `__pairs` iterator add up: the first answer that is
/// not an entry decides. An error there is the result; an end of iteration
/// there (or no such answer) gives exactly the entries before it, in order.
pub proof fn collected_characterized<T, E>(answers: Seq<Result<Option<(String, T)>, E>>)
    ensures
        forall|k: int|
            #![trigger answers[k]]
            0 <= k < answers.len() && answers[k] is Err && (forall|j: int|
                0 <= j < k ==> #[trigger] answers[j] is Ok && answers[j]->Ok_0 is Some)
                ==> collected(answers) == Err::<Seq<(String, T)>, E>(answers[k]->Err_0),
        forall|k: int|
            #![trigger answers[k]]
            0 <= k < answers.len() && answers[k] is Ok && answers[k]->Ok_0 is None && (forall|j: int|
                0 <= j < k ==> #[trigger] answers[j] is Ok && answers[j]->Ok_0 is Some)
                ==> collected(answers) is Ok && collected(answers)->Ok_0.len() == k,
        collected(answers) is Ok ==> {
            let entries = collected(answers)->Ok_0;
            &&& entries.len() <= answers.len()
            &&& forall|j: int|
                0 <= j < entries.len() ==> #[trigger] answers[j] is Ok && answers[j]->Ok_0
                    == Some(entries[j])
            &&& entries.len() == answers.len() || (answers[entries.len() as int] is Ok
                && answers[entries.len() as int]->Ok_0 is None)
        },
        collected(answers) is Err ==> exists|k: int|
            #![trigger answers[k]]
            0 <= k < answers.len() && answers[k] == Err::<Option<(String, T)>, E>(
                collected(answers)->Err_0,
            ) && (forall|j: int|
                0 <= j < k ==> #[trigger] answers[j] is Ok && answers[j]->Ok_0 is Some),
    decreases answers.len(),
{
    if answers.len() > 0 {
        let rest = answers.drop_first();
        collected_characterized(rest);
        assert forall|j: int| 0 <= j < rest.len() implies rest[j] == answers[j + 1] by {}
        match answers[0] {
            Err(error) => {
                assert(collected(answers) == Err::<Seq<(String, T)>, E>(error));
                assert(answers[0] == Err::<Option<(String, T)>, E>(error));
            },
            Ok(None) => {
                assert(collected(answers) == Ok::<Seq<(String, T)>, E>(Seq::empty()));
            },
            Ok(Some(entry)) => {
                assert forall|k: int|
                    #![trigger answers[k]]
                    0 <= k < answers.len() && answers[k] is Err && (forall|j: int|
                        0 <= j < k ==> #[trigger] answers[j] is Ok && answers[j]->Ok_0 is Some)
                        implies collected(answers) == Err::<Seq<(String, T)>, E>(
                    answers[k]->Err_0,
                ) by {
                    assert(rest[k - 1] == answers[k]);
                    assert forall|j: int| 0 <= j < k - 1 implies #[trigger] rest[j] is Ok
                        && rest[j]->Ok_0 is Some by {
                        assert(rest[j] == answers[j + 1]);
                    }
                }
                assert forall|k: int|
                    #![trigger answers[k]]
                    0 <= k < answers.len() && answers[k] is Ok && answers[k]->Ok_0 is None
                        && (forall|j: int|
                        0 <= j < k ==> #[trigger] answers[j] is Ok && answers[j]->Ok_0 is Some)
                        implies collected(answers) is Ok && collected(answers)->Ok_0.len() == k by {
                    assert(rest[k - 1] == answers[k]);
                    assert forall|j: int| 0 <= j < k - 1 implies #[trigger] rest[j] is Ok
                        && rest[j]->Ok_0 is Some by {
                        assert(rest[j] == answers[j + 1]);
                    }
                }
                if collected(answers) is Ok {
                    let tail = collected(rest)->Ok_0;
                    let entries = collected(answers)->Ok_0;
                    assert(entries == seq![entry] + tail);
                    assert forall|j: int|
                        0 <= j < entries.len() implies #[trigger] answers[j] is Ok
                        && answers[j]->Ok_0 == Some(entries[j]) by {
                        if j > 0 {
                            assert(rest[j - 1] == answers[j]);
                        }
                    }
                    if tail.len() < rest.len() {
                        assert(rest[tail.len() as int] == answers[entries.len() as int]);
                    }
                }
                if collected(answers) is Err {
                    let k = choose|k: int|
                        #![trigger rest[k]]
                        0 <= k < rest.len() && rest[k] == Err::<Option<(String, T)>, E>(
                            collected(rest)->Err_0,
                        ) && (forall|j: int|
                            0 <= j < k ==> #[trigger] rest[j] is Ok && rest[j]->Ok_0 is Some);
                    assert(answers[k + 1] == rest[k]);
                    assert forall|j: int| 0 <= j < k + 1 implies #[trigger] answers[j] is Ok
                        && answers[j]->Ok_0 is Some by {
                        if j > 0 {
                            assert(rest[j - 1] == answers[j]);
                        }
                    }
                }
            },
        }
    }
}

/// Collects the answers of a `__pairs` iterator, in order.
pub fn collect_pair_answers<T, E>(answers: Vec<Result<Option<(String, T)>, E>>) -> (r: Result<
    Vec<(String, T)>,
    E,
>)
    ensures
        collected(answers@) == (match r {
            Ok(entries) => Ok::<Seq<(String, T)>, E>(entries@),
            Err(error) => Err(error),
        }),
        forall|k: int|
            #![trigger answers@[k]]
            0 <= k < answers@.len() && answers@[k] is Err && (forall|j: int|
                0 <= j < k ==> #[trigger] answers@[j] is Ok && answers@[j]->Ok_0 is Some) ==> r
                == Err::<Vec<(String, T)>, E>(answers@[k]->Err_0),
        r is Ok ==> r->Ok_0@.len() <= answers@.len(),
        r is Ok ==> forall|j: int|
            0 <= j < r->Ok_0@.len() ==> #[trigger] answers@[j] is Ok && answers@[j]->Ok_0 == Some(
                r->Ok_0@[j],
            ),
        r is Ok ==> r->Ok_0@.len() == answers@.len() || (answers@[r->Ok_0@.len() as int] is Ok
            && answers@[r->Ok_0@.len() as int]->Ok_0 is None),
        r is Err ==> exists|k: int|
            #![trigger answers@[k]]
            0 <= k < answers@.len() && answers@[k] == Err::<Option<(String, T)>, E>(r->Err_0) && (
            forall|j: int| 0 <= j < k ==> #[trigger] answers@[j] is Ok && answers@[j]->Ok_0 is Some),
{
    let ghost orig = answers@;
    let n = answers.len();
    let mut input = answers;
    let mut entries: Vec<(String, T)> = Vec::new();
    let mut i: usize = 0;
    assert(orig.skip(0) =~= orig);
    assert(prepend(entries@, collected(orig.skip(0))) == collected(orig)) by {
        match collected(orig) {
            Ok(rest) => assert(entries@ + rest =~= rest),
            Err(_) => {},
        }
    }
    while i < n
        invariant
            orig == answers@,
            n == orig.len(),
            i <= n,
            input@ == orig.skip(i as int),
            collected(orig) == prepend(entries@, collected(orig.skip(i as int))),
        decreases n - i,
    {
        let answer = input.remove(0);
        let ghost rest = orig.skip(i as int);
        assert(rest.drop_first() =~= orig.skip(i + 1));
        assert(answer == rest[0]);
        match answer {
            Err(error) => {
                assert(collected(rest) == Err::<Seq<(String, T)>, E>(error));
                assert(collected(orig) == Err::<Seq<(String, T)>, E>(error));
                proof {
                    collected_characterized(orig);
                }
                return Err(error);
            },
            Ok(None) => {
                assert(collected(rest) == Ok::<Seq<(String, T)>, E>(Seq::empty()));
                assert(entries@ + Seq::<(String, T)>::empty() =~= entries@);
                proof {
                    collected_characterized(orig);
                }
                return Ok(entries);
            },
            Ok(Some(entry)) => {
                let ghost before = entries@;
                assert(collected(rest) == prepend(seq![entry], collected(rest.drop_first())));
                entries.push(entry);
                assert(prepend(before, prepend(seq![entry], collected(orig.skip(i + 1)))) == prepend(
                    entries@,
                    collected(orig.skip(i + 1)),
                )) by {
                    match collected(orig.skip(i + 1)) {
                        Ok(tail) => assert(before + (seq![entry] + tail) =~= entries@ + tail),
                        Err(_) => {},
                    }
                }
            },
        }
        i = i + 1;
    }
    assert(orig.skip(n as int) =~= Seq::<Result<Option<(String, T)>, E>>::empty());
    assert(entries@ + Seq::<(String, T)>::empty() =~= entries@);
    proof {
        collected_characterized(orig);
    }
    Ok(entries)
}

} // verus!
