use vstd::prelude::*;
use vstd::string::*;
use crate::enums::InstructorResponse;
use crate::error::{Error, ErrorView};

verus! {

/// A validation context: any value that can be shared by every attempt and
/// every record of a call.
pub trait BaseArg: Clone + Send + Sync + 'static {

}

impl<A: Clone + Send + Sync + 'static> BaseArg for A {

}

/// The list form of a payload that holds objects separated by commas: the
/// payload inside square brackets.
pub fn bracket_batch(payload: &str) -> (r: String)
    ensures
        r@ == "["@ + payload@ + "]"@,
{
    let mut r = String::from_str("[");
    r.append(payload);
    r.append("]");
    r
}

/// The verdict on a single-record payload, given how decoding went (`Err`
/// with the decoder's message when the payload is not one record of the
/// schema) and, when it decoded, how validation of the record went (`Err`
/// with all the violations described together).
pub open spec fn single_verdict<T>(checked: Result<Result<T, String>, String>) -> Result<T, ErrorView> {
    match checked {
        Err(m) => Err(ErrorView::SerdeError(m@)),
        Ok(Err(v)) => Err(ErrorView::ValidationErrors(v@)),
        Ok(Ok(x)) => Ok(x),
    }
}

/// The position of the first record that failed validation.
pub open spec fn first_invalid<T>(items: Seq<Result<T, String>>) -> Option<int> {
    if exists|i: int| 0 <= i < items.len() && items[i] is Err {
        Some(choose|i: int| 0 <= i < items.len() && items[i] is Err && forall|j: int| 0 <= j < i ==> items[j] is Ok)
    } else {
        None
    }
}

/// The verdict on a list payload: a decoding failure rejects the whole batch;
/// otherwise the first record that failed validation decides, and only when
/// every record is valid is the list of records returned, in order.
pub open spec fn many_verdict<T>(checked: Result<Seq<Result<T, String>>, String>) -> Result<Seq<T>, ErrorView> {
    match checked {
        Err(m) => Err(ErrorView::SerdeError(m@)),
        Ok(items) => match first_invalid(items) {
            Some(i) => Err(ErrorView::ValidationErrors(items[i]->Err_0@)),
            None => Ok(items.map_values(|r: Result<T, String>| r->Ok_0)),
        },
    }
}

/// The envelope and error of a call as a verdict on records.
pub open spec fn envelope_one<T, S>(r: Result<InstructorResponse<T, S>, Error>) -> Result<T, ErrorView> {
    match r {
        Ok(InstructorResponse::One(x)) => Ok(x),
        Ok(_) => Err(ErrorView::Generic(seq![])),
        Err(e) => Err(e@),
    }
}

/// The envelope and error of a call as a verdict on a list of records.
pub open spec fn envelope_many<T, S>(r: Result<InstructorResponse<T, S>, Error>) -> Result<Seq<T>, ErrorView> {
    match r {
        Ok(InstructorResponse::Many(v)) => Ok(v@),
        Ok(_) => Err(ErrorView::Generic(seq![])),
        Err(e) => Err(e@),
    }
}

/// The view of a decoded and validated batch.
pub open spec fn batch_view<T>(checked: Result<Vec<Result<T, String>>, String>) -> Result<Seq<Result<T, String>>, String> {
    match checked {
        Ok(v) => Ok(v@),
        Err(m) => Err(m),
    }
}

/// Settles a single-record payload (see `single_verdict`): `One(record)` when
/// it decoded and validated.
pub fn validate_single<T, S>(checked: Result<Result<T, String>, String>) -> (r: Result<InstructorResponse<T, S>, Error>)
    ensures
        r is Ok ==> r->Ok_0 is One,
        envelope_one(r) == single_verdict(checked),
{
    match checked {
        Err(m) => Err(Error::SerdeError(m)),
        Ok(Err(v)) => Err(Error::ValidationErrors(v)),
        Ok(Ok(x)) => Ok(InstructorResponse::One(x)),
    }
}

/// Settles a list payload (see `many_verdict`): `Many(records)` when it
/// decoded and every record validated, the first failure otherwise.
pub fn validate_many<T, S>(checked: Result<Vec<Result<T, String>>, String>) -> (r: Result<InstructorResponse<T, S>, Error>)
    ensures
        r is Ok ==> r->Ok_0 is Many,
        envelope_many(r) == many_verdict(batch_view(checked)),
{
    match checked {
        Err(m) => Err(Error::SerdeError(m)),
        Ok(items) => {
            let ghost all = items@;
            assert(batch_view(checked) == Ok::<Seq<Result<T, String>>, String>(all));
            let mut rest = items;
            let mut records: Vec<T> = Vec::new();
            let ghost mut done: int = 0;
            assert(all.take(0).map_values(|r: Result<T, String>| r->Ok_0) =~= records@);
            while rest.len() > 0
                invariant
                    0 <= done <= all.len(),
                    batch_view(checked) == Ok::<Seq<Result<T, String>>, String>(all),
                    rest@.len() == all.len() - done,
                    rest@ == all.skip(done),
                    forall|j: int| 0 <= j < done ==> all[j] is Ok,
                    records@ == all.take(done).map_values(|r: Result<T, String>| r->Ok_0),
                decreases rest@.len(),
            {
                let ghost prior = rest@;
                assert(prior[0] == all[done]);
                let item = rest.remove(0);
                assert(rest@ =~= all.skip(done + 1));
                match item {
                    Err(v) => {
                        proof {
                            assert(exists|i: int| 0 <= i < all.len() && all[i] is Err);
                            let i = choose|i: int|
                                0 <= i < all.len() && all[i] is Err && forall|j: int| 0 <= j < i ==> all[j] is Ok;
                            assert(forall|j: int| 0 <= j < done ==> all[j] is Ok);
                            if i < done {
                                assert(all[i] is Ok);
                            }
                            if i > done {
                                assert(all[done] is Ok);
                            }
                            assert(first_invalid(all) == Some(done));
                            assert(all[done] == Err::<T, String>(v));
                        }
                        return Err(Error::ValidationErrors(v));
                    },
                    Ok(x) => {
                        records.push(x);
                        assert(all.take(done + 1).map_values(|r: Result<T, String>| r->Ok_0) =~= all.take(
                            done,
                        ).map_values(|r: Result<T, String>| r->Ok_0).push(x));
                        proof {
                            done = done + 1;
                        }
                    },
                }
            }
            assert(all.take(done) =~= all);
            assert(first_invalid(all) is None);
            Ok(InstructorResponse::Many(records))
        },
    }
}

/// The rule of `TestStruct`'s custom validator: the value equals the product
/// of the two context values.
pub open spec fn value_is_product(v: i64, arg: (i64, i64)) -> bool {
    v as int == arg.0 as int * arg.1 as int
}

/// A custom field validator that takes a context: `v` must equal the product
/// of the two values of `arg`.
pub fn validate_value(v: i64, arg: (i64, i64)) -> (r: Result<(), String>)
    ensures
        r is Ok <==> value_is_product(v, arg),
        r is Err ==> r->Err_0@ == "value must be equal to the product of the two arguments"@,
{
    let a = arg.0 as i128;
    let b = arg.1 as i128;
    assert(-0x8000_0000_0000_0000 <= a <= 0x7fff_ffff_ffff_ffff);
    assert(-0x8000_0000_0000_0000 <= b <= 0x7fff_ffff_ffff_ffff);
    assert(-0x4000_0000_0000_0000_0000_0000_0000_0000 <= a * b <= 0x4000_0000_0000_0000_0000_0000_0000_0000)
        by (nonlinear_arith)
        requires
            -0x8000_0000_0000_0000 <= a <= 0x7fff_ffff_ffff_ffff,
            -0x8000_0000_0000_0000 <= b <= 0x7fff_ffff_ffff_ffff,
    ;
    if v as i128 != a * b {
        Err(String::from_str("value must be equal to the product of the two arguments"))
    } else {
        Ok(())
    }
}

/// A record with one field whose custom validator needs a context of two values.
#[derive(Debug, Clone, Copy, Default, PartialEq, Eq, Structural)]
pub struct TestStruct {
    pub value: i64,
}

impl TestStruct {
    /// Applies the record's field rules with the context `arg`.
    pub fn validate(&self, arg: (i64, i64)) -> (r: Result<(), String>)
        ensures
            r is Ok <==> value_is_product(self.value, arg),
    {
        validate_value(self.value, arg)
    }
}

/// Settling has no hidden state: the same decoded payload and the same
/// validation results always give the same verdict, for a single record and
/// for a list.
pub proof fn lemma_verdict_is_repeatable<T>(
    one: Result<Result<T, String>, String>,
    many: Result<Seq<Result<T, String>>, String>,
    r1: Result<T, ErrorView>,
    r2: Result<T, ErrorView>,
    m1: Result<Seq<T>, ErrorView>,
    m2: Result<Seq<T>, ErrorView>,
)
    requires
        r1 == single_verdict(one),
        r2 == single_verdict(one),
        m1 == many_verdict(many),
        m2 == many_verdict(many),
    ensures
        r1 == r2,
        m1 == m2,
{
}

} // verus!
