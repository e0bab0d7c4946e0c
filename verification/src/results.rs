//! The result of one execution: the raw rows, and their decoding on demand.

use std::marker::PhantomData;
use vstd::prelude::*;
use crate::error::ErrorKind;
use crate::mapper::{Entity, RowMapper};
use crate::row::{AnyRow, NativeRow, Row, RowModel};

verus! {

/// What a sequence of rows decodes to: the entities of the rows in order,
/// or the failure of the first row that does not decode.
pub open spec fn decode_all<T: Entity, Z: RowMapper<T>>(rows: Seq<RowModel>) -> Result<
    Seq<T::Model>,
    ErrorKind,
>
    decreases rows.len(),
{
    if rows.len() == 0 {
        Ok(Seq::empty())
    } else {
        match decode_all::<T, Z>(rows.drop_last()) {
            Ok(entities) => match Z::entity_of(rows.last()) {
                Ok(entity) => Ok(entities.push(entity)),
                Err(e) => Err(e),
            },
            Err(e) => Err(e),
        }
    }
}

/// Once a prefix of the rows fails to decode, every longer prefix fails in
/// the same way.
pub proof fn lemma_failure_stays<T: Entity, Z: RowMapper<T>>(
    rows: Seq<RowModel>,
    k: int,
    n: int,
)
    requires
        0 <= k <= n <= rows.len(),
        decode_all::<T, Z>(rows.take(k)) is Err,
    ensures
        decode_all::<T, Z>(rows.take(n)) == decode_all::<T, Z>(rows.take(k)),
    decreases n - k,
{
    if n > k {
        lemma_failure_stays::<T, Z>(rows, k, n - 1);
        assert(rows.take(n).drop_last() =~= rows.take(n - 1));
    }
}

/// What the entities of a sequence are.
pub open spec fn models<T: Entity>(entities: Seq<T>) -> Seq<T::Model> {
    Seq::new(entities.len(), |i: int| entities[i].model())
}

/// The model of what a decoding of rows returned.
pub open spec fn response_view<T: Entity>(r: Result<Vec<T>, ErrorKind>) -> Result<
    Seq<T::Model>,
    ErrorKind,
> {
    match r {
        Ok(entities) => Ok(models(entities@)),
        Err(e) => Err(e),
    }
}

/// What the rows of a vector are.
pub open spec fn row_models(rows: Seq<AnyRow>) -> Seq<RowModel> {
    Seq::new(rows.len(), |i: int| rows[i].row_model())
}

/// The rows that one execution returned, to be decoded into entities of type
/// `T`.
pub struct DatabaseResult<T> {
    wrapper: Vec<AnyRow>,
    _phantom_data: PhantomData<T>,
}

impl<T: Entity> DatabaseResult<T> {
    /// The raw rows, as they were wrapped.
    pub closed spec fn raw(&self) -> Vec<AnyRow> {
        self.wrapper
    }

    /// What the raw rows are.
    pub open spec fn rows(&self) -> Seq<RowModel> {
        row_models(self.raw()@)
    }

    /// Wraps the rows of one execution.
    pub fn new(result: Vec<AnyRow>) -> (r: Self)
        ensures
            r.raw() == result,
    {
        Self { wrapper: result, _phantom_data: PhantomData }
    }

    /// The entities that the rows decode to, in the order of the rows, or
    /// the failure of the first row that does not decode. The rows stay as
    /// they are.
    pub fn as_response<Z: RowMapper<T>>(&self) -> (r: Result<Vec<T>, ErrorKind>)
        ensures
            response_view(r) == decode_all::<T, Z>(self.rows()),
    {
        let mut results: Vec<T> = Vec::new();
        let mut i: usize = 0;
        proof {
            assert(self.rows().take(0).len() == 0);
            assert(models(results@) =~= Seq::<T::Model>::empty());
        }
        while i < self.wrapper.len()
            invariant
                i <= self.wrapper.len(),
                decode_all::<T, Z>(self.rows().take(i as int)) == Ok::<Seq<T::Model>, ErrorKind>(
                    models(results@),
                ),
            decreases self.wrapper.len() - i,
        {
            let decoded = match self.wrapper[i].native() {
                NativeRow::Postgres(row) => Z::deserialize_postgresql(row),
                NativeRow::SqlServer(row) => Z::deserialize_sqlserver(row),
            };
            proof {
                let next = self.rows().take(i + 1);
                assert(next.drop_last() =~= self.rows().take(i as int));
                assert(next.last() == self.wrapper[i as int].row_model());
            }
            match decoded {
                Ok(entity) => {
                    let ghost before = models(results@);
                    results.push(entity);
                    assert(models(results@) =~= before.push(entity.model()));
                },
                Err(e) => {
                    proof {
                        lemma_failure_stays::<T, Z>(
                            self.rows(),
                            i + 1,
                            self.rows().len() as int,
                        );
                        assert(self.rows().take(self.rows().len() as int) =~= self.rows());
                    }
                    return Err(e);
                },
            }
            i += 1;
        }
        assert(self.rows().take(i as int) =~= self.rows());
        Ok(results)
    }

    /// The raw rows, as the backend returned them.
    pub fn get_results(&self) -> (rows: &Vec<AnyRow>)
        ensures
            *rows == self.raw(),
    {
        &self.wrapper
    }

    /// How many rows the execution returned, as far as an `i32` can say: a
    /// count above `i32::MAX` is cut to its low 32 bits.
    pub fn get_number_of_results(&self) -> (n: i32)
        ensures
            n == self.rows().len() as i32,
    {
        self.wrapper.len() as i32
    }
}

/// Decoding is repeatable: whatever two decodings of the same result
/// return, they are the same entities in the same order, or the same
/// failure. (The rows cannot change in between: decoding only borrows the
/// result.)
pub proof fn lemma_decode_repeatable<T: Entity, Z: RowMapper<T>>(
    result: DatabaseResult<T>,
    first: Result<Vec<T>, ErrorKind>,
    second: Result<Vec<T>, ErrorKind>,
)
    requires
        response_view(first) == decode_all::<T, Z>(result.rows()),
        response_view(second) == decode_all::<T, Z>(result.rows()),
    ensures
        response_view(first) == response_view(second),
{
}

/// Rows that all decode give one entity for each row, in the order of the
/// rows.
pub proof fn lemma_decode_all_ok<T: Entity, Z: RowMapper<T>>(rows: Seq<RowModel>)
    requires
        forall|i: int| 0 <= i < rows.len() ==> Z::entity_of(#[trigger] rows[i]) is Ok,
    ensures
        decode_all::<T, Z>(rows) matches Ok(entities) && entities.len() == rows.len() && forall|
            i: int,
        |
            0 <= i < rows.len() ==> Z::entity_of(rows[i]) == Ok::<T::Model, ErrorKind>(
                #[trigger] entities[i],
            ),
    decreases rows.len(),
{
    if rows.len() > 0 {
        lemma_decode_all_ok::<T, Z>(rows.drop_last());
        assert(Z::entity_of(rows[rows.len() - 1]) is Ok);
        assert forall|i: int| 0 <= i < rows.drop_last().len() implies Z::entity_of(
            #[trigger] rows.drop_last()[i],
        ) is Ok by {
            assert(rows.drop_last()[i] == rows[i]);
        }
    }
}

} // verus!
