//! Element and collection codecs.
//!
//! An [`Element`] is one foreign sensor value wrapped by a remote schema: it
//! encodes to a flat list of `u64` fields in the schema's declared order, and
//! decodes back from such a list. A sequence of elements encodes to an ordered
//! sequence of field lists, order preserved exactly.

use vstd::prelude::*;

use crate::DecodeError;

verus! {

/// One foreign element wrapped by a remote schema: a fixed field set, in a
/// declared order, each field carried as a `u64`.
pub trait Element: Sized {
    /// The encoded field list of this element, in the schema's declared order.
    spec fn fields_spec(self) -> Seq<u64>;

    /// What decoding a field list yields: the element, or the decode error.
    spec fn of_fields_spec(fields: Seq<u64>) -> Result<Self, DecodeError>;

    /// Decoding what an element encodes to restores the element exactly.
    proof fn lemma_element_round_trip(self)
        ensures
            Self::of_fields_spec(self.fields_spec()) == Ok::<Self, DecodeError>(self),
    ;

    /// Encode this element as its field list.
    fn to_fields(&self) -> (r: Vec<u64>)
        ensures
            r@ == self.fields_spec(),
    ;

    /// Decode one element from a field list.
    fn of_fields(fields: &[u64]) -> (r: Result<Self, DecodeError>)
        ensures
            r == Self::of_fields_spec(fields@),
    ;
}

/// The encoding of a sequence of elements: one field list per element, in
/// storage order.
pub open spec fn encode_seq_spec<T: Element>(xs: Seq<T>) -> Seq<Seq<u64>> {
    Seq::new(xs.len(), |i: int| xs[i].fields_spec())
}

/// What decoding a sequence of field lists yields: the elements in order, or
/// the error of the first field list that fails to decode.
pub open spec fn decode_seq_spec<T: Element>(rows: Seq<Seq<u64>>) -> Result<Seq<T>, DecodeError>
    decreases rows.len(),
{
    if rows.len() == 0 {
        Ok(Seq::empty())
    } else {
        match T::of_fields_spec(rows.first()) {
            Err(e) => Err(e),
            Ok(x) => match decode_seq_spec::<T>(rows.drop_first()) {
                Err(e) => Err(e),
                Ok(rest) => Ok(seq![x] + rest),
            },
        }
    }
}

/// When every field list decodes, the whole sequence decodes to the elements
/// in order.
pub proof fn lemma_decode_seq_all_ok<T: Element>(rows: Seq<Seq<u64>>, out: Seq<T>)
    requires
        out.len() == rows.len(),
        forall|j: int| 0 <= j < rows.len() ==> T::of_fields_spec(rows[j]) == Ok::<T, DecodeError>(out[j]),
    ensures
        decode_seq_spec::<T>(rows) == Ok::<Seq<T>, DecodeError>(out),
    decreases rows.len(),
{
    if rows.len() == 0 {
        assert(out =~= Seq::<T>::empty());
    } else {
        lemma_decode_seq_all_ok::<T>(rows.drop_first(), out.drop_first());
        assert(seq![out[0]] + out.drop_first() =~= out);
    }
}

/// When the field lists before position `k` all decode and the one at `k`
/// fails, the whole sequence decode reports exactly that failure.
pub proof fn lemma_decode_seq_err_at<T: Element>(rows: Seq<Seq<u64>>, k: int, e: DecodeError)
    requires
        0 <= k < rows.len(),
        forall|j: int| 0 <= j < k ==> T::of_fields_spec(rows[j]) is Ok,
        T::of_fields_spec(rows[k]) == Err::<T, DecodeError>(e),
    ensures
        decode_seq_spec::<T>(rows) == Err::<Seq<T>, DecodeError>(e),
    decreases rows.len(),
{
    if k > 0 {
        lemma_decode_seq_err_at::<T>(rows.drop_first(), k - 1, e);
    }
}

/// Round trip: decoding what a sequence of elements encodes to restores the
/// sequence exactly, the empty sequence included.
pub proof fn lemma_seq_round_trip<T: Element>(xs: Seq<T>)
    ensures
        decode_seq_spec::<T>(encode_seq_spec(xs)) == Ok::<Seq<T>, DecodeError>(xs),
{
    let rows = encode_seq_spec(xs);
    assert forall|j: int| 0 <= j < rows.len() implies T::of_fields_spec(rows[j]) == Ok::<
        T,
        DecodeError,
    >(xs[j]) by {
        xs[j].lemma_element_round_trip();
    }
    lemma_decode_seq_all_ok::<T>(rows, xs);
}

/// Encode a sequence of elements in storage order.
pub fn encode_seq<T: Element>(xs: &[T]) -> (r: Vec<Vec<u64>>)
    ensures
        r.deep_view() == encode_seq_spec(xs@),
{
    let mut r: Vec<Vec<u64>> = Vec::new();
    let mut i: usize = 0;
    while i < xs.len()
        invariant
            i <= xs@.len(),
            r@.len() == i,
            forall|j: int| 0 <= j < i ==> #[trigger] r@[j]@ == xs@[j].fields_spec(),
        decreases xs@.len() - i,
    {
        let fields = xs[i].to_fields();
        r.push(fields);
        i += 1;
    }
    assert(r.deep_view() =~~= encode_seq_spec(xs@));
    r
}

/// Decode a sequence of field lists into elements, in order; the first field
/// list that fails to decode decides the error, and nothing is returned of the
/// elements decoded before it.
pub fn decode_seq<T: Element>(rows: &Vec<Vec<u64>>) -> (r: Result<Vec<T>, DecodeError>)
    ensures
        match r {
            Ok(v) => decode_seq_spec::<T>(rows.deep_view()) == Ok::<Seq<T>, DecodeError>(v@),
            Err(e) => decode_seq_spec::<T>(rows.deep_view()) == Err::<Seq<T>, DecodeError>(e),
        },
{
    let ghost grows = rows.deep_view();
    let mut out: Vec<T> = Vec::new();
    let mut i: usize = 0;
    while i < rows.len()
        invariant
            i <= rows@.len(),
            out@.len() == i,
            grows == rows.deep_view(),
            grows.len() == rows@.len(),
            forall|j: int| 0 <= j < rows@.len() ==> grows[j] == #[trigger] rows@[j]@,
            forall|j: int| 0 <= j < i ==> T::of_fields_spec(grows[j]) == Ok::<T, DecodeError>(#[trigger] out@[j]),
        decreases rows@.len() - i,
    {
        match T::of_fields(rows[i].as_slice()) {
            Ok(x) => {
                out.push(x);
            },
            Err(e) => {
                proof {
                    assert forall|j: int| 0 <= j < i implies T::of_fields_spec(grows[j]) is Ok by {
                        assert(T::of_fields_spec(grows[j]) == Ok::<T, DecodeError>(out@[j]));
                    }
                    lemma_decode_seq_err_at::<T>(grows, i as int, e);
                }
                return Err(e);
            },
        }
        i += 1;
    }
    proof {
        lemma_decode_seq_all_ok::<T>(grows, out@);
    }
    Ok(out)
}

} // verus!
