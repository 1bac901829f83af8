//! Reading typed values from JSON values and writing them back.

use crate::error::{result_view, DecodeError, DecodeErrorView};
use crate::json::{array_value, json_of, trees, Json};
use vstd::prelude::*;

verus! {

/// A type whose values can be read from a JSON value.
pub trait Decode: DeepView + Sized {
    /// What a tree decodes to: the view of the value it stands for, or the
    /// error that says why it stands for none.
    spec fn decoded(j: Json) -> Result<Self::V, DecodeErrorView>;

    /// Reads a value of this type from `v`.
    fn decode(v: &serde_json::Value) -> (r: Result<Self, DecodeError>)
        ensures
            result_view(r) == Self::decoded(json_of(*v)),
    ;
}

/// Whether `i` is the place of the first element of `items` that does not
/// decode.
pub open spec fn first_failure<T: Decode>(items: Seq<Json>, i: int) -> bool {
    &&& 0 <= i < items.len()
    &&& T::decoded(items[i]) is Err
    &&& forall|k: int| 0 <= k < i ==> (#[trigger] T::decoded(items[k])) is Ok
}

/// What a sequence of trees decodes to: the values of all its elements, in
/// order, or the error of the first element that does not decode.
pub open spec fn decoded_list<T: Decode>(items: Seq<Json>) -> Result<Seq<T::V>, DecodeErrorView> {
    if exists|i: int| first_failure::<T>(items, i) {
        let i = choose|i: int| first_failure::<T>(items, i);
        Err(T::decoded(items[i])->Err_0)
    } else {
        Ok(Seq::new(items.len(), |i: int| T::decoded(items[i])->Ok_0))
    }
}

/// A sequence of trees decodes to `values` exactly when each of its elements
/// decodes to the value at the same place.
pub proof fn lemma_decoded_list_ok<T: Decode>(items: Seq<Json>, values: Seq<T::V>)
    ensures
        decoded_list::<T>(items) == Ok::<Seq<T::V>, DecodeErrorView>(values) <==> {
            &&& items.len() == values.len()
            &&& forall|i: int|
                0 <= i < items.len() ==> #[trigger] T::decoded(items[i]) == Ok::<
                    T::V,
                    DecodeErrorView,
                >(values[i])
        },
{
    let all = Seq::new(items.len(), |i: int| T::decoded(items[i])->Ok_0);
    if exists|i: int| first_failure::<T>(items, i) {
        let i = choose|i: int| first_failure::<T>(items, i);
        assert(T::decoded(items[i]) is Err);
    } else {
        if items.len() == values.len() && (forall|i: int|
            0 <= i < items.len() ==> #[trigger] T::decoded(items[i]) == Ok::<T::V, DecodeErrorView>(
                values[i],
            )) {
            assert(all =~= values);
        }
        if all == values {
            assert forall|i: int| 0 <= i < items.len() implies #[trigger] T::decoded(items[i])
                == Ok::<T::V, DecodeErrorView>(values[i]) by {
                lemma_without_first_failure::<T>(items, i);
                assert(all[i] == values[i]);
            }
        }
    }
}

/// A sequence of trees with an element that does not decode fails with the
/// error of the first such element.
pub proof fn lemma_decoded_list_err<T: Decode>(items: Seq<Json>, i: int)
    requires
        first_failure::<T>(items, i),
    ensures
        decoded_list::<T>(items) == Err::<Seq<T::V>, DecodeErrorView>(T::decoded(items[i])->Err_0),
{
    let first = choose|k: int| first_failure::<T>(items, k);
    if first < i {
        assert(T::decoded(items[first]) is Ok);
    }
    if i < first {
        assert(T::decoded(items[i]) is Ok);
    }
}

/// Where no element is the first that does not decode, every element
/// decodes.
proof fn lemma_without_first_failure<T: Decode>(items: Seq<Json>, i: int)
    requires
        0 <= i < items.len(),
        !exists|k: int| first_failure::<T>(items, k),
    ensures
        T::decoded(items[i]) is Ok,
    decreases i,
{
    if T::decoded(items[i]) is Err {
        if exists|k: int| 0 <= k < i && T::decoded(items[k]) is Err {
            let k = choose|k: int| 0 <= k < i && T::decoded(items[k]) is Err;
            lemma_without_first_failure::<T>(items, k);
        } else {
            assert(first_failure::<T>(items, i));
        }
    }
}

/// Decodes the elements of an array one after the other, and stops at the
/// first that fails.
pub fn decode_list<T: Decode>(items: &Vec<serde_json::Value>) -> (r: Result<Vec<T>, DecodeError>)
    ensures
        result_view(r) == decoded_list::<T>(trees(items@)),
{
    let ghost sources = trees(items@);
    let mut out: Vec<T> = Vec::new();
    let mut i: usize = 0;
    while i < items.len()
        invariant
            i <= items.len(),
            out.len() == i,
            sources == trees(items@),
            forall|k: int|
                0 <= k < i ==> (#[trigger] T::decoded(sources[k])) == Ok::<
                    T::V,
                    DecodeErrorView,
                >(out[k].deep_view()),
        decreases items.len() - i,
    {
        match T::decode(&items[i]) {
            Ok(value) => {
                out.push(value);
            },
            Err(e) => {
                proof {
                    lemma_decoded_list_err::<T>(sources, i as int);
                }
                return Err(e);
            },
        }
        i += 1;
    }
    proof {
        lemma_decoded_list_ok::<T>(sources, out.deep_view());
    }
    Ok(out)
}

/// A type whose values can be written as a JSON value.
pub trait Encode: DeepView + Sized {
    /// The tree that stands for a value.
    spec fn encoded(value: Self::V) -> Json;

    /// Writes this value as a JSON value.
    fn encode(&self) -> (v: serde_json::Value)
        ensures
            json_of(v) == Self::encoded(self.deep_view()),
    ;
}

/// A type whose values come back unchanged from being written and read.
pub trait Codec: Encode + Decode {
    /// Decoding the encoding of a value gives the value back.
    proof fn lemma_round_trip(value: Self::V)
        ensures
            Self::decoded(Self::encoded(value)) == Ok::<Self::V, DecodeErrorView>(value),
    ;
}

/// The trees that stand for a sequence of values, in order.
pub open spec fn encoded_list<T: Encode>(values: Seq<T::V>) -> Seq<Json> {
    Seq::new(values.len(), |i: int| T::encoded(values[i]))
}

/// Writes the elements of a list, in order, as a JSON array.
pub fn encode_list<T: Encode>(values: &Vec<T>) -> (v: serde_json::Value)
    ensures
        json_of(v) == Json::Array(encoded_list::<T>(values.deep_view())),
{
    let mut items: Vec<serde_json::Value> = Vec::new();
    let mut i: usize = 0;
    while i < values.len()
        invariant
            i <= values.len(),
            items.len() == i,
            forall|k: int|
                0 <= k < i ==> json_of(#[trigger] items[k]) == T::encoded(values[k].deep_view()),
        decreases values.len() - i,
    {
        items.push(values[i].encode());
        i += 1;
    }
    assert(trees(items@) =~= encoded_list::<T>(values.deep_view()));
    array_value(items)
}

/// Decoding the encodings of a sequence of values gives the sequence back.
pub proof fn lemma_list_round_trip<T: Codec>(values: Seq<T::V>)
    ensures
        decoded_list::<T>(encoded_list::<T>(values)) == Ok::<Seq<T::V>, DecodeErrorView>(values),
{
    let items = encoded_list::<T>(values);
    assert forall|i: int| 0 <= i < items.len() implies #[trigger] T::decoded(items[i]) == Ok::<
        T::V,
        DecodeErrorView,
    >(values[i]) by {
        T::lemma_round_trip(values[i]);
    }
    lemma_decoded_list_ok::<T>(items, values);
}

} // verus!
