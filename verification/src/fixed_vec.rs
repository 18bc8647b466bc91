//! Fixed-capacity vectors of the `heapless` crate, with what the library relies on of them.
use vstd::prelude::*;

verus! {

/// The largest number of sample rates a stream can offer.
pub const MAX_SAMPLE_RATE_COUNT: usize = 10;

/// The capacity of a descriptor body under construction: enough for a format with the largest
/// number of sample rates, three bytes each behind a fixed part of six.
pub const DESCRIPTOR_CAPACITY: usize = 36;

/// `heapless::Vec`, a vector of at most `N` items.
#[verifier::external_type_specification]
#[verifier::external_body]
#[verifier::reject_recursive_types(T)]
pub struct ExVec<T, const N: usize>(heapless::Vec<T, N>);

/// The bytes that a descriptor body holds, in order.
pub uninterp spec fn body_bytes(body: heapless::Vec<u8, DESCRIPTOR_CAPACITY>) -> Seq<u8>;

/// The sample rates that a table holds, in order.
pub uninterp spec fn table_rates(table: heapless::Vec<u32, MAX_SAMPLE_RATE_COUNT>) -> Seq<u32>;

/// `heapless::Vec::new` gives an empty vector.
#[verifier::external_body]
pub(crate) fn body_new() -> (body: heapless::Vec<u8, DESCRIPTOR_CAPACITY>)
    ensures
        body_bytes(body) == Seq::<u8>::empty(),
{
    heapless::Vec::new()
}

/// `heapless::Vec::extend_from_slice` appends all of the slice, in order, where it fits, and
/// otherwise reports an error and leaves the vector as it was.
#[verifier::external_body]
pub(crate) fn body_extend(
    body: &mut heapless::Vec<u8, DESCRIPTOR_CAPACITY>,
    bytes: &[u8],
) -> (result: Result<(), ()>)
    ensures
        result is Ok <==> body_bytes(*old(body)).len() + bytes@.len() <= DESCRIPTOR_CAPACITY,
        body_bytes(*final(body)) == if result is Ok {
            body_bytes(*old(body)) + bytes@
        } else {
            body_bytes(*old(body))
        },
{
    body.extend_from_slice(bytes)
}

/// `heapless::Vec::from_slice` copies the slice where it fits, and otherwise reports an error.
#[verifier::external_body]
pub(crate) fn body_from_slice(bytes: &[u8]) -> (result: Result<
    heapless::Vec<u8, DESCRIPTOR_CAPACITY>,
    (),
>)
    ensures
        result is Ok <==> bytes@.len() <= DESCRIPTOR_CAPACITY,
        result is Ok ==> body_bytes(result->Ok_0) == bytes@,
{
    heapless::Vec::from_slice(bytes)
}

/// `heapless::Vec::push` appends the item where the vector is not full, and otherwise hands it
/// back and leaves the vector as it was.
#[verifier::external_body]
pub(crate) fn body_push(
    body: &mut heapless::Vec<u8, DESCRIPTOR_CAPACITY>,
    byte: u8,
) -> (result: Result<(), u8>)
    ensures
        result is Ok <==> body_bytes(*old(body)).len() < DESCRIPTOR_CAPACITY,
        result is Err ==> result->Err_0 == byte,
        body_bytes(*final(body)) == if result is Ok {
            body_bytes(*old(body)).push(byte)
        } else {
            body_bytes(*old(body))
        },
{
    body.push(byte)
}

/// `heapless::Vec::as_slice` shows all items in order.
#[verifier::external_body]
pub(crate) fn body_as_slice(body: &heapless::Vec<u8, DESCRIPTOR_CAPACITY>) -> (bytes: &[u8])
    ensures
        bytes@ == body_bytes(*body),
{
    body.as_slice()
}

/// `heapless::Vec::new` gives an empty vector.
#[verifier::external_body]
pub(crate) fn table_new() -> (table: heapless::Vec<u32, MAX_SAMPLE_RATE_COUNT>)
    ensures
        table_rates(table) == Seq::<u32>::empty(),
{
    heapless::Vec::new()
}

/// `heapless::Vec::from_slice` copies the slice where it fits, and otherwise reports an error.
#[verifier::external_body]
pub(crate) fn table_from_slice(rates: &[u32]) -> (result: Result<
    heapless::Vec<u32, MAX_SAMPLE_RATE_COUNT>,
    (),
>)
    ensures
        result is Ok <==> rates@.len() <= MAX_SAMPLE_RATE_COUNT,
        result is Ok ==> table_rates(result->Ok_0) == rates@,
{
    heapless::Vec::from_slice(rates)
}

/// `heapless::Vec::as_slice` shows all items in order; there are at most as many as the capacity.
#[verifier::external_body]
pub(crate) fn table_as_slice(table: &heapless::Vec<u32, MAX_SAMPLE_RATE_COUNT>) -> (rates: &[u32])
    ensures
        rates@ == table_rates(*table),
        rates@.len() <= MAX_SAMPLE_RATE_COUNT,
{
    table.as_slice()
}

} // verus!
