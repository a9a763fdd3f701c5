//! Header collections, kept in the `http` crate's `HeaderMap` (which the
//! `reqwest` crate hands on under `reqwest::header`).

use reqwest::header::HeaderMap;
use vstd::prelude::*;

verus! {

/// The `http` crate's multimap from header names to header values.
#[verifier::external_type_specification]
#[verifier::external_body]
#[verifier::reject_recursive_types(T)]
pub struct ExHeaderMap<T>(reqwest::header::HeaderMap<T>);

/// The `http` crate's header value: bytes, and a mark for secrets.
#[verifier::external_type_specification]
#[verifier::external_body]
pub struct ExHeaderValue(reqwest::header::HeaderValue);

/// The most names that two collections may hold together when one is merged
/// into the other. A `HeaderMap` has at most 32768 slots and refuses to grow
/// beyond them, which it may try once a fifth of them is taken; it panics
/// when it is refused. With no more names than this it never tries.
pub const HEADER_NAMES_MAX: usize = 6553;

/// What a header collection holds: each name in it (in lower case, as the
/// collection keeps names) with the bytes of its values, in the order in
/// which `HeaderMap::get_all` hands them out.
pub uninterp spec fn header_entries(headers: HeaderMap) -> Map<Seq<char>, Seq<Seq<u8>>>;

/// The entries of a collection without any header.
pub open spec fn no_entries() -> Map<Seq<char>, Seq<Seq<u8>>> {
    Map::empty()
}

/// `entries` are finitely many, under exactly `n` names.
pub open spec fn counts_names(entries: Map<Seq<char>, Seq<Seq<u8>>>, n: nat) -> bool {
    entries.dom().finite() && entries.dom().len() == n
}

/// Two sets of entries are small enough for one to be merged into the other.
pub open spec fn fit_together(
    target: Map<Seq<char>, Seq<Seq<u8>>>,
    supplied: Map<Seq<char>, Seq<Seq<u8>>>,
) -> bool {
    &&& target.dom().finite()
    &&& supplied.dom().finite()
    &&& target.dom().len() + supplied.dom().len() <= HEADER_NAMES_MAX
}

/// `target` with `supplied` merged in: a name that `supplied` holds has the
/// values that `supplied` gives it, every other name keeps its own.
pub open spec fn merged(
    target: Map<Seq<char>, Seq<Seq<u8>>>,
    supplied: Map<Seq<char>, Seq<Seq<u8>>>,
) -> Map<Seq<char>, Seq<Seq<u8>>> {
    target.union_prefer_right(supplied)
}

/// Calls `HeaderMap::new`. Trusted: the new collection holds nothing.
#[verifier::external_body]
pub(crate) fn empty_headers() -> (r: HeaderMap)
    ensures
        header_entries(r) == no_entries(),
{
    HeaderMap::new()
}

/// Calls `HeaderMap::clone`. Trusted: the copy holds what `headers` holds.
#[verifier::external_body]
pub(crate) fn copy_headers(headers: &HeaderMap) -> (r: HeaderMap)
    ensures
        header_entries(r) == header_entries(*headers),
{
    headers.clone()
}

/// Calls `HeaderMap::keys_len`. Trusted: a collection holds finitely many
/// names, and the result is their number.
#[verifier::external_body]
pub(crate) fn count_names(headers: &HeaderMap) -> (r: usize)
    ensures
        counts_names(header_entries(*headers), r as nat),
{
    headers.keys_len()
}

/// Calls `HeaderMap::extend` with the items of another `HeaderMap`. Trusted:
/// for each name that `supplied` holds, the call replaces whatever values
/// `target` had for it by the values of `supplied`, in their order, and it
/// leaves every other name of `target` alone. It panics only when `target`
/// is refused more room, which the bound on the names rules out.
#[verifier::external_body]
pub(crate) fn merge_headers(target: &mut HeaderMap, supplied: HeaderMap)
    requires
        fit_together(header_entries(*old(target)), header_entries(supplied)),
    ensures
        header_entries(*final(target)) == merged(
            header_entries(*old(target)),
            header_entries(supplied),
        ),
{
    target.extend(supplied)
}

/// Whether `supplied` may be merged into `target`.
pub fn headers_fit(target: &HeaderMap, supplied: &HeaderMap) -> (r: bool)
    ensures
        r == fit_together(header_entries(*target), header_entries(*supplied)),
{
    let held = count_names(target);
    let more = count_names(supplied);
    held <= HEADER_NAMES_MAX && more <= HEADER_NAMES_MAX - held
}

} // verus!
