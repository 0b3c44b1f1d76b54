//! The address of a page on the platform: the path and the query of its
//! URL, written as `path?query`.

use vstd::prelude::*;
use vstd::string::*;
use reqwest::Url;
use crate::text::{chars_of, find_char_from, index_of, lemma_index_of_bounds};

verus! {

/// `url::Url`, as `reqwest` hands it on: a parsed URL.
#[verifier::external_type_specification]
#[verifier::external_body]
pub struct ExUrl(reqwest::Url);

/// Something with a path and a query that can be read and set as one text.
pub trait Querypath {
    /// Path and query as one address.
    fn get_querypath(&self) -> String;

    /// Replaces path and query by those of an address.
    fn set_querypath(&mut self, querypath: &str);
}

/// The characters of a text that may be missing.
pub open spec fn chars_of_str(text: Option<&str>) -> Option<Seq<char>> {
    match text {
        Some(t) => Some(t@),
        None => None,
    }
}

/// A path and a query as one text: the path alone where there is no
/// query, else the path, a question mark and the query.
pub open spec fn joined(path: Seq<char>, query: Option<Seq<char>>) -> Seq<char> {
    match query {
        Some(q) => path + seq!['?'] + q,
        None => path,
    }
}

/// The path of an address: what stands before its first question mark.
pub open spec fn path_of(querypath: Seq<char>) -> Seq<char> {
    querypath.subrange(0, index_of(querypath, '?', 0))
}

/// The query of an address: what stands behind its first question mark,
/// further question marks included; `None` where it has no question mark.
pub open spec fn query_of(querypath: Seq<char>) -> Option<Seq<char>> {
    let k = index_of(querypath, '?', 0);
    if k >= querypath.len() {
        None
    } else {
        Some(querypath.subrange(k + 1, querypath.len() as int))
    }
}

/// Writes a path and a query as one address. Nothing is written for a
/// query that is not there; a query that is there and empty leaves its
/// question mark.
pub fn join_querypath(path: &str, query: Option<&str>) -> (r: String)
    ensures
        r@ == joined(path@, chars_of_str(query)),
{
    let mut text: String = String::from_str(path);
    match query {
        Some(q) => {
            proof {
                reveal_strlit("?");
            }
            text.append("?");
            text.append(q);
            assert("?"@ =~= seq!['?']);
            assert(text@ =~= path@ + seq!['?'] + q@);
        },
        None => {},
    }
    text
}

/// Parts an address into its path and its query.
pub fn split_querypath(querypath: &str) -> (r: (&str, Option<&str>))
    ensures
        r.0@ == path_of(querypath@),
        chars_of_str(r.1) == query_of(querypath@),
{
    let n: usize = querypath.unicode_len();
    let k: usize = find_char_from(querypath, '?', 0);
    let path: &str = querypath.substring_char(0, k);
    if k >= n {
        (path, None)
    } else {
        (path, Some(querypath.substring_char(k + 1, n)))
    }
}

/// Every address is what its path and its query are joined to: parting
/// and joining gives the same text back.
pub proof fn lemma_querypath_round_trip(querypath: Seq<char>)
    ensures
        joined(path_of(querypath), query_of(querypath)) == querypath,
{
    lemma_index_of_bounds(querypath, '?', 0);
    assert(joined(path_of(querypath), query_of(querypath)) =~= querypath);
}

/// A path without a question mark and a query, or none, are what their
/// joined address is parted into.
pub proof fn lemma_joined_parts(path: Seq<char>, query: Option<Seq<char>>)
    requires
        index_of(path, '?', 0) == path.len(),
    ensures
        path_of(joined(path, query)) == path,
        query_of(joined(path, query)) == query,
{
    let whole = joined(path, query);
    let k = path.len() as int;
    lemma_index_of_bounds(path, '?', 0);
    lemma_index_of_bounds(whole, '?', 0);
    match query {
        None => {
            assert(whole.subrange(0, k) =~= path);
        },
        Some(q) => {
            assert(whole[k] == '?');
            assert forall|i: int| 0 <= i < k implies whole[i] != '?' by {
                assert(whole[i] == path[i]);
            }
            assert(index_of(whole, '?', 0) == k);
            assert(whole.subrange(0, k) =~= path);
            assert(whole.subrange(k + 1, whole.len() as int) =~= q);
        },
    }
}

/// The length of the text that a URL is written as, in bytes.
pub uninterp spec fn serialized_len(url: Url) -> nat;

/// The path of a URL, as `url` gives it.
pub uninterp spec fn path_in(url: Url) -> Seq<char>;

/// The query of a URL, as `url` gives it, if the URL has one.
pub uninterp spec fn query_in(url: Url) -> Option<Seq<char>>;

/// The URL that `url` makes of a URL when it is given another path.
pub uninterp spec fn with_path(url: Url, path: Seq<char>) -> Url;

/// The URL that `url` makes of a URL when it is given another query, or
/// none.
pub uninterp spec fn with_query(url: Url, query: Option<Seq<char>>) -> Url;

/// Whether a URL has room for a path or a query of `chars` characters.
/// For a character `url` writes at most twelve bytes: its four bytes, each
/// as a percent sign and two digits. With those, and with the few
/// separators that `url` may add, the URL stays within the length that `url`
/// can hold.
pub open spec fn has_room(url: Url, chars: nat) -> bool {
    serialized_len(url) + 12 * chars + 16 <= u32::MAX
}

/// Whether a URL takes an address: it has room for the address, and so has
/// the URL that it becomes with the path of the address.
pub open spec fn takes(url: Url, querypath: Seq<char>) -> bool {
    has_room(url, querypath.len()) && has_room(
        with_path(url, path_of(querypath)),
        querypath.len(),
    )
}

/// The length of a text that may be missing, in characters.
pub open spec fn len_of(text: Option<Seq<char>>) -> nat {
    match text {
        Some(t) => t.len(),
        None => 0,
    }
}

/// `url::Url::as_str`, then its length: the number of bytes of the text
/// that the URL is written as.
#[verifier::external_body]
pub(crate) fn url_len(url: &Url) -> (r: usize)
    ensures
        r == serialized_len(*url),
{
    url.as_str().len()
}

/// `Clone::clone` of `url::Url`, which is derived: the same URL once more.
#[verifier::external_body]
pub(crate) fn url_copy(url: &Url) -> (r: Url)
    ensures
        r == *url,
{
    url.clone()
}

/// `url::Url::path`: the path of a URL. The result is a function of the
/// URL alone.
#[verifier::external_body]
pub(crate) fn url_path(url: &Url) -> (r: String)
    ensures
        r@ == path_in(*url),
{
    url.path().to_string()
}

/// `url::Url::query`: the query of a URL, if it has one. The result is a
/// function of the URL alone.
#[verifier::external_body]
pub(crate) fn url_query(url: &Url) -> (r: Option<String>)
    ensures
        chars_of(r) == query_in(*url),
{
    url.query().map(|q| q.to_string())
}

/// `url::Url::set_path`: replaces the path of a URL. What the URL becomes
/// is a function of the URL and the path. `url` fails where the new text
/// of the URL is longer than 32 bits can count; a URL that has room for
/// the path stays below that.
#[verifier::external_body]
pub(crate) fn set_url_path(url: &mut Url, path: &str)
    requires
        has_room(*old(url), path@.len()),
    ensures
        *final(url) == with_path(*old(url), path@),
{
    url.set_path(path)
}

/// `url::Url::set_query`: replaces or removes the query of a URL. What the
/// URL becomes is a function of the URL and the query. `url` fails where
/// the new text of the URL is longer than 32 bits can count; a URL that has
/// room for the query stays below that.
#[verifier::external_body]
pub(crate) fn set_url_query(url: &mut Url, query: Option<&str>)
    requires
        has_room(*old(url), len_of(chars_of_str(query))),
    ensures
        *final(url) == with_query(*old(url), chars_of_str(query)),
{
    url.set_query(query)
}

/// Whether a URL has room for a path or a query of `chars` characters.
pub fn room_for(url: &Url, chars: usize) -> (r: bool)
    ensures
        r == has_room(*url, chars as nat),
{
    let length: usize = url_len(url);
    if length > 0xFFFF_FFFF || chars > 357_913_941 {
        return false;
    }
    length as u64 + 12 * (chars as u64) + 16 <= 0xFFFF_FFFF
}

impl Querypath for Url {
    /// The path and the query of the URL as one address.
    fn get_querypath(&self) -> (r: String)
        ensures
            r@ == joined(path_in(*self), query_in(*self)),
    {
        let path: String = url_path(self);
        let query: Option<String> = url_query(self);
        match &query {
            Some(q) => join_querypath(path.as_str(), Some(q.as_str())),
            None => join_querypath(path.as_str(), None),
        }
    }

    /// Gives the URL the path and the query of an address: first the path,
    /// which is what stands before the first question mark, then the query,
    /// which is removed where the address has no question mark. A URL that
    /// does not take the address, for want of room, stays as it was.
    fn set_querypath(&mut self, querypath: &str)
        ensures
            *final(self) == if takes(*old(self), querypath@) {
                with_query(with_path(*old(self), path_of(querypath@)), query_of(querypath@))
            } else {
                *old(self)
            },
    {
        let chars: usize = querypath.unicode_len();
        if !room_for(self, chars) {
            return ;
        }
        let parts = split_querypath(querypath);
        proof {
            lemma_index_of_bounds(querypath@, '?', 0);
        }
        let before: Url = url_copy(self);
        set_url_path(self, parts.0);
        if !room_for(self, chars) {
            *self = before;
            return ;
        }
        set_url_query(self, parts.1);
    }
}

} // verus!
