//! The address of a page or an action on the platform: path and query of a
//! link, as text that is handed to the transport unchanged.

use vstd::prelude::*;
use vstd::string::*;
use crate::text::{find_char_from, index_of, lemma_index_of_bounds, lemma_index_of_none};

verus! {

/// Whether `c` is an ASCII letter, with which a scheme begins.
pub open spec fn is_letter(c: char) -> bool {
    ('a' <= c <= 'z') || ('A' <= c <= 'Z')
}

/// Whether `c` may stand in the scheme of a link.
pub open spec fn is_scheme_char(c: char) -> bool {
    ('a' <= c <= 'z') || ('A' <= c <= 'Z') || ('0' <= c <= '9') || c == '+' || c == '-' || c
        == '.'
}

/// Whether `c` ends the host of a link.
pub open spec fn ends_host(c: char) -> bool {
    c == '/' || c == '?' || c == '#'
}

/// The first index at or after `i` that holds no scheme character, or the
/// length.
pub open spec fn skip_scheme(s: Seq<char>, i: int) -> int
    decreases s.len() - i,
{
    if 0 <= i < s.len() && is_scheme_char(s[i]) {
        skip_scheme(s, i + 1)
    } else {
        i
    }
}

/// The first index at or after `i` that ends the host, or the length.
pub open spec fn skip_host(s: Seq<char>, i: int) -> int
    decreases s.len() - i,
{
    if 0 <= i < s.len() && !ends_host(s[i]) {
        skip_host(s, i + 1)
    } else {
        i
    }
}

/// Whether a link names its scheme and host: it begins with a scheme,
/// which begins with a letter, and `://` follows the scheme.
pub open spec fn is_absolute(link: Seq<char>) -> bool {
    let s = skip_scheme(link, 0);
    link.len() > 0 && is_letter(link[0]) && s + 2 < link.len() && link[s] == ':' && link[s + 1]
        == '/' && link[s + 2] == '/'
}

/// Where the address begins in a link: behind scheme and host, or at the
/// start of a link that names none.
pub open spec fn address_start(link: Seq<char>) -> int {
    if is_absolute(link) {
        skip_host(link, skip_scheme(link, 0) + 3)
    } else {
        0
    }
}

/// The address of a link: its path and its query. Scheme and host are
/// dropped, and so is a fragment, which is what follows the first `#`
/// behind them. What is left is kept as it stands: nothing is decoded or
/// put in another order.
pub open spec fn canonical(link: Seq<char>) -> Seq<char> {
    link.subrange(address_start(link), index_of(link, '#', address_start(link)))
}

/// What ends the search for the end of the host: a character that ends the
/// host, or the end of the text.
pub proof fn lemma_skip_host_bounds(s: Seq<char>, i: int)
    requires
        0 <= i <= s.len(),
    ensures
        i <= skip_host(s, i) <= s.len(),
        skip_host(s, i) < s.len() ==> ends_host(s[skip_host(s, i)]),
    decreases s.len() - i,
{
    if i < s.len() && !ends_host(s[i]) {
        lemma_skip_host_bounds(s, i + 1);
    }
}

/// The run of scheme characters ends inside the text.
pub proof fn lemma_skip_scheme_bounds(s: Seq<char>, i: int)
    requires
        0 <= i <= s.len(),
    ensures
        i <= skip_scheme(s, i) <= s.len(),
    decreases s.len() - i,
{
    if i < s.len() && is_scheme_char(s[i]) {
        lemma_skip_scheme_bounds(s, i + 1);
    }
}

/// The run of scheme characters of the beginning of a text is that of the
/// text, where it ends inside the beginning.
pub proof fn lemma_skip_scheme_prefix(s: Seq<char>, end: int, i: int)
    requires
        0 <= i <= end <= s.len(),
    ensures
        skip_scheme(s.subrange(0, end), i) < end ==> skip_scheme(s, i) == skip_scheme(
            s.subrange(0, end),
            i,
        ),
    decreases end - i,
{
    let head = s.subrange(0, end);
    if i < end {
        assert(head[i] == s[i]);
        if is_scheme_char(head[i]) {
            lemma_skip_scheme_prefix(s, end, i + 1);
        }
    }
}

/// An address is its own canonical form: making an address of the text of
/// an address gives the same text back. So does making one of any link that
/// names no scheme and host and has no fragment.
pub proof fn lemma_address_round_trip(link: Seq<char>)
    ensures
        canonical(canonical(link)) == canonical(link),
        !is_absolute(link) && index_of(link, '#', 0) == link.len() ==> canonical(link) == link,
{
    let start = address_start(link);
    let end = index_of(link, '#', start);
    let address = canonical(link);
    if is_absolute(link) {
        lemma_skip_scheme_bounds(link, 0);
        lemma_skip_host_bounds(link, skip_scheme(link, 0) + 3);
    }
    lemma_index_of_bounds(link, '#', start);
    assert forall|k: int| 0 <= k < address.len() implies address[k] != '#' by {
        assert(address[k] == link[start + k]);
    }
    lemma_index_of_none(address, '#', 0);
    if is_absolute(link) {
        if address.len() > 0 {
            assert(address[0] == link[start]);
            assert(!is_letter(address[0]));
        }
    } else {
        if is_absolute(address) {
            lemma_skip_scheme_prefix(link, end, 0);
            lemma_skip_scheme_bounds(address, 0);
            let s = skip_scheme(address, 0);
            assert(address[0] == link[0]);
            assert(address[s] == link[s] && address[s + 1] == link[s + 1] && address[s + 2]
                == link[s + 2]);
            assert(is_absolute(link));
        }
        assert(link.subrange(0, link.len() as int) =~= link);
    }
    assert(!is_absolute(address));
    assert(address.subrange(0, address.len() as int) =~= address);
}

/// The address of a page or an action: the path and the query of a link,
/// without scheme, host and fragment.
#[derive(Clone, Debug, PartialEq, Eq)]
pub struct Address {
    pub querypath: String,
}

/// Whether `c` may stand in the scheme of a link.
fn char_is_scheme(c: char) -> (r: bool)
    ensures
        r == is_scheme_char(c),
{
    let n: u32 = c as u32;
    (0x61 <= n && n <= 0x7A) || (0x41 <= n && n <= 0x5A) || (0x30 <= n && n <= 0x39) || n == 0x2B
        || n == 0x2D || n == 0x2E
}

/// Whether `c` ends the host of a link.
fn char_ends_host(c: char) -> (r: bool)
    ensures
        r == ends_host(c),
{
    c == '/' || c == '?' || c == '#'
}

/// Whether `c` is an ASCII letter.
fn char_is_letter(c: char) -> (r: bool)
    ensures
        r == is_letter(c),
{
    let n: u32 = c as u32;
    (0x61 <= n && n <= 0x7A) || (0x41 <= n && n <= 0x5A)
}

impl Address {
    /// The address of a link, absolute or relative: scheme, host and
    /// fragment are dropped, path and query are kept as they stand.
    pub fn canonicalize(link: &str) -> (r: Address)
        ensures
            r.querypath@ == canonical(link@),
    {
        let n: usize = link.unicode_len();
        let mut s: usize = 0;
        while s < n && char_is_scheme(link.get_char(s))
            invariant
                n == link@.len(),
                s <= n,
                skip_scheme(link@, 0) == skip_scheme(link@, s as int),
            decreases n - s,
        {
            s += 1;
        }
        let mut start: usize = 0;
        if n > 0 && char_is_letter(link.get_char(0)) && n - s >= 3 && link.get_char(s) == ':'
            && link.get_char(s + 1) == '/' && link.get_char(s + 2) == '/' {
            let mut h: usize = s + 3;
            while h < n && !char_ends_host(link.get_char(h))
                invariant
                    n == link@.len(),
                    s + 3 <= h <= n,
                    skip_host(link@, s + 3) == skip_host(link@, h as int),
                decreases n - h,
            {
                h += 1;
            }
            start = h;
        }
        let end: usize = find_char_from(link, '#', start);
        Address { querypath: String::from_str(link.substring_char(start, end)) }
    }

    /// The text to hand to the transport: the address, unchanged.
    pub fn as_request_target(&self) -> (r: &str)
        ensures
            r@ == self.querypath@,
    {
        self.querypath.as_str()
    }
}

} // verus!
