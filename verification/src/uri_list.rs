//! The `text/uri-list` payload of a file drop.
//!
//! The payload is a list of lines. A line ends at a line feed, or at the end
//! of the payload; a carriage return just before the line feed belongs to the
//! line ending. A line that names a file starts with `file://`, and what
//! follows is the file's path. Every other line is passed over.

use vstd::prelude::*;
use vstd::slice::slice_subrange;
use vstd::slice::slice_to_vec;
use vstd::utf8::decode_utf8;
use vstd::utf8::valid_utf8;

verus! {

/// The line feed that ends a line.
pub const LINE_FEED: u8 = 10;

/// The carriage return that may stand before a line feed.
pub const CARRIAGE_RETURN: u8 = 13;

/// The bytes of `file://`.
pub open spec fn file_scheme() -> Seq<u8> {
    seq![102u8, 105u8, 108u8, 101u8, 58u8, 47u8, 47u8]
}

/// Whether the first line feed of `bytes` is at `at`.
pub open spec fn first_line_feed_at(bytes: Seq<u8>, at: int) -> bool {
    &&& 0 <= at < bytes.len()
    &&& bytes[at] == LINE_FEED
    &&& forall|j: int| 0 <= j < at ==> bytes[j] != LINE_FEED
}

/// The length of the first line of `bytes`, without its line feed: the place of
/// the first line feed, or the length of `bytes` if there is none.
pub open spec fn first_line_len(bytes: Seq<u8>) -> int {
    if exists|at: int| first_line_feed_at(bytes, at) {
        choose|at: int| first_line_feed_at(bytes, at)
    } else {
        bytes.len() as int
    }
}

/// A line that a line feed ended, without a carriage return at its end.
pub open spec fn without_carriage_return(line: Seq<u8>) -> Seq<u8> {
    if line.len() > 0 && line.last() == CARRIAGE_RETURN {
        line.drop_last()
    } else {
        line
    }
}

/// Whether `line` names a file: it starts with `file://`, and what follows is
/// text.
pub open spec fn names_file(line: Seq<u8>) -> bool {
    &&& line.len() >= file_scheme().len()
    &&& line.take(file_scheme().len() as int) == file_scheme()
    &&& valid_utf8(line.skip(file_scheme().len() as int))
}

/// The path that `line` names.
pub open spec fn path_of(line: Seq<u8>) -> Seq<char> {
    decode_utf8(line.skip(file_scheme().len() as int))
}

/// The paths of the lines of `payload` that name a file, in the order of the
/// lines.
pub open spec fn paths_of(payload: Seq<u8>) -> Seq<Seq<char>>
    decreases payload.len(),
{
    if payload.len() == 0 {
        Seq::empty()
    } else {
        let n = first_line_len(payload);
        let (line, rest) = if 0 <= n < payload.len() {
            (without_carriage_return(payload.take(n)), payload.skip(n + 1))
        } else {
            (payload, Seq::empty())
        };
        if names_file(line) {
            seq![path_of(line)] + paths_of(rest)
        } else {
            paths_of(rest)
        }
    }
}

/// `std::string::FromUtf8Error`: why bytes are no text.
#[verifier::external_type_specification]
#[verifier::external_body]
pub struct ExFromUtf8Error(std::string::FromUtf8Error);

/// `String::from_utf8` succeeds exactly on bytes that are UTF-8, and then
/// gives the text that they encode.
pub assume_specification[ String::from_utf8 ](vec: Vec<u8>) -> (text: Result<
    String,
    std::string::FromUtf8Error,
>)
    ensures
        text is Ok <==> valid_utf8(vec@),
        text matches Ok(s) ==> s@ == decode_utf8(vec@),
;

/// The text that `bytes` encode in UTF-8, and nothing where they encode none.
pub fn text_of(bytes: Vec<u8>) -> (text: Option<String>)
    ensures
        text is Some <==> valid_utf8(bytes@),
        text matches Some(s) ==> s@ == decode_utf8(bytes@),
{
    match String::from_utf8(bytes) {
        Ok(text) => Some(text),
        Err(_) => None,
    }
}

/// Whether the bytes of `line` from `from` to `to` start with `file://`.
fn has_file_scheme(line: &[u8], from: usize, to: usize) -> (yes: bool)
    requires
        from <= to <= line@.len(),
    ensures
        yes == (to - from >= file_scheme().len() && line@.subrange(from as int, to as int).take(
            file_scheme().len() as int,
        ) == file_scheme()),
{
    let ghost part = line@.subrange(from as int, to as int);
    if to - from < 7 {
        return false;
    }
    let yes = line[from] == 102 && line[from + 1] == 105 && line[from + 2] == 108 && line[from + 3]
        == 101 && line[from + 4] == 58 && line[from + 5] == 47 && line[from + 6] == 47;
    proof {
        let head = part.take(7);
        assert(head.len() == 7);
        assert(forall|k: int| 0 <= k < 7 ==> head[k] == line@[from + k]);
        if yes {
            assert(head =~= file_scheme());
        } else {
            assert(file_scheme()[0] == 102 && file_scheme()[1] == 105 && file_scheme()[2] == 108
                && file_scheme()[3] == 101 && file_scheme()[4] == 58 && file_scheme()[5] == 47
                && file_scheme()[6] == 47);
        }
    }
    yes
}

/// The path that the bytes of `payload` from `from` to `to` name, if they
/// name a file.
fn decode_entry(payload: &[u8], from: usize, to: usize) -> (path: Option<String>)
    requires
        from <= to <= payload@.len(),
    ensures
        path is Some <==> names_file(payload@.subrange(from as int, to as int)),
        path matches Some(p) ==> p@ == path_of(payload@.subrange(from as int, to as int)),
{
    if !has_file_scheme(payload, from, to) {
        return None;
    }
    let rest = slice_to_vec(slice_subrange(payload, from + 7, to));
    proof {
        assert(rest@ == payload@.subrange(from as int, to as int).skip(7));
    }
    text_of(rest)
}

proof fn lemma_first_line_len(bytes: Seq<u8>, at: int)
    requires
        0 <= at <= bytes.len(),
        forall|j: int| 0 <= j < at ==> bytes[j] != LINE_FEED,
        at < bytes.len() ==> bytes[at] == LINE_FEED,
    ensures
        first_line_len(bytes) == at,
{
    if at < bytes.len() {
        assert(first_line_feed_at(bytes, at));
        let n = choose|n: int| first_line_feed_at(bytes, n);
        assert(first_line_feed_at(bytes, n));
        if n < at {
            assert(bytes[n] != LINE_FEED);
        }
        if at < n {
            assert(bytes[at] != LINE_FEED);
        }
    } else {
        if exists|n: int| first_line_feed_at(bytes, n) {
            let n = choose|n: int| first_line_feed_at(bytes, n);
            assert(bytes[n] != LINE_FEED);
        }
    }
}

/// The paths of the files that a `text/uri-list` payload names.
///
/// A line that names no file is passed over; the lines that do are all
/// there, in their order.
pub fn decode_uri_list(payload: &[u8]) -> (paths: Vec<String>)
    ensures
        paths.deep_view() == paths_of(payload@),
{
    let mut paths: Vec<String> = Vec::new();
    let mut start: usize = 0;
    let mut i: usize = 0;
    let n = payload.len();
    proof {
        assert(payload@.skip(0) == payload@);
        assert(paths.deep_view() =~= Seq::<Seq<char>>::empty());
        assert(Seq::<Seq<char>>::empty() + paths_of(payload@) == paths_of(payload@));
    }
    while start < n
        invariant
            n == payload@.len(),
            start <= i <= n,
            forall|j: int| start <= j < i ==> payload@[j] != LINE_FEED,
            paths.deep_view() + paths_of(payload@.skip(start as int)) == paths_of(payload@),
        decreases n - start, n - i,
    {
        let ghost tail = payload@.skip(start as int);
        if i < n && payload[i] != LINE_FEED {
            i += 1;
        } else {
            let mut end = i;
            if i < n && end > start && payload[end - 1] == CARRIAGE_RETURN {
                end = end - 1;
            }
            let entry = decode_entry(payload, start, end);
            proof {
                lemma_first_line_len(tail, i - start);
                let line = if i < n {
                    without_carriage_return(tail.take(i - start))
                } else {
                    tail
                };
                assert(tail.take(i - start) == payload@.subrange(start as int, i as int));
                assert(line == payload@.subrange(start as int, end as int));
                if i < n {
                    assert(tail.skip(i - start + 1) == payload@.skip(i + 1));
                } else {
                    assert(payload@.skip(n as int) == Seq::<u8>::empty());
                }
            }
            let ghost before = paths.deep_view();
            match entry {
                Some(path) => {
                    paths.push(path);
                    proof {
                        assert(paths.deep_view() == before.push(path@));
                        assert(before.push(path@) == before + seq![path@]);
                    }
                },
                None => {},
            }
            let next = if i < n { i + 1 } else { n };
            proof {
                let rest = payload@.skip(next as int);
                if entry is Some {
                    assert(paths.deep_view() + paths_of(rest) == before + (seq![entry->0@] + paths_of(
                        rest,
                    )));
                }
            }
            start = next;
            i = next;
        }
    }
    proof {
        assert(payload@.skip(n as int) == Seq::<u8>::empty());
        assert(paths.deep_view() + Seq::<Seq<char>>::empty() == paths.deep_view());
    }
    paths
}

} // verus!
