//! The booklist: a text of blocked URLs.
//!
//! Its first line gives the separator (a line feed where the text has no line);
//! the whole text, split at that separator, lists the URLs, each without the white
//! space around it. A listed URL can still be claimed, but a lookup of it is always
//! answered with the same placeholder.
use vstd::prelude::*;

use crate::text::{
    chars_of, first_line, first_line_exec, same_chars, seq_views, split, split_exec, string_of,
    trim, trim_exec,
};

verus! {

/// A booklist: its separator and its whole text.
pub struct BookList {
    pub separator: String,
    pub full: String,
}

/// The separator and whole text of the booklist whose file holds `content`
/// (`None` where there is no such file).
pub open spec fn booklist_of(content: Option<Seq<char>>) -> (Seq<char>, Seq<char>) {
    match content {
        None => (Seq::empty(), Seq::empty()),
        Some(c) => (
            match first_line(c) {
                Some(l) => l,
                None => "\n"@,
            },
            c,
        ),
    }
}

/// The URLs that a booklist lists: the pieces of its text between separators, each
/// without the white space around it.
pub open spec fn listed_pieces(content: Option<Seq<char>>) -> Seq<Seq<char>> {
    let (sep, full) = booklist_of(content);
    split(full, sep).map_values(|p: Seq<char>| trim(p))
}

/// The booklist whose file holds `content` lists `looking_for`.
pub open spec fn booklist_lists(content: Option<Seq<char>>, looking_for: Seq<char>) -> bool {
    listed_pieces(content).contains(looking_for)
}

/// Reads a booklist from the content of its file (`None` where there is no file).
pub fn fetch_booklist(content: Option<String>) -> (b: BookList)
    ensures
        (b.separator@, b.full@) == booklist_of(content.deep_view()),
{
    match content {
        None => BookList { separator: String::new(), full: String::new() },
        Some(c) => {
            let separator = match first_line_exec(c.as_str()) {
                Some(l) => l,
                None => String::from_str("\n"),
            };
            BookList { separator, full: c }
        },
    }
}

fn trimmed_pieces_contain(pieces: &Vec<Vec<char>>, x: &Vec<char>) -> (r: bool)
    ensures
        r == seq_views(pieces@).map_values(|p: Seq<char>| trim(p)).contains(x@),
{
    let ghost tv = seq_views(pieces@).map_values(|p: Seq<char>| trim(p));
    let mut i: usize = 0;
    while i < pieces.len()
        invariant
            i <= pieces.len(),
            tv == seq_views(pieces@).map_values(|p: Seq<char>| trim(p)),
            forall|k: int| 0 <= k < i ==> tv[k] != x@,
        decreases pieces.len() - i,
    {
        let piece = string_of(&pieces[i]);
        let t = chars_of(trim_exec(piece.as_str()).as_str());
        if same_chars(&t, x) {
            assert(tv[i as int] == x@);
            return true;
        }
        i += 1;
    }
    false
}

/// Whether the booklist whose file holds `content` lists `looking_for`.
pub fn check_booklist(content: Option<String>, looking_for: &String) -> (r: bool)
    ensures
        r == booklist_lists(content.deep_view(), looking_for@),
{
    let list = fetch_booklist(content);
    let pieces = split_exec(list.full.as_str(), list.separator.as_str());
    let target = chars_of(looking_for.as_str());
    trimmed_pieces_contain(&pieces, &target)
}

} // verus!
