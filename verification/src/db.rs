//! The pure parts of store bootstrap: carving a schema file's text into
//! the statements the driver executes one by one, and deciding which
//! files of the schema directory run in the app pass. Reading the
//! directory and executing the statements is driver work outside the
//! library.

use vstd::prelude::*;

use crate::num::chars_to_string;

verus! {

/// The pieces of a character sequence split on ';': one more piece than
/// there are semicolons, in order, none containing a semicolon, and
/// rejoining to the input.
pub open spec fn split_semicolons(s: Seq<char>) -> Seq<Seq<char>>
    decreases s.len(),
{
    if s.len() == 0 {
        seq![Seq::<char>::empty()]
    } else {
        let p = split_semicolons(s.drop_last());
        if s.last() == ';' {
            p.push(Seq::<char>::empty())
        } else {
            p.update(p.len() - 1, p.last().push(s.last()))
        }
    }
}

/// Split a schema file's content on ';', as the bootstrap does before
/// executing each piece.
pub fn split_statements(content: &str) -> (r: Vec<String>)
    ensures
        r@.map_values(|p: String| p@) == split_semicolons(content@),
{
    let len = content.unicode_len();
    let mut done: Vec<String> = Vec::new();
    let mut current: Vec<char> = Vec::new();
    let mut i: usize = 0;
    while i < len
        invariant
            i <= len,
            len == content@.len(),
            split_semicolons(content@.take(i as int)).len() == done@.len() + 1,
            done@.map_values(|p: String| p@) == split_semicolons(content@.take(i as int)).drop_last(),
            current@ == split_semicolons(content@.take(i as int)).last(),
        decreases len - i,
    {
        let c = content.get_char(i);
        let ghost pre = split_semicolons(content@.take(i as int));
        let ghost done0 = done@;
        proof {
            assert(content@.take(i + 1).drop_last() =~= content@.take(i as int));
            assert(content@.take(i + 1).last() == c);
        }
        if c == ';' {
            let ghost post = split_semicolons(content@.take(i + 1));
            proof {
                assert(post == pre.push(Seq::<char>::empty()));
                assert(post.drop_last() =~= pre);
            }
            let piece = chars_to_string(&current);
            done.push(piece);
            current.clear();
            proof {
                assert(done@ == done0.push(piece));
                assert(piece@ == pre.last());
                assert(done@.map_values(|p: String| p@) =~= pre.drop_last().push(pre.last()));
                assert(pre.drop_last().push(pre.last()) =~= pre);
            }
        } else {
            current.push(c);
            let ghost post = split_semicolons(content@.take(i + 1));
            proof {
                assert(post == pre.update(pre.len() - 1, pre.last().push(c)));
                assert(post.drop_last() =~= pre.drop_last());
                assert(post.last() == pre.last().push(c));
            }
        }
        i = i + 1;
    }
    proof {
        assert(content@.take(len as int) =~= content@);
    }
    let ghost pre = split_semicolons(content@);
    let ghost done0 = done@;
    let piece = chars_to_string(&current);
    done.push(piece);
    proof {
        assert(done@ == done0.push(piece));
        assert(done@.map_values(|p: String| p@) =~= pre.drop_last().push(pre.last()));
        assert(pre.drop_last().push(pre.last()) =~= pre);
        assert(done@.map_values(|p: String| p@) =~= pre);
    }
    done
}

/// Whether two strings hold the same characters.
pub fn str_eq(a: &str, b: &str) -> (r: bool)
    ensures
        r == (a@ == b@),
{
    let alen = a.unicode_len();
    let blen = b.unicode_len();
    if alen != blen {
        return false;
    }
    let mut i: usize = 0;
    while i < alen
        invariant
            i <= alen,
            alen == a@.len(),
            alen == b@.len(),
            forall|j: int| 0 <= j < i ==> a@[j] == b@[j],
        decreases alen - i,
    {
        if a.get_char(i) != b.get_char(i) {
            return false;
        }
        i = i + 1;
    }
    proof {
        assert(a@ =~= b@);
    }
    true
}

/// Whether one string ends with another.
pub fn str_ends_with(s: &str, suffix: &str) -> (r: bool)
    ensures
        r == (s@.len() >= suffix@.len() && s@.skip(s@.len() - suffix@.len()) == suffix@),
{
    let slen = s.unicode_len();
    let xlen = suffix.unicode_len();
    if slen < xlen {
        return false;
    }
    let mut i: usize = 0;
    while i < xlen
        invariant
            i <= xlen,
            slen == s@.len(),
            xlen == suffix@.len(),
            xlen <= slen,
            forall|j: int| 0 <= j < i ==> s@[s@.len() - suffix@.len() + j] == suffix@[j],
        decreases xlen - i,
    {
        if s.get_char(slen - xlen + i) != suffix.get_char(i) {
            return false;
        }
        i = i + 1;
    }
    proof {
        assert(s@.skip(s@.len() - suffix@.len()) =~= suffix@);
    }
    true
}

/// The recreate file, which the app pass must not run again.
pub open spec fn spec_recreate_path() -> Seq<char> {
    "sql/00-recreate-db.sql"@
}

/// Whether a schema directory entry runs in the app pass: an `.sql`
/// file other than the recreate file.
pub open spec fn spec_is_app_sql_path(p: Seq<char>) -> bool {
    &&& p.len() >= ".sql"@.len()
    &&& p.skip(p.len() - ".sql"@.len()) == ".sql"@
    &&& p != spec_recreate_path()
}

/// Decide whether a schema directory entry runs in the app pass.
pub fn is_app_sql_path(path: &str) -> (r: bool)
    ensures
        r == spec_is_app_sql_path(path@),
{
    if !str_ends_with(path, ".sql") {
        return false;
    }
    if str_eq(path, "sql/00-recreate-db.sql") {
        return false;
    }
    true
}

} // verus!
