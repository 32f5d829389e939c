//! Text helpers: joining pieces with a separator, and searching a type
//! expression for an occurrence of a lifetime token.

use vstd::prelude::*;
use vstd::string::*;

verus! {

/// The concatenation of `parts` with `sep` between neighbours.
pub open spec fn join_text(parts: Seq<Seq<char>>, sep: Seq<char>) -> Seq<char>
    decreases parts.len(),
{
    if parts.len() == 0 {
        Seq::empty()
    } else if parts.len() == 1 {
        parts[0]
    } else {
        join_text(parts.drop_last(), sep) + sep + parts.last()
    }
}

/// Joins `parts` with `sep` between neighbours.
pub fn join(parts: &Vec<String>, sep: &str) -> (r: String)
    ensures
        r@ == join_text(parts@.map_values(|p: String| p@), sep@),
{
    let ghost views = parts@.map_values(|p: String| p@);
    let mut r = String::new();
    let mut k: usize = 0;
    while k < parts.len()
        invariant
            k <= parts@.len(),
            views == parts@.map_values(|p: String| p@),
            r@ == join_text(views.take(k as int), sep@),
        decreases parts@.len() - k,
    {
        if k > 0 {
            r.append(sep);
        }
        r.append(parts[k].as_str());
        proof {
            assert(views.take(k + 1).drop_last() =~= views.take(k as int));
            assert(views.take(k + 1).last() == views[k as int]);
        }
        k += 1;
    }
    proof {
        assert(views.take(parts@.len() as int) =~= views);
    }
    r
}

/// Whether a character may continue an identifier: an ASCII letter, digit or
/// underscore.
pub open spec fn ident_char_spec(c: char) -> bool {
    ||| 'a' <= c <= 'z'
    ||| 'A' <= c <= 'Z'
    ||| '0' <= c <= '9'
    ||| c == '_'
}

/// Whether a character may continue an identifier.
pub fn is_ident_char(c: char) -> (r: bool)
    ensures
        r == ident_char_spec(c),
{
    ('a' <= c && c <= 'z') || ('A' <= c && c <= 'Z') || ('0' <= c && c <= '9') || c == '_'
}

/// Whether `tok` occurs in `hay` starting at position `i`, not immediately
/// followed by an identifier character (so that the token `'a` is not taken
/// for the beginning of `'ab`).
pub open spec fn token_at(hay: Seq<char>, tok: Seq<char>, i: int) -> bool {
    &&& 0 <= i
    &&& i + tok.len() <= hay.len()
    &&& hay.subrange(i, i + tok.len()) == tok
    &&& (i + tok.len() == hay.len() || !ident_char_spec(hay[i + tok.len()]))
}

/// Whether `tok` occurs anywhere in `hay` as a completed token.
pub open spec fn contains_token(hay: Seq<char>, tok: Seq<char>) -> bool {
    exists|i: int| token_at(hay, tok, i)
}

/// Whether `tok` occurs at position `i` of `hay`.
fn token_matches_at(hay: &str, tok: &str, i: usize) -> (r: bool)
    requires
        i + tok@.len() <= hay@.len(),
    ensures
        r == token_at(hay@, tok@, i as int),
{
    let m = tok.unicode_len();
    let n = hay.unicode_len();
    let mut j: usize = 0;
    while j < m
        invariant
            j <= m,
            m == tok@.len(),
            n == hay@.len(),
            i + m <= n,
            forall|a: int| 0 <= a < j ==> hay@[i + a] == tok@[a],
        decreases m - j,
    {
        if hay.get_char(i + j) != tok.get_char(j) {
            proof {
                assert(hay@.subrange(i as int, i + m) != tok@) by {
                    assert(hay@.subrange(i as int, i + m)[j as int] == hay@[i + j]);
                }
            }
            return false;
        }
        j += 1;
    }
    proof {
        assert(hay@.subrange(i as int, i + m) =~= tok@);
    }
    if i + m == n {
        true
    } else {
        let c = hay.get_char(i + m);
        !is_ident_char(c)
    }
}

/// Whether `tok` occurs anywhere in `hay` as a completed token.
pub fn contains_token_str(hay: &str, tok: &str) -> (r: bool)
    requires
        tok@.len() > 0,
    ensures
        r == contains_token(hay@, tok@),
{
    let n = hay.unicode_len();
    let m = tok.unicode_len();
    if m > n {
        proof {
            assert(forall|i: int| !token_at(hay@, tok@, i));
        }
        return false;
    }
    let mut i: usize = 0;
    while i <= n - m
        invariant
            1 <= m <= n,
            m == tok@.len(),
            n == hay@.len(),
            i <= n - m + 1,
            forall|a: int| 0 <= a < i ==> !token_at(hay@, tok@, a),
        decreases n + 1 - m - i,
    {
        if token_matches_at(hay, tok, i) {
            proof {
                assert(contains_token(hay@, tok@)) by {
                    assert(token_at(hay@, tok@, i as int));
                }
            }
            return true;
        }
        i += 1;
    }
    proof {
        assert(forall|a: int| a >= i ==> !token_at(hay@, tok@, a));
    }
    false
}

} // verus!
