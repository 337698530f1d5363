//! Queries that the engine's parser cannot be handed.
//!
//! The parser reads a star that stands alone as a test for the presence of a
//! field, and takes the field's name for read. Behind a sign and white space
//! no name was read, and the parser panics. Such a query is refused before
//! it reaches the parser, wherever in the text the three stand.

use crate::command::{is_space, is_white};
use vstd::prelude::*;
use vstd::string::*;

verus! {

/// The signs that mark a clause as required or excluded.
pub open spec fn is_sign(c: char) -> bool {
    c == '+' || c == '-'
}

/// The white space that the parser skips between the parts of a query.
pub open spec fn is_blank(c: char) -> bool {
    c == ' ' || c == '\t' || c == '\r' || c == '\n'
}

/// What may follow a star for it to stand alone: white space, or a
/// character that cannot be part of a word unescaped.
pub open spec fn ends_word(c: char) -> bool {
    ||| is_space(c)
    ||| c == '^'
    ||| c == '`'
    ||| c == ':'
    ||| c == '{'
    ||| c == '}'
    ||| c == '"'
    ||| c == '\''
    ||| c == '['
    ||| c == ']'
    ||| c == '('
    ||| c == ')'
    ||| c == '\\'
}

/// That a sign stands at `from` and nothing but white space, and some of
/// it, between the sign and `to`.
pub open spec fn led_by_sign(query: Seq<char>, from: int, to: int) -> bool {
    &&& 0 <= from
    &&& from + 1 < to <= query.len()
    &&& is_sign(query[from])
    &&& forall|k: int| from < k < to ==> is_blank(#[trigger] query[k])
}

/// That white space reaches from some sign up to `to`.
pub open spec fn led(query: Seq<char>, to: int) -> bool {
    exists|from: int| #[trigger] led_by_sign(query, from, to)
}

/// That a star stands alone at `at`, behind a sign and white space.
pub open spec fn lone_star(query: Seq<char>, at: int) -> bool {
    &&& 0 <= at < query.len()
    &&& query[at] == '*'
    &&& at + 1 == query.len() || ends_word(query[at + 1])
    &&& led(query, at)
}

/// That a query can be handed to the parser: nowhere in it a star stands
/// alone behind a sign and white space.
pub open spec fn query_ok(query: Seq<char>) -> bool {
    forall|at: int| !#[trigger] lone_star(query, at)
}

/// White space reaches from a sign up to the next position exactly if the
/// character before it is white space and either the sign stands right
/// before that, or white space reached up to it already.
pub proof fn lemma_led_step(query: Seq<char>, at: int)
    requires
        0 <= at < query.len(),
    ensures
        led(query, at + 1) <==> is_blank(query[at]) && (led(query, at) || (at > 0 && is_sign(
            query[at - 1],
        ))),
{
    let next = at + 1;
    if led(query, next) {
        let from = choose|from: int| led_by_sign(query, from, next);
        assert(is_blank(query[at]));
        if from + 1 < at {
            assert(led_by_sign(query, from, at));
        } else {
            assert(from == at - 1);
        }
    }
    if is_blank(query[at]) {
        if led(query, at) {
            let from = choose|from: int| led_by_sign(query, from, at);
            assert(led_by_sign(query, from, next));
        }
        if at > 0 && is_sign(query[at - 1]) {
            assert(led_by_sign(query, at - 1, next));
        }
    }
}

/// Whether a character ends a word.
fn is_word_end(c: char) -> (end: bool)
    ensures
        end == ends_word(c),
{
    is_white(c) || c == '^' || c == '`' || c == ':' || c == '{' || c == '}' || c == '"' || c == '\''
        || c == '[' || c == ']' || c == '(' || c == ')' || c == '\\'
}

/// Whether a query has to be refused: it cannot be handed to the parser.
pub fn query_refused(query: &str) -> (refused: bool)
    ensures
        refused == !query_ok(query@),
{
    let n = query.unicode_len();
    let mut after_sign = false;
    let mut in_blanks = false;
    let mut at: usize = 0;
    while at < n
        invariant
            at <= n,
            n == query@.len(),
            after_sign == (at > 0 && is_sign(query@[at - 1])),
            in_blanks == led(query@, at as int),
            forall|before: int| 0 <= before < at ==> !lone_star(query@, before),
        decreases n - at,
    {
        let c = query.get_char(at);
        if c == '*' && in_blanks {
            let alone = if at + 1 == n {
                true
            } else {
                is_word_end(query.get_char(at + 1))
            };
            if alone {
                proof {
                    assert(lone_star(query@, at as int));
                }
                return true;
            }
        }
        proof {
            lemma_led_step(query@, at as int);
        }
        in_blanks = (c == ' ' || c == '\t' || c == '\r' || c == '\n') && (in_blanks || after_sign);
        after_sign = c == '+' || c == '-';
        at += 1;
    }
    false
}

} // verus!
