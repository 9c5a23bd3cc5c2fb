use vstd::prelude::*;
use vstd::std_specs::iter::IteratorSpec;
use vstd::string::*;
use vstd::utf8::*;

verus! {

/// The number of characters before the first space of `s`, or its whole
/// length when it has none.
pub open spec fn token_len(s: Seq<char>) -> nat
    decreases s.len(),
{
    if s.len() == 0 || s[0] == ' ' {
        0
    } else {
        1 + token_len(s.drop_first())
    }
}

/// The first token of `s`: everything before its first space.
pub open spec fn token_of(s: Seq<char>) -> Seq<char> {
    s.take(token_len(s) as int)
}

proof fn lemma_token_len(s: Seq<char>)
    ensures
        token_len(s) <= s.len(),
        forall|j: int| 0 <= j < token_len(s) ==> s[j] != ' ',
        token_len(s) < s.len() ==> s[token_len(s) as int] == ' ',
    decreases s.len(),
{
    if s.len() > 0 && s[0] != ' ' {
        let t = s.drop_first();
        lemma_token_len(t);
        assert forall|j: int| 0 <= j < token_len(s) implies s[j] != ' ' by {
            if j > 0 {
                assert(s[j] == t[j - 1]);
            }
        }
    }
}

/// A prefix free of spaces that stops at a space or at the end is the token.
proof fn lemma_token_len_unique(s: Seq<char>, k: int)
    requires
        0 <= k <= s.len(),
        forall|j: int| 0 <= j < k ==> s[j] != ' ',
        k < s.len() ==> s[k] == ' ',
    ensures
        token_len(s) == k,
    decreases s.len(),
{
    if s.len() > 0 && s[0] != ' ' {
        let t = s.drop_first();
        assert forall|j: int| 0 <= j < k - 1 implies t[j] != ' ' by {
            assert(t[j] == s[j + 1]);
        }
        lemma_token_len_unique(t, k - 1);
    }
}

/// Each character takes at least one byte.
proof fn lemma_chars_fit_bytes(s: Seq<char>)
    ensures
        s.len() <= encode_utf8(s).len(),
    decreases s.len(),
{
    if s.len() > 0 {
        lemma_chars_fit_bytes(s.drop_first());
    }
}

/// The text before the first space of `text`, or all of `text` when it holds
/// no space. The result borrows from `text`, so `text` cannot change while it
/// is alive.
pub fn first_token(text: &str) -> (r: &str)
    ensures
        r@ == token_of(text@),
{
    let n = text.as_bytes().len();
    proof {
        lemma_chars_fit_bytes(text@);
        lemma_token_len(text@);
    }
    let mut it = text.chars();
    let mut k: usize = 0;
    let mut stop = false;
    while !stop
        invariant
            n >= text@.len(),
            k <= text@.len(),
            forall|j: int| 0 <= j < k ==> text@[j] != ' ',
            !stop ==> it.remaining() == text@.skip(k as int),
            stop ==> k == text@.len() || text@[k as int] == ' ',
        decreases text@.len() - k + (if stop { 0int } else { 1int }),
    {
        match it.next() {
            None => {
                stop = true;
            },
            Some(c) => {
                if c == ' ' {
                    stop = true;
                } else {
                    k = k + 1;
                }
            },
        }
    }
    proof {
        lemma_token_len_unique(text@, k as int);
    }
    text.substring_char(0, k)
}

/// The first word of an owned text; see [`first_token`].
pub fn first_word(s: &String) -> (r: &str)
    ensures
        r@ == token_of(s@),
{
    first_token(s.as_str())
}

/// Appends `b` to `a`, consuming `a` and only reading `b`.
pub fn concat_owned(a: String, b: &str) -> (r: String)
    ensures
        r@ == a@ + b@,
{
    a.concat(b)
}

} // verus!
