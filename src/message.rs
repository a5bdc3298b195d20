use vstd::prelude::*;
use vstd::string::*;

verus! {

/// Longest message accepted, in characters.
pub const MAX_MESSAGE_LENGTH: usize = 100;

/// Characters that may reach the terminal: printable ASCII, tab and newline.
pub open spec fn is_allowed_char(c: char) -> bool {
    (0x20 <= (c as u32) && (c as u32) < 0x7F) || c == '\t' || c == '\n'
}

/// `s` with every character that may not reach the terminal dropped.
pub open spec fn sanitized(s: Seq<char>) -> Seq<char> {
    s.filter(|c: char| is_allowed_char(c))
}

/// The error given for a message over the length limit.
pub open spec fn too_long_error() -> Seq<char> {
    "Message too long (max 100 characters)"@
}

/// Sanitising drops characters: it never adds nor lengthens.
pub proof fn lemma_sanitized_shape(s: Seq<char>)
    ensures
        sanitized(s).len() <= s.len(),
        forall|i: int| 0 <= i < sanitized(s).len() ==> is_allowed_char(#[trigger] sanitized(s)[i]),
    decreases s.len(),
{
    reveal(Seq::filter);
    if s.len() > 0 {
        lemma_sanitized_shape(s.drop_last());
    }
}

/// A text made of allowed characters only is left as it is.
proof fn lemma_sanitized_keeps_clean(s: Seq<char>)
    requires
        forall|i: int| 0 <= i < s.len() ==> is_allowed_char(#[trigger] s[i]),
    ensures
        sanitized(s) == s,
    decreases s.len(),
{
    reveal(Seq::filter);
    if s.len() > 0 {
        lemma_sanitized_keeps_clean(s.drop_last());
        assert(s.drop_last().push(s.last()) =~= s);
    }
}

/// Sanitising twice gives what sanitising once gives.
pub proof fn lemma_sanitize_idempotent(s: Seq<char>)
    ensures
        sanitized(sanitized(s)) == sanitized(s),
{
    lemma_sanitized_shape(s);
    lemma_sanitized_keeps_clean(sanitized(s));
}

/// Whether `c` may reach the terminal.
pub fn is_allowed(c: char) -> (r: bool)
    ensures
        r == is_allowed_char(c),
{
    let code = c as u32;
    (0x20 <= code && code < 0x7F) || c == '\t' || c == '\n'
}

/// `input` with control characters, escape introducers and every
/// non-ASCII character removed; tab and newline are kept.
pub fn sanitize_input(input: &str) -> (r: String)
    ensures
        r@ == sanitized(input@),
        r@.len() <= input@.len(),
        forall|i: int| 0 <= i < r@.len() ==> is_allowed_char(#[trigger] r@[i]),
{
    proof {
        reveal_strlit("");
        reveal(Seq::filter);
    }
    let n = input.unicode_len();
    let mut out = String::from_str("");
    let mut i: usize = 0;
    assert(input@.subrange(0, 0) =~= Seq::<char>::empty());
    while i < n
        invariant
            n == input@.len(),
            i <= n,
            out@ == sanitized(input@.subrange(0, i as int)),
        decreases n - i,
    {
        let c = input.get_char(i);
        let ghost prefix = input@.subrange(0, i as int);
        let ghost next = input@.subrange(0, i as int + 1);
        assert(next.drop_last() =~= prefix);
        assert(next.last() == c);
        assert(sanitized(next) == if is_allowed_char(c) {
            sanitized(prefix).push(c)
        } else {
            sanitized(prefix)
        }) by {
            reveal(Seq::filter);
        }
        if is_allowed(c) {
            let piece = input.substring_char(i, i + 1);
            assert(piece@ =~= seq![c]);
            out.append(piece);
        }
        assert(out@ =~= sanitized(next));
        i = i + 1;
    }
    assert(input@.subrange(0, n as int) =~= input@);
    proof {
        lemma_sanitized_shape(input@);
    }
    out
}

/// The message to show, checked against the length limit and sanitised.
pub fn validate_message(s: &str) -> (r: Result<String, String>)
    ensures
        s@.len() <= MAX_MESSAGE_LENGTH ==> r is Ok && r->Ok_0@ == sanitized(s@),
        s@.len() > MAX_MESSAGE_LENGTH ==> r is Err && r->Err_0@ == too_long_error(),
{
    if s.unicode_len() > MAX_MESSAGE_LENGTH {
        proof {
            reveal_strlit("Message too long (max 100 characters)");
        }
        return Err(String::from_str("Message too long (max 100 characters)"));
    }
    Ok(sanitize_input(s))
}

} // verus!
