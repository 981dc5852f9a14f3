use vstd::prelude::*;

verus! {

/// Relies on String::push: the character is appended at the end.
#[verifier::external_body]
fn push_char(s: &mut String, c: char)
    ensures
        final(s)@ == old(s)@.push(c),
{
    s.push(c)
}

/// The characters of a string, in order.
pub fn chars_of(s: &str) -> (r: Vec<char>)
    ensures
        r@ == s@,
{
    let mut out: Vec<char> = Vec::new();
    for c in it: s.chars()
        invariant
            out@ == it.seq().take(it.index()),
    {
        out.push(c);
    }
    out
}

/// `s` with every apostrophe written as the HTML entity `&apos;`.
pub open spec fn escape_apostrophes_spec(s: Seq<char>) -> Seq<char>
    decreases s.len(),
{
    if s.len() == 0 {
        s
    } else {
        let head = escape_apostrophes_spec(s.drop_last());
        if s.last() == '\'' {
            head + seq!['&', 'a', 'p', 'o', 's', ';']
        } else {
            head.push(s.last())
        }
    }
}

/// Escapes apostrophes so that the text can stand inside a single-quoted
/// HTML attribute.
pub fn escape_apostrophes(s: &str) -> (r: String)
    ensures
        r@ == escape_apostrophes_spec(s@),
{
    let cs = chars_of(s);
    let mut out = String::new();
    let mut i: usize = 0;
    while i < cs.len()
        invariant
            i <= cs.len(),
            cs@ == s@,
            out@ == escape_apostrophes_spec(s@.take(i as int)),
        decreases cs.len() - i,
    {
        let c = cs[i];
        proof {
            assert(s@.take(i + 1).drop_last() =~= s@.take(i as int));
        }
        if c == '\'' {
            push_char(&mut out, '&');
            push_char(&mut out, 'a');
            push_char(&mut out, 'p');
            push_char(&mut out, 'o');
            push_char(&mut out, 's');
            push_char(&mut out, ';');
        } else {
            push_char(&mut out, c);
        }
        i = i + 1;
        assert(out@ =~= escape_apostrophes_spec(s@.take(i as int)));
    }
    assert(s@.take(i as int) =~= s@);
    out
}

} // verus!
