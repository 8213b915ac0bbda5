//! Character-level string helpers shared by the components.
//!
//! The components edit and inspect text as sequences of characters, so
//! the helpers here convert between `String` and `Vec<char>` and expand
//! tabs, each with an exact character-sequence contract.

use vstd::prelude::*;

use vstd::std_specs::iter::IteratorSpec;

verus! {

/// Relies on `String::push`: appends exactly the given character.
#[verifier::external_body]
fn push_char(s: &mut String, c: char)
    ensures
        final(s)@ == old(s)@.push(c),
{
    s.push(c);
}

/// The characters of `s`, in order.
pub fn chars_of(s: &str) -> (r: Vec<char>)
    ensures
        r@ == s@,
{
    let mut it = s.chars();
    let mut r: Vec<char> = Vec::new();
    loop
        invariant
            it.obeys_prophetic_iter_laws(),
            it.decrease() is Some,
            r@ + it.remaining() == s@,
        ensures
            r@ == s@,
        decreases it.decrease()->0,
    {
        match it.next() {
            Some(c) => {
                r.push(c);
            },
            None => {
                proof {
                    assert(r@ =~= s@);
                }
                break ;
            },
        }
    }
    r
}

/// The `String` spelling the given characters, in order.
pub fn string_of(chars: &Vec<char>) -> (r: String)
    ensures
        r@ == chars@,
{
    let mut r = String::new();
    let mut i: usize = 0;
    while i < chars.len()
        invariant
            i <= chars.len(),
            r@ == chars@.take(i as int),
        decreases chars.len() - i,
    {
        push_char(&mut r, chars[i]);
        i = i + 1;
        proof {
            assert(r@ =~= chars@.take(i as int));
        }
    }
    proof {
        assert(chars@.take(chars@.len() as int) =~= chars@);
    }
    r
}

/// What one character contributes to the tab-expanded text: a tab
/// becomes four spaces, everything else stays itself.
pub open spec fn tab_expansion(c: char) -> Seq<char> {
    if c == '\t' {
        seq![' ', ' ', ' ', ' ']
    } else {
        seq![c]
    }
}

/// The text with every tab replaced by four spaces.
pub open spec fn tabs_to_spaces_spec(s: Seq<char>) -> Seq<char>
    decreases s.len(),
{
    if s.len() == 0 {
        Seq::empty()
    } else {
        tab_expansion(s[0]) + tabs_to_spaces_spec(s.drop_first())
    }
}

proof fn lemma_tabs_to_spaces_take_step(s: Seq<char>, i: int)
    requires
        0 <= i < s.len(),
    ensures
        tabs_to_spaces_spec(s.take(i + 1)) == tabs_to_spaces_spec(s.take(i)) + tab_expansion(s[i]),
    decreases i,
{
    if i == 0 {
        assert(s.take(1).drop_first() =~= Seq::<char>::empty());
        assert(s.take(0) =~= Seq::<char>::empty());
        assert(s.take(1)[0] == s[0]);
        assert(tabs_to_spaces_spec(Seq::<char>::empty()) =~= Seq::<char>::empty());
        assert(tabs_to_spaces_spec(s.take(1)) == tab_expansion(s[0]) + tabs_to_spaces_spec(
            Seq::<char>::empty(),
        ));
        assert(tab_expansion(s[0]) + Seq::<char>::empty() =~= tab_expansion(s[0]));
        assert(Seq::<char>::empty() + tab_expansion(s[0]) =~= tab_expansion(s[0]));
    } else {
        lemma_tabs_to_spaces_take_step(s.drop_first(), i - 1);
        assert(s.take(i + 1).drop_first() =~= s.drop_first().take(i));
        assert(s.take(i).drop_first() =~= s.drop_first().take(i - 1));
        assert(s.take(i + 1)[0] == s[0]);
        assert(s.drop_first()[i - 1] == s[i]);
        assert(tabs_to_spaces_spec(s.take(i + 1)) == tab_expansion(s[0]) + tabs_to_spaces_spec(
            s.drop_first().take(i),
        ));
        assert(tab_expansion(s[0]) + (tabs_to_spaces_spec(s.drop_first().take(i - 1))
            + tab_expansion(s[i])) =~= (tab_expansion(s[0]) + tabs_to_spaces_spec(
            s.drop_first().take(i - 1),
        )) + tab_expansion(s[i]));
    }
}

/// The text with every tab replaced by four spaces, so a later cursor
/// or layout pass never meets a tab stop.
pub fn tabs_to_spaces(input: String) -> (r: String)
    ensures
        r@ == tabs_to_spaces_spec(input@),
{
    let chars = chars_of(input.as_str());
    let mut out: Vec<char> = Vec::new();
    let mut i: usize = 0;
    while i < chars.len()
        invariant
            i <= chars.len(),
            chars@ == input@,
            out@ == tabs_to_spaces_spec(chars@.take(i as int)),
        decreases chars.len() - i,
    {
        let c = chars[i];
        if c == '\t' {
            out.push(' ');
            out.push(' ');
            out.push(' ');
            out.push(' ');
        } else {
            out.push(c);
        }
        proof {
            lemma_tabs_to_spaces_take_step(chars@, i as int);
            assert(out@ =~= tabs_to_spaces_spec(chars@.take(i as int)) + tab_expansion(
                chars@[i as int],
            ));
        }
        i = i + 1;
    }
    proof {
        assert(chars@.take(chars@.len() as int) =~= chars@);
    }
    string_of(&out)
}

} // verus!
