//! A plain model of styled terminal text: spans of characters with a
//! style, grouped into lines.
//!
//! The render surface consumes values of this shape; the components
//! build them with verified code. Styled content is split into lines
//! the way the surface does it: segments between newlines, a carriage
//! return stripped from a segment's end, and a trailing empty segment
//! dropped.

use vstd::prelude::*;

use crate::string_utils::{chars_of, string_of};

verus! {

/// A text style, reduced to what the components decide: dimmed (the
/// disabled look) and underlined (the cursor).
#[derive(Clone, Copy, Debug, PartialEq, Eq, Structural)]
pub struct Style {
    pub dim: bool,
    pub underlined: bool,
}

impl Default for Style {
    /// The plain look: neither dimmed nor underlined.
    fn default() -> (r: Style)
        ensures
            r == (Style { dim: false, underlined: false }),
    {
        Style { dim: false, underlined: false }
    }
}

/// A style modifier a component can add onto a base style.
#[derive(Clone, Copy, Debug, PartialEq, Eq, Structural)]
pub enum Modifier {
    Underlined,
}

impl Style {
    pub fn add_modifier(self, m: Modifier) -> (r: Style)
        ensures
            m == Modifier::Underlined ==> r == (Style { underlined: true, ..self }),
    {
        match m {
            Modifier::Underlined => Style { underlined: true, ..self },
        }
    }
}

/// The theme, reduced to the one lookup the components make: the text
/// style for enabled or disabled content. The selection flag is kept
/// for the call shape but the stock theme draws no distinction here.
#[derive(Clone, Copy, Debug, PartialEq, Eq, Structural)]
pub struct Theme {
    pub placeholder: bool,
}

impl Theme {
    /// The text style: the plain look when enabled, dimmed otherwise.
    pub fn text(&self, enabled: bool, _selected: bool) -> (r: Style)
        ensures
            r == (Style { dim: !enabled, underlined: false }),
    {
        Style { dim: !enabled, underlined: false }
    }
}

impl Default for Theme {
    fn default() -> (r: Theme)
        ensures
            r == (Theme { placeholder: false }),
    {
        Theme { placeholder: false }
    }
}

/// A run of characters drawn in one style.
pub struct Span {
    pub content: String,
    pub style: Style,
}

/// One line of spans.
pub struct Spans(pub Vec<Span>);

/// Styled text: a sequence of lines.
pub struct Text {
    pub lines: Vec<Spans>,
}

/// What a span says: its characters and its style.
pub open spec fn span_model(s: Span) -> (Seq<char>, Style) {
    (s.content@, s.style)
}

/// What a line says, span by span.
pub open spec fn spans_model(sp: Spans) -> Seq<(Seq<char>, Style)> {
    sp.0@.map_values(|s: Span| span_model(s))
}

/// What a sequence of lines says, line by line.
pub open spec fn lines_model(ls: Seq<Spans>) -> Seq<Seq<(Seq<char>, Style)>> {
    ls.map_values(|sp: Spans| spans_model(sp))
}

/// What a text says, line by line.
pub open spec fn text_model(t: Text) -> Seq<Seq<(Seq<char>, Style)>> {
    lines_model(t.lines@)
}

/// The segments of `s` between newlines, collected onto `acc` with
/// `cur` the segment being read. Splitting the whole of `s` starts
/// with both empty; every newline closes a segment, and the remainder
/// closes the last one, so `n` newlines yield `n + 1` segments.
pub open spec fn split_acc(s: Seq<char>, cur: Seq<char>, acc: Seq<Seq<char>>) -> Seq<Seq<char>>
    decreases s.len(),
{
    if s.len() == 0 {
        acc.push(cur)
    } else if s[0] == '\n' {
        split_acc(s.drop_first(), Seq::empty(), acc.push(cur))
    } else {
        split_acc(s.drop_first(), cur.push(s[0]), acc)
    }
}

/// The segments of `s` between newlines.
pub open spec fn split_on_nl(s: Seq<char>) -> Seq<Seq<char>> {
    split_acc(s, Seq::empty(), Seq::empty())
}

/// A segment with a trailing carriage return stripped.
pub open spec fn strip_cr(line: Seq<char>) -> Seq<char> {
    if line.len() > 0 && line.last() == '\r' {
        line.drop_last()
    } else {
        line
    }
}

/// The lines of `s` as the render surface splits them: newline
/// segments, a trailing empty segment dropped (a final line ending is
/// optional), and a carriage return stripped from each line's end.
pub open spec fn lines_of(s: Seq<char>) -> Seq<Seq<char>> {
    let parts = split_on_nl(s);
    let kept = if parts.last().len() == 0 {
        parts.drop_last()
    } else {
        parts
    };
    kept.map_values(|l: Seq<char>| strip_cr(l))
}

/// What [`Text::styled`] says: each line of the content as one span
/// in the given style.
pub open spec fn styled_spec(s: Seq<char>, style: Style) -> Seq<Seq<(Seq<char>, Style)>> {
    lines_of(s).map_values(|l: Seq<char>| seq![(l, style)])
}

impl Text {
    /// Text with no lines at all.
    pub fn empty() -> (t: Text)
        ensures
            text_model(t) == Seq::<Seq<(Seq<char>, Style)>>::empty(),
    {
        let t = Text { lines: Vec::new() };
        proof {
            assert(text_model(t) =~= Seq::<Seq<(Seq<char>, Style)>>::empty());
        }
        t
    }

    /// The content in one style, split into lines as the render
    /// surface splits raw text.
    pub fn styled(content: String, style: Style) -> (t: Text)
        ensures
            text_model(t) == styled_spec(content@, style),
    {
        let cs = chars_of(content.as_str());
        let mut lines: Vec<Spans> = Vec::new();
        let ghost mut acc: Seq<Seq<char>> = Seq::empty();
        let mut cur: Vec<char> = Vec::new();
        let mut i: usize = 0;
        proof {
            assert(cs@.skip(0) =~= cs@);
            assert(lines_model(lines@) =~= Seq::<Seq<(Seq<char>, Style)>>::empty());
            assert(acc.map_values(|l: Seq<char>| seq![(strip_cr(l), style)])
                =~= Seq::<Seq<(Seq<char>, Style)>>::empty());
        }
        while i < cs.len()
            invariant
                i <= cs.len(),
                split_acc(cs@.skip(i as int), cur@, acc) == split_on_nl(cs@),
                lines_model(lines@) =~= acc.map_values(|l: Seq<char>| seq![(strip_cr(l), style)]),
            decreases cs.len() - i,
        {
            proof {
                assert(cs@.skip(i as int)[0] == cs@[i as int]);
                assert(cs@.skip(i as int).drop_first() =~= cs@.skip(i as int + 1));
            }
            if cs[i] == '\n' {
                let closed = finish_segment(cur, style);
                proof {
                    assert(lines_model(lines@.push(closed)) =~= lines_model(lines@).push(
                        spans_model(closed),
                    ));
                    assert(acc.push(cur@).map_values(
                        |l: Seq<char>| seq![(strip_cr(l), style)],
                    ) =~= acc.map_values(|l: Seq<char>| seq![(strip_cr(l), style)]).push(
                        seq![(strip_cr(cur@), style)],
                    ));
                }
                lines.push(closed);
                proof {
                    acc = acc.push(cur@);
                }
                cur = Vec::new();
            } else {
                cur.push(cs[i]);
            }
            i = i + 1;
        }
        proof {
            assert(cs@.skip(cs@.len() as int) =~= Seq::<char>::empty());
            assert(split_on_nl(cs@) == acc.push(cur@));
        }
        if cur.len() > 0 {
            let closed = finish_segment(cur, style);
            proof {
                assert(lines_model(lines@.push(closed)) =~= lines_model(lines@).push(
                    spans_model(closed),
                ));
                assert(acc.push(cur@).map_values(|l: Seq<char>| seq![(strip_cr(l), style)])
                    =~= acc.map_values(|l: Seq<char>| seq![(strip_cr(l), style)]).push(
                    seq![(strip_cr(cur@), style)],
                ));
                assert(split_on_nl(cs@).last().len() != 0);
                assert(styled_spec(cs@, style) =~= acc.push(cur@).map_values(
                    |l: Seq<char>| seq![(strip_cr(l), style)],
                ));
            }
            lines.push(closed);
        } else {
            proof {
                assert(split_on_nl(cs@).last().len() == 0);
                assert(split_on_nl(cs@).drop_last() =~= acc);
                assert(styled_spec(cs@, style) =~= acc.map_values(
                    |l: Seq<char>| seq![(strip_cr(l), style)],
                ));
            }
        }
        Text { lines }
    }
}

/// Close one raw segment into a one-span line: strip a trailing
/// carriage return and wrap the characters with the style.
fn finish_segment(seg: Vec<char>, style: Style) -> (r: Spans)
    ensures
        spans_model(r) == seq![(strip_cr(seg@), style)],
{
    let ghost orig: Seq<char> = seg@;
    let mut seg = seg;
    if seg.len() > 0 && seg[seg.len() - 1] == '\r' {
        let _ = seg.pop();
        proof {
            assert(seg@ =~= strip_cr(orig));
        }
    } else {
        proof {
            assert(seg@ =~= strip_cr(orig));
        }
    }
    let span = Span { content: string_of(&seg), style };
    let r = Spans(vec![span]);
    proof {
        assert(spans_model(r) =~= seq![(strip_cr(orig), style)]);
    }
    r
}

} // verus!
