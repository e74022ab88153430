//! Rendering an action as one display line.
//!
//! An action is described by an ordered list of textual tokens: a program name
//! and its arguments, or the fragments of any other expression. The display
//! line shows what the caller wrote, without the quoting around it. It is an
//! aid for the reader of a terminal, not a command line that a shell could run
//! again: nothing in it is escaped.

use crate::text::{
    all_white_space, is_white_space, strip_leading, strip_trailing, texts, trim, trimmed,
    trimmed_bounds, trimmed_is_subrange, without_leading, without_trailing,
};
use vstd::prelude::*;

verus! {

/// The marker that a raw string literal begins with, in front of its
/// quotation mark.
pub const RAW_MARKER: char = 'r';

/// The quotation mark around a string literal.
pub const QUOTE: char = '"';

/// The token that only separates the items of a list.
pub const SEPARATOR: char = ',';

/// `text` begins as a raw string literal does: with the raw-string marker and
/// a quotation mark right behind it.
pub open spec fn begins_raw(text: Seq<char>) -> bool {
    text.len() >= 2 && text[0] == RAW_MARKER && text[1] == QUOTE
}

/// `text` without its raw-string marker, if it begins with one. A first
/// character that merely is the letter of the marker belongs to the text and
/// stays.
pub open spec fn without_raw_marker(text: Seq<char>) -> Seq<char> {
    if begins_raw(text) {
        text.drop_first()
    } else {
        text
    }
}

/// `text` without one layer of quoting: the raw-string marker at its front,
/// then one quotation mark at its front, then one quotation mark at its end,
/// each where there is one.
pub open spec fn stripped(text: Seq<char>) -> Seq<char> {
    without_trailing(without_leading(without_raw_marker(text), QUOTE), QUOTE)
}

/// The text of a token without its decoration: the white space around it and
/// one layer of quoting.
pub open spec fn undecorated(token: Seq<char>) -> Seq<char> {
    stripped(trimmed(token))
}

/// A token that is a bare separator: nothing but the separator, apart from
/// white space around it. A separator inside quotation marks is text.
pub open spec fn is_separator(token: Seq<char>) -> bool {
    trimmed(token) == seq![SEPARATOR]
}

/// What one token adds to the display line: nothing for a separator, else
/// its undecorated text and one space.
pub open spec fn piece(token: Seq<char>) -> Seq<char> {
    if is_separator(token) {
        Seq::empty()
    } else {
        undecorated(token).push(' ')
    }
}

/// The display line of `tokens`: their pieces, in order.
pub open spec fn rendered(tokens: Seq<Seq<char>>) -> Seq<char>
    decreases tokens.len(),
{
    if tokens.len() == 0 {
        Seq::empty()
    } else {
        rendered(tokens.drop_last()) + piece(tokens.last())
    }
}

/// `words`, each followed by one space.
pub open spec fn spaced(words: Seq<Seq<char>>) -> Seq<char>
    decreases words.len(),
{
    if words.len() == 0 {
        Seq::empty()
    } else {
        spaced(words.drop_last()) + words.last().push(' ')
    }
}

/// The undecorated texts of the tokens that are no separator, in order.
pub open spec fn survivors(tokens: Seq<Seq<char>>) -> Seq<Seq<char>> {
    tokens.filter(|token: Seq<char>| !is_separator(token)).map_values(
        |token: Seq<char>| undecorated(token),
    )
}

/// The token that a string literal with the text `body` is written as: the
/// body between quotation marks, behind a raw-string marker if `raw`.
pub open spec fn literal(raw: bool, body: Seq<char>) -> Seq<char> {
    let quoted = seq![QUOTE] + body + seq![QUOTE];
    if raw {
        seq![RAW_MARKER] + quoted
    } else {
        quoted
    }
}

/// Undecorating leaves the interior of a token as it stands: what remains is
/// a part of the token, with no character added or changed.
pub proof fn undecorated_is_interior(token: Seq<char>) -> (bounds: (int, int))
    ensures
        0 <= bounds.0 <= bounds.1 <= token.len(),
        undecorated(token) == token.subrange(bounds.0, bounds.1),
{
    let (lo, hi) = trimmed_bounds(token);
    let t0 = trimmed(token);
    let t1 = without_raw_marker(t0);
    let lo1 = if begins_raw(t0) { lo + 1 } else { lo };
    assert(t1 =~= token.subrange(lo1, hi));
    let t2 = without_leading(t1, QUOTE);
    let lo2 = if t2 == t1 { lo1 } else { lo1 + 1 };
    assert(t2 =~= token.subrange(lo2, hi));
    let t3 = without_trailing(t2, QUOTE);
    let hi3 = if t3 == t2 { hi } else { hi - 1 };
    assert(t3 =~= token.subrange(lo2, hi3));
    (lo2, hi3)
}

/// A string literal, raw or not and with any white space around it, is
/// undecorated to exactly the text between its quotation marks, whatever
/// that text holds, and is no separator.
pub proof fn literal_is_unwrapped(lead: Seq<char>, raw: bool, body: Seq<char>, trail: Seq<char>)
    requires
        all_white_space(lead),
        all_white_space(trail),
    ensures
        undecorated(lead + literal(raw, body) + trail) == body,
        !is_separator(lead + literal(raw, body) + trail),
{
    let core = literal(raw, body);
    let token = lead + core + trail;
    let lo = lead.len() as int;
    let hi = lo + core.len();
    assert(token.take(lo) =~= lead);
    assert(token.skip(hi) =~= trail);
    assert(token[lo] == core[0]);
    assert(token[hi - 1] == core.last());
    trimmed_is_subrange(token, lo, hi);
    assert(token.subrange(lo, hi) =~= core);
    let quoted = seq![QUOTE] + body + seq![QUOTE];
    if raw {
        assert(core[1] == quoted[0]);
    }
    assert(without_raw_marker(core) =~= quoted);
    assert(quoted.drop_first() =~= body + seq![QUOTE]);
    assert((body + seq![QUOTE]).drop_last() =~= body);
}

/// A token that carries no decoration is undecorated to itself, without the
/// white space around it. A letter `r` at its front is no decoration unless
/// a quotation mark follows it.
pub proof fn bare_token_is_kept(lead: Seq<char>, body: Seq<char>, trail: Seq<char>)
    requires
        all_white_space(lead),
        all_white_space(trail),
        body.len() > 0 ==> !is_white_space(body.first()) && !is_white_space(body.last()),
        body.len() > 0 ==> body.first() != QUOTE && body.last() != QUOTE,
        !begins_raw(body),
    ensures
        undecorated(lead + body + trail) == body,
{
    let token = lead + body + trail;
    let lo = lead.len() as int;
    let hi = lo + body.len();
    if body.len() > 0 {
        assert(token.take(lo) =~= lead);
        assert(token.skip(hi) =~= trail);
        assert(token[lo] == body.first());
        assert(token[hi - 1] == body.last());
        trimmed_is_subrange(token, lo, hi);
        assert(token.subrange(lo, hi) =~= body);
    } else {
        // nothing but white space: trimming the start runs through all of it
        let end = token.len() as int;
        assert forall|i: int| 0 <= i < end implies is_white_space(
            #[trigger] token.take(end)[i],
        ) by {
            if i < lo {
                assert(token[i] == lead[i]);
            } else {
                assert(token[i] == trail[i - lo]);
            }
        }
        assert(token.skip(end) =~= Seq::<char>::empty());
        trimmed_is_subrange(token, end, end);
        assert(token.subrange(end, end) =~= body);
    }
}

/// The display line of a list is the display line of its front followed by
/// that of its back: each token adds its piece whatever stands around it.
pub proof fn rendered_concat(front: Seq<Seq<char>>, back: Seq<Seq<char>>)
    ensures
        rendered(front + back) == rendered(front) + rendered(back),
    decreases back.len(),
{
    if back.len() == 0 {
        assert(front + back =~= front);
        assert(rendered(front) + rendered(back) =~= rendered(front));
    } else {
        rendered_concat(front, back.drop_last());
        assert((front + back).drop_last() =~= front + back.drop_last());
        assert((front + back).last() == back.last());
        assert(rendered(front + back) =~= rendered(front) + rendered(back));
    }
}

/// A separator adds nothing to the display line, neither text nor a space:
/// the line is the same with the separator taken out of the list.
pub proof fn separator_is_dropped(
    front: Seq<Seq<char>>,
    separator: Seq<char>,
    back: Seq<Seq<char>>,
)
    requires
        is_separator(separator),
    ensures
        rendered(front.push(separator) + back) == rendered(front + back),
{
    rendered_concat(front.push(separator), back);
    rendered_concat(front, back);
    assert(front.push(separator).drop_last() =~= front);
    assert(rendered(front.push(separator)) =~= rendered(front));
}

/// The display line is made of the tokens that are no separator, and of
/// nothing else: the undecorated text of each, in the order of the tokens,
/// each followed by one space.
pub proof fn rendered_is_survivors_spaced(tokens: Seq<Seq<char>>)
    ensures
        rendered(tokens) == spaced(survivors(tokens)),
    decreases tokens.len(),
{
    reveal(Seq::filter);
    let stays = |token: Seq<char>| !is_separator(token);
    let text = |token: Seq<char>| undecorated(token);
    if tokens.len() == 0 {
        assert(survivors(tokens) =~= Seq::<Seq<char>>::empty());
    } else {
        rendered_is_survivors_spaced(tokens.drop_last());
        let kept = tokens.drop_last().filter(stays);
        if stays(tokens.last()) {
            assert(tokens.filter(stays) == kept.push(tokens.last()));
            assert(survivors(tokens) =~= survivors(tokens.drop_last()).push(
                undecorated(tokens.last()),
            ));
            assert(survivors(tokens).drop_last() =~= survivors(tokens.drop_last()));
        } else {
            assert(tokens.filter(stays) == kept);
        }
    }
}

/// A list of nothing but separators is rendered as the empty line.
pub proof fn separators_render_as_nothing(tokens: Seq<Seq<char>>)
    requires
        forall|i: int| 0 <= i < tokens.len() ==> is_separator(#[trigger] tokens[i]),
    ensures
        rendered(tokens) == Seq::<char>::empty(),
    decreases tokens.len(),
{
    if tokens.len() > 0 {
        separators_render_as_nothing(tokens.drop_last());
    }
}

/// `token` is the string literal with the text `body`, raw or not as `raw`
/// says, with the white space `lead` before it and `trail` behind it.
pub open spec fn is_literal(
    token: Seq<char>,
    lead: Seq<char>,
    raw: bool,
    body: Seq<char>,
    trail: Seq<char>,
) -> bool {
    all_white_space(lead) && all_white_space(trail) && token == lead + literal(raw, body) + trail
}

/// A list of string literals, each raw or not and with any white space
/// around it, is rendered as their texts, each followed by one space: no
/// quotation mark and no raw-string marker of the literals is left, and
/// every text appears as it is, whatever it holds.
pub proof fn literals_render_as_their_texts(
    tokens: Seq<Seq<char>>,
    lead: Seq<Seq<char>>,
    raw: Seq<bool>,
    bodies: Seq<Seq<char>>,
    trail: Seq<Seq<char>>,
)
    requires
        lead.len() == tokens.len(),
        raw.len() == tokens.len(),
        bodies.len() == tokens.len(),
        trail.len() == tokens.len(),
        forall|i: int|
            0 <= i < tokens.len() ==> #[trigger] is_literal(
                tokens[i],
                lead[i],
                raw[i],
                bodies[i],
                trail[i],
            ),
    ensures
        rendered(tokens) == spaced(bodies),
    decreases tokens.len(),
{
    if tokens.len() > 0 {
        let last = tokens.len() - 1;
        assert forall|i: int| 0 <= i < last implies #[trigger] is_literal(
            tokens.drop_last()[i],
            lead.drop_last()[i],
            raw.drop_last()[i],
            bodies.drop_last()[i],
            trail.drop_last()[i],
        ) by {
            assert(is_literal(tokens[i], lead[i], raw[i], bodies[i], trail[i]));
        }
        literals_render_as_their_texts(
            tokens.drop_last(),
            lead.drop_last(),
            raw.drop_last(),
            bodies.drop_last(),
            trail.drop_last(),
        );
        assert(is_literal(tokens[last], lead[last], raw[last], bodies[last], trail[last]));
        literal_is_unwrapped(lead[last], raw[last], bodies[last], trail[last]);
    }
}

/// A character that no token holds is not in the display line either, unless
/// it is the space that follows each piece.
pub proof fn rendered_adds_only_spaces(tokens: Seq<Seq<char>>, c: char)
    requires
        c != ' ',
        forall|i: int| 0 <= i < tokens.len() ==> !(#[trigger] tokens[i]).contains(c),
    ensures
        !rendered(tokens).contains(c),
    decreases tokens.len(),
{
    if tokens.len() > 0 {
        rendered_adds_only_spaces(tokens.drop_last(), c);
        let token = tokens.last();
        let (lo, hi) = undecorated_is_interior(token);
        let line = rendered(tokens);
        let front = rendered(tokens.drop_last());
        if line.contains(c) {
            let at = choose|at: int| 0 <= at < line.len() && line[at] == c;
            if at < front.len() {
                assert(front[at] == c);
            } else {
                let within = at - front.len();
                assert(piece(token)[within] == c);
                assert(token[lo + within] == c);
            }
        }
    }
}

/// Returns `text` without one layer of quoting.
pub fn strip(text: &str) -> (out: &str)
    ensures
        out@ == stripped(text@),
{
    let n: usize = text.unicode_len();
    let text = if n >= 2 && text.get_char(0) == RAW_MARKER && text.get_char(1) == QUOTE {
        text.substring_char(1, n)
    } else {
        text
    };
    let text = strip_leading(text, QUOTE);
    strip_trailing(text, QUOTE)
}

/// Returns the text of `token` without its decoration.
pub fn undecorate(token: &str) -> (out: &str)
    ensures
        out@ == undecorated(token@),
{
    strip(trim(token))
}

/// Renders `tokens` as one display line.
pub fn render(tokens: &[&str]) -> (line: String)
    ensures
        line@ == rendered(texts(tokens@)),
{
    let mut line = String::new();
    let mut i: usize = 0;
    while i < tokens.len()
        invariant
            i <= tokens.len(),
            line@ == rendered(texts(tokens@).take(i as int)),
        decreases tokens.len() - i,
    {
        let token = trim(tokens[i]);
        let ghost before = line@;
        if !(token.unicode_len() == 1 && token.get_char(0) == SEPARATOR) {
            line.append(strip(token));
            line.append(" ");
            proof {
                reveal_strlit(" ");
                assert(" "@ =~= seq![' ']);
                assert(token@ != seq![SEPARATOR]);
                assert(line@ =~= before + piece(tokens[i as int]@));
            }
        } else {
            assert(token@ =~= seq![SEPARATOR]);
            assert(line@ =~= before + piece(tokens[i as int]@));
        }
        proof {
            let all = texts(tokens@);
            assert(all.take(i + 1).drop_last() =~= all.take(i as int));
            assert(all.take(i + 1).last() == tokens[i as int]@);
        }
        i = i + 1;
    }
    assert(texts(tokens@).take(i as int) =~= texts(tokens@));
    line
}

} // verus!
