use vstd::prelude::*;
use crate::error::{
    advice_along, advice_of, causes_of, chain, chain_from, dedup, description_of,
    gathered_advice, is_plain_text, lemma_dedup_contains, message_of, own_advice, section,
    strings_view, Cause, Error, IntoCause,
};
use crate::wrapper::is_wrap_of;
use crate::kind::hero_text;
use crate::pretty::{
    advice_box, block, causes_pieces, continuation, head_label, head_pieces, layout_of,
    line_pieces, padding, spaces, text_width, visible,
};
use crate::outside::{wrapped, Tint};

verus! {

/// An error that wraps plain text reads back that text as its description.
pub proof fn lemma_plain_description(e: Error, text: Seq<char>)
    requires
        is_plain_text(e.error, text),
    ensures
        description_of(e) == text,
{
}

/// An error that wraps an error under a message reads back that message as
/// its description.
pub proof fn lemma_wrapped_description<E: IntoCause>(e: Error, message: Seq<char>, inner: E)
    requires
        is_wrap_of(e.error, message, inner),
    ensures
        description_of(e) == message,
{
}

/// The aggregated advice holds no item twice, and holds exactly the items
/// of the advice gathered along the chain.
pub proof fn lemma_advice_distinct(e: Error)
    ensures
        advice_of(e).no_duplicates(),
        forall|x: Seq<char>| advice_of(e).contains(x) <==> gathered_advice(e).contains(x),
{
    let r = gathered_advice(e).reverse();
    lemma_dedup_distinct(r);
    assert forall|x: Seq<char>| advice_of(e).contains(x) <==> gathered_advice(e).contains(x) by {
        lemma_dedup_contains(r, x);
        if r.contains(x) {
            let j = choose|j: int| 0 <= j < r.len() && r[j] == x;
            assert(gathered_advice(e)[r.len() - 1 - j] == x);
        }
        if gathered_advice(e).contains(x) {
            let g = gathered_advice(e);
            let j = choose|j: int| 0 <= j < g.len() && g[j] == x;
            assert(r[g.len() - 1 - j] == x);
        }
    }
}

/// Removing repeats leaves no item twice.
proof fn lemma_dedup_distinct(s: Seq<Seq<char>>)
    ensures
        dedup(s).no_duplicates(),
    decreases s.len(),
{
    if s.len() > 0 {
        lemma_dedup_distinct(s.drop_last());
        lemma_dedup_contains(s.drop_last(), s.last());
        let d = dedup(s.drop_last());
        if !s.drop_last().contains(s.last()) {
            let n = d.push(s.last());
            assert forall|i: int, j: int| 0 <= i < n.len() && 0 <= j < n.len() && i != j implies n[i]
                != n[j] by {
                if i == d.len() as int && j < d.len() {
                    assert(d.contains(d[j]));
                } else if j == d.len() as int && i < d.len() {
                    assert(d.contains(d[i]));
                }
            }
        }
    }
}

/// An error that wraps plain text and carries no advice has no causes, no
/// advice, and its hero line alone as its message.
pub proof fn lemma_bare_message(e: Error, text: Seq<char>)
    requires
        is_plain_text(e.error, text),
        e.advice@.len() == 0,
    ensures
        causes_of(e).len() == 0,
        advice_of(e).len() == 0,
        message_of(e) == hero_text(e.kind, text),
{
    lemma_single_cause_advice(e.error);
    assert(strings_view(e.advice@) =~= seq![]);
    assert(gathered_advice(e) =~= seq![]);
    assert(gathered_advice(e).reverse() =~= seq![]);
    assert(message_of(e) =~= hero_text(e.kind, text));
}

/// The advice along a chain of one value is that value's own advice.
proof fn lemma_single_cause_advice(c: Cause)
    ensures
        advice_along(seq![c]) == own_advice(c),
{
    assert(seq![c].drop_last() =~= Seq::<Cause>::empty());
    assert(advice_along(Seq::<Cause>::empty()) =~= seq![]);
    assert(seq![] + own_advice(c) =~= own_advice(c));
}

/// The advice along two values, one after the other.
proof fn lemma_pair_advice(c: Cause, d: Cause)
    ensures
        advice_along(seq![c, d]) == own_advice(c) + own_advice(d),
{
    lemma_single_cause_advice(c);
    assert(seq![c, d].drop_last() =~= seq![c]);
}

/// The advice along three values, one after the other.
proof fn lemma_triple_advice(c: Cause, d: Cause, f: Cause)
    ensures
        advice_along(seq![c, d, f]) == own_advice(c) + own_advice(d) + own_advice(f),
{
    lemma_pair_advice(c, d);
    assert(seq![c, d, f].drop_last() =~= seq![c, d]);
}

/// Removing repeats from two items keeps both if they differ, else one.
proof fn lemma_dedup_pair(x: Seq<char>, y: Seq<char>)
    ensures
        x != y ==> dedup(seq![x, y]) == seq![x, y],
        x == y ==> dedup(seq![x, y]) == seq![x],
{
    assert(seq![x, y].drop_last() =~= seq![x]);
    assert(seq![x].drop_last() =~= Seq::<Seq<char>>::empty());
    assert(dedup(Seq::<Seq<char>>::empty()) =~= seq![]);
    assert(!Seq::<Seq<char>>::empty().contains(x));
    assert(dedup(seq![x]) =~= seq![x]);
    if x != y {
        assert(!seq![x].contains(y)) by {
            if seq![x].contains(y) {
                let j = choose|j: int| 0 <= j < 1 && seq![x][j] == y;
                assert(seq![x][j] == x);
            }
        }
        assert(dedup(seq![x, y]) =~= seq![x, y]);
    } else {
        assert(seq![x][0] == y);
    }
}

/// An error with advice `[a]` whose wrapped error of this library carries
/// advice `[b]` and wraps plain text has, as its advice, `[b, a]`, or `[b]`
/// alone where the two are the same.
pub proof fn lemma_two_level_advice(e: Error, inner: Error, a: Seq<char>, b: Seq<char>)
    requires
        e.error == Cause::Node(Box::new(inner)),
        strings_view(e.advice@) == seq![a],
        strings_view(inner.advice@) == seq![b],
        inner.error matches Cause::Text { inner: None, .. },
    ensures
        a != b ==> advice_of(e) == seq![b, a],
        a == b ==> advice_of(e) == seq![b],
{
    assert(chain(inner.error) =~= seq![]);
    assert(chain(e.error) == chain(inner.error));
    assert(chain_from(Some(e.error)) =~= seq![e.error]);
    lemma_single_cause_advice(e.error);
    assert(gathered_advice(e) =~= seq![a, b]);
    assert(gathered_advice(e).reverse() =~= seq![b, a]);
    lemma_dedup_pair(b, a);
}

/// Causes and advice come in opposite orders. For an error that wraps, by
/// a message, an error of this library `mid`, which wraps in the same way
/// an error `low` of plain text, the causes run from `mid` to `low`, and
/// the advice from `low`'s to the outer error's.
pub proof fn lemma_opposite_orders(
    e: Error,
    mid: Error,
    low: Error,
    a: Seq<char>,
    b: Seq<char>,
    c: Seq<char>,
)
    requires
        e.error matches Cause::Text { inner: Some(d), .. } && *d == Cause::Node(Box::new(mid)),
        mid.error matches Cause::Text { inner: Some(d), .. } && *d == Cause::Node(Box::new(low)),
        low.error matches Cause::Text { inner: None, .. },
        strings_view(e.advice@) == seq![a],
        strings_view(mid.advice@) == seq![b],
        strings_view(low.advice@) == seq![c],
        a != b,
        b != c,
        a != c,
    ensures
        causes_of(e) == seq![description_of(mid), description_of(low)],
        advice_of(e) == seq![c, b, a],
{
    let n1 = Cause::Node(Box::new(mid));
    let n2 = Cause::Node(Box::new(low));
    assert(chain(low.error) =~= seq![]);
    assert(chain(n2) == chain(low.error));
    assert(chain(mid.error) == seq![n2] + chain(n2));
    assert(chain(n1) == chain(mid.error));
    assert(chain(n1) =~= seq![n2]);
    assert(chain(e.error) == seq![n1] + chain(n1));
    assert(chain(e.error) =~= seq![n1, n2]);
    assert(causes_of(e) =~= seq![description_of(mid), description_of(low)]);
    lemma_triple_advice(e.error, n1, n2);
    assert(chain_from(Some(e.error)) =~= seq![e.error, n1, n2]);
    assert(own_advice(e.error) =~= seq![]);
    let g = gathered_advice(e);
    assert(g =~= seq![a, b, c]);
    assert(g.reverse() =~= seq![c, b, a]);
    let r = seq![c, b, a];
    assert(r.drop_last() =~= seq![c, b]);
    lemma_dedup_pair(c, b);
    assert(!seq![c, b].contains(a)) by {
        if seq![c, b].contains(a) {
            let j = choose|j: int| 0 <= j < 2 && seq![c, b][j] == a;
            assert(j == 0 || j == 1);
        }
    }
    assert(dedup(r) =~= seq![c, b, a]);
}

/// An error with no advice anywhere in its chain gets no advice section in
/// its message and no advice box in its presentation.
pub proof fn lemma_no_advice_no_section(e: Error)
    requires
        gathered_advice(e).len() == 0,
    ensures
        advice_of(e).len() == 0,
        message_of(e) == hero_text(e.kind, description_of(e)) + section(
            "\n\nThis was caused by:\n - "@,
            causes_of(e),
        ),
        layout_of(e) == head_pieces(e) + causes_pieces(chain(e.error)),
{
    assert(gathered_advice(e).reverse() =~= seq![]);
    assert(advice_of(e) =~= seq![]);
    assert(advice_box(advice_of(e)) =~= seq![]);
    assert(message_of(e) =~= hero_text(e.kind, description_of(e)) + section(
        "\n\nThis was caused by:\n - "@,
        causes_of(e),
    ));
    assert(layout_of(e) =~= head_pieces(e) + causes_pieces(chain(e.error)));
}

/// Lines of text one after the other.
pub open spec fn lines_text(ls: Seq<Seq<char>>) -> Seq<char>
    decreases ls.len(),
{
    if ls.len() == 0 {
        seq![]
    } else {
        lines_text(ls.drop_last()) + ls.last()
    }
}

/// The visible text of each line of a block of wrapped text.
pub open spec fn block_lines(
    chunks: Seq<Seq<char>>,
    width: nat,
    first: Seq<(Option<Tint>, Seq<char>)>,
    rest: Seq<(Option<Tint>, Seq<char>)>,
    suffix: Seq<(Option<Tint>, Seq<char>)>,
) -> Seq<Seq<char>> {
    Seq::new(
        chunks.len(),
        |i: int|
            visible(
                line_pieces(
                    chunks[i],
                    width,
                    if i == 0 {
                        first
                    } else {
                        rest
                    },
                    suffix,
                ),
            ),
    )
}

/// The visible text of two lists of pieces, one after the other.
proof fn lemma_visible_concat(
    a: Seq<(Option<Tint>, Seq<char>)>,
    b: Seq<(Option<Tint>, Seq<char>)>,
)
    ensures
        visible(a + b) == visible(a) + visible(b),
    decreases b.len(),
{
    if b.len() == 0 {
        assert(a + b =~= a);
        assert(visible(a) + seq![] =~= visible(a));
    } else {
        lemma_visible_concat(a, b.drop_last());
        assert((a + b).drop_last() =~= a + b.drop_last());
        assert(visible(a) + visible(b.drop_last()) + b.last().1 =~= visible(a) + (visible(
            b.drop_last(),
        ) + b.last().1));
    }
}

/// The visible text of a list of pieces with one more at its end.
proof fn lemma_visible_push(a: Seq<(Option<Tint>, Seq<char>)>, p: (Option<Tint>, Seq<char>))
    ensures
        visible(a.push(p)) == visible(a) + p.1,
{
    assert(a.push(p).drop_last() =~= a);
}

/// The visible text of no pieces.
proof fn lemma_visible_empty()
    ensures
        visible(Seq::<(Option<Tint>, Seq<char>)>::empty()) == Seq::<char>::empty(),
{
}

/// The visible text of one wrapped line.
proof fn lemma_line_visible(
    chunk: Seq<char>,
    width: nat,
    prefix: Seq<(Option<Tint>, Seq<char>)>,
    suffix: Seq<(Option<Tint>, Seq<char>)>,
)
    ensures
        visible(line_pieces(chunk, width, prefix, suffix)) == visible(prefix) + chunk + padding(
            chunk,
            width,
        ) + visible(suffix) + "\n"@,
{
    let mid = seq![
        (Some(Tint::BrightWhite), chunk),
        (None::<Tint>, padding(chunk, width)),
    ];
    let nl = seq![(None::<Tint>, "\n"@)];
    lemma_visible_concat(prefix, mid);
    lemma_visible_concat(prefix + mid, suffix);
    lemma_visible_concat(prefix + mid + suffix, nl);
    let none = Seq::<(Option<Tint>, Seq<char>)>::empty();
    lemma_visible_empty();
    lemma_visible_push(none, (Some(Tint::BrightWhite), chunk));
    lemma_visible_push(none.push((Some(Tint::BrightWhite), chunk)), (None::<Tint>, padding(chunk, width)));
    assert(mid =~= none.push((Some(Tint::BrightWhite), chunk)).push((None::<Tint>, padding(chunk, width))));
    assert(visible(mid) =~= chunk + padding(chunk, width));
    lemma_visible_push(none, (None::<Tint>, "\n"@));
    assert(nl =~= none.push((None::<Tint>, "\n"@)));
    assert(visible(nl) =~= "\n"@);
    assert(visible(line_pieces(chunk, width, prefix, suffix)) =~= visible(prefix) + chunk
        + padding(chunk, width) + visible(suffix) + "\n"@);
}

/// The visible text of a block is its lines, one after the other.
proof fn lemma_block_visible(
    chunks: Seq<Seq<char>>,
    width: nat,
    first: Seq<(Option<Tint>, Seq<char>)>,
    rest: Seq<(Option<Tint>, Seq<char>)>,
    suffix: Seq<(Option<Tint>, Seq<char>)>,
)
    ensures
        visible(block(chunks, width, first, rest, suffix)) == lines_text(
            block_lines(chunks, width, first, rest, suffix),
        ),
    decreases chunks.len(),
{
    if chunks.len() > 0 {
        let d = chunks.drop_last();
        lemma_block_visible(d, width, first, rest, suffix);
        let prefix = if chunks.len() == 1 {
            first
        } else {
            rest
        };
        lemma_visible_concat(
            block(d, width, first, rest, suffix),
            line_pieces(chunks.last(), width, prefix, suffix),
        );
        assert(block_lines(chunks, width, first, rest, suffix).drop_last() =~= block_lines(
            d,
            width,
            first,
            rest,
            suffix,
        ));
    } else {
        assert(block_lines(chunks, width, first, rest, suffix) =~= seq![]);
    }
}

/// Wrapped text is laid out one line per wrapped chunk. Where no chunk
/// exceeds the column budget, each line is padded with spaces up to the
/// budget before its suffix, so that where the first line's prefix is as
/// wide as the others', every line is equally wide.
pub proof fn lemma_wrapped_lines_align(
    chunks: Seq<Seq<char>>,
    width: nat,
    first: Seq<(Option<Tint>, Seq<char>)>,
    rest: Seq<(Option<Tint>, Seq<char>)>,
    suffix: Seq<(Option<Tint>, Seq<char>)>,
)
    requires
        forall|i: int| 0 <= i < chunks.len() ==> chunks[i].len() <= width,
        visible(first).len() == visible(rest).len(),
    ensures
        visible(block(chunks, width, first, rest, suffix)) == lines_text(
            block_lines(chunks, width, first, rest, suffix),
        ),
        block_lines(chunks, width, first, rest, suffix).len() == chunks.len(),
        forall|i: int|
            0 <= i < chunks.len() ==> {
                let line = #[trigger] block_lines(chunks, width, first, rest, suffix)[i];
                &&& line == visible(
                    if i == 0 {
                        first
                    } else {
                        rest
                    },
                ) + chunks[i] + spaces((width - chunks[i].len()) as nat) + visible(suffix)
                    + "\n"@
                &&& line.len() == visible(first).len() + width + visible(suffix).len() + 1
            },
{
    lemma_block_visible(chunks, width, first, rest, suffix);
    assert forall|i: int| 0 <= i < chunks.len() implies {
        let line = #[trigger] block_lines(chunks, width, first, rest, suffix)[i];
        &&& line == visible(
            if i == 0 {
                first
            } else {
                rest
            },
        ) + chunks[i] + spaces((width - chunks[i].len()) as nat) + visible(suffix) + "\n"@
        &&& line.len() == visible(first).len() + width + visible(suffix).len() + 1
    } by {
        let prefix = if i == 0 {
            first
        } else {
            rest
        };
        lemma_line_visible(chunks[i], width, prefix, suffix);
        if chunks[i].len() == width {
            assert(spaces((width - chunks[i].len()) as nat) =~= seq![]);
            assert(padding(chunks[i], width) =~= seq![]);
        }
        reveal_strlit("\n");
    }
}

/// A label in front of a block of wrapped text whose first line has no
/// prefix of its own acts as that first line's prefix.
proof fn lemma_label_leads_block(
    label: Seq<(Option<Tint>, Seq<char>)>,
    chunks: Seq<Seq<char>>,
    width: nat,
    rest: Seq<(Option<Tint>, Seq<char>)>,
    suffix: Seq<(Option<Tint>, Seq<char>)>,
)
    requires
        chunks.len() > 0,
    ensures
        label + block(chunks, width, seq![], rest, suffix) == block(
            chunks,
            width,
            label,
            rest,
            suffix,
        ),
    decreases chunks.len(),
{
    let d = chunks.drop_last();
    if chunks.len() == 1 {
        assert(d.len() == 0);
        assert(block(d, width, seq![], rest, suffix) == Seq::<(Option<Tint>, Seq<char>)>::empty());
        assert(block(d, width, label, rest, suffix) == Seq::<(Option<Tint>, Seq<char>)>::empty());
        assert(label + block(chunks, width, seq![], rest, suffix) =~= block(
            chunks,
            width,
            label,
            rest,
            suffix,
        ));
    } else {
        lemma_label_leads_block(label, d, width, rest, suffix);
        assert(label + block(chunks, width, seq![], rest, suffix) =~= block(
            chunks,
            width,
            label,
            rest,
            suffix,
        ));
    }
}

/// The head of the presentation is one line per wrapped chunk of the
/// description; where no chunk exceeds the column budget, every line is
/// the full width plus its line break, the description padded with spaces
/// under the label column.
pub proof fn lemma_head_lines_align(e: Error)
    requires
        wrapped(description_of(e), text_width()).len() > 0,
        forall|i: int|
            0 <= i < wrapped(description_of(e), text_width()).len() ==> #[trigger] wrapped(
                description_of(e),
                text_width(),
            )[i].len() <= text_width(),
    ensures
        ({
            let lines = block_lines(
                wrapped(description_of(e), text_width()),
                text_width(),
                head_label(e.kind),
                continuation(),
                seq![],
            );
            &&& visible(head_pieces(e)) == lines_text(lines)
            &&& lines.len() == wrapped(description_of(e), text_width()).len()
            &&& forall|i: int| 0 <= i < lines.len() ==> (#[trigger] lines[i]).len() == 81
        }),
{
    let chunks = wrapped(description_of(e), text_width());
    let label = head_label(e.kind);
    lemma_label_leads_block(label, chunks, text_width(), continuation(), seq![]);
    reveal_strlit("error(");
    reveal_strlit("):    ");
    reveal_strlit("usr");
    reveal_strlit("sys");
    reveal_strlit("│");
    let none = Seq::<(Option<Tint>, Seq<char>)>::empty();
    lemma_visible_empty();
    let l1 = none.push(label[0]);
    let l2 = l1.push(label[1]);
    lemma_visible_push(none, label[0]);
    lemma_visible_push(l1, label[1]);
    lemma_visible_push(l2, label[2]);
    assert(label =~= l2.push(label[2]));
    assert(visible(label).len() == 15);
    let cont = continuation();
    let c1 = none.push(cont[0]);
    lemma_visible_push(none, cont[0]);
    lemma_visible_push(c1, cont[1]);
    assert(cont =~= c1.push(cont[1]));
    assert(visible(cont).len() == 15);
    assert(visible(Seq::<(Option<Tint>, Seq<char>)>::empty()).len() == 0);
    lemma_wrapped_lines_align(chunks, text_width(), label, cont, seq![]);
}

} // verus!
