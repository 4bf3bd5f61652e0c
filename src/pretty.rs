use vstd::prelude::*;
use crate::error::{
    advice_of, cause_label, chain, chain_from, description_of, label, lemma_chain_steps, opt_cause,
    source_step, strings_view, Cause, Error,
};
use crate::kind::Kind;
use crate::outside::{paint, painted, round_glyphs, wrap_lines, wrapped, BoxGlyphs, Tint};

verus! {

/// The width, in columns, of the terminal presentation.
pub const WIDTH: usize = 80;

/// The width of the label column in front of the head and each cause.
pub const LABEL: usize = 15;

/// A run of text in the terminal presentation, with the colour it is
/// painted in, if any.
pub struct Piece {
    pub tint: Option<Tint>,
    pub text: String,
}

/// A piece as a colour and a text.
pub open spec fn piece_view(p: Piece) -> (Option<Tint>, Seq<char>) {
    (p.tint, p.text@)
}

/// Each piece of a list as a colour and a text.
pub open spec fn pieces_view(ps: Seq<Piece>) -> Seq<(Option<Tint>, Seq<char>)> {
    ps.map_values(|p: Piece| piece_view(p))
}

/// An unpainted piece.
pub open spec fn plain(text: Seq<char>) -> (Option<Tint>, Seq<char>) {
    (None, text)
}

/// A piece painted in `t`.
pub open spec fn tinted(t: Tint, text: Seq<char>) -> (Option<Tint>, Seq<char>) {
    (Some(t), text)
}

/// `n` spaces.
pub open spec fn spaces(n: nat) -> Seq<char> {
    Seq::new(n, |i: int| ' ')
}

/// `s` repeated `n` times.
pub open spec fn repeated(s: Seq<char>, n: nat) -> Seq<char>
    decreases n,
{
    if n == 0 {
        seq![]
    } else {
        repeated(s, (n - 1) as nat) + s
    }
}

/// The spaces that fill a wrapped line up to the column budget.
pub open spec fn padding(chunk: Seq<char>, width: nat) -> Seq<char> {
    if chunk.len() < width {
        spaces((width - chunk.len()) as nat)
    } else {
        seq![]
    }
}

/// One wrapped line: its prefix, the text, the padding, its suffix, and the
/// line break.
pub open spec fn line_pieces(
    chunk: Seq<char>,
    width: nat,
    prefix: Seq<(Option<Tint>, Seq<char>)>,
    suffix: Seq<(Option<Tint>, Seq<char>)>,
) -> Seq<(Option<Tint>, Seq<char>)> {
    prefix + seq![tinted(Tint::BrightWhite, chunk), plain(padding(chunk, width))] + suffix + seq![
        plain("\n"@),
    ]
}

/// Wrapped lines, the first after `first` and the others after `rest`,
/// each padded to `width` and followed by `suffix`.
pub open spec fn block(
    chunks: Seq<Seq<char>>,
    width: nat,
    first: Seq<(Option<Tint>, Seq<char>)>,
    rest: Seq<(Option<Tint>, Seq<char>)>,
    suffix: Seq<(Option<Tint>, Seq<char>)>,
) -> Seq<(Option<Tint>, Seq<char>)>
    decreases chunks.len(),
{
    if chunks.len() == 0 {
        seq![]
    } else {
        block(chunks.drop_last(), width, first, rest, suffix) + line_pieces(
            chunks.last(),
            width,
            if chunks.len() == 1 {
                first
            } else {
                rest
            },
            suffix,
        )
    }
}

/// The short tag of a kind.
pub open spec fn kind_label(kind: Kind) -> Seq<char> {
    match kind {
        Kind::User => "usr"@,
        Kind::System => "sys"@,
    }
}

/// The colour of a kind's tag.
pub open spec fn kind_tint(kind: Kind) -> Tint {
    match kind {
        Kind::User => Tint::Yellow,
        Kind::System => Tint::Red,
    }
}

/// The column budget of wrapped head and cause text.
pub open spec fn text_width() -> nat {
    (WIDTH - LABEL) as nat
}

/// What continuation lines under a label start with: the connector and
/// the indentation up to the text column.
pub open spec fn continuation() -> Seq<(Option<Tint>, Seq<char>)> {
    seq![tinted(Tint::BrightBlack, "│"@), plain(spaces((LABEL - 1) as nat))]
}

/// The label in front of the head line.
pub open spec fn head_label(kind: Kind) -> Seq<(Option<Tint>, Seq<char>)> {
    seq![plain("error("@), tinted(kind_tint(kind), kind_label(kind)), plain("):    "@)]
}

/// The head of the presentation: the kind's tag and the wrapped description.
pub open spec fn head_pieces(e: Error) -> Seq<(Option<Tint>, Seq<char>)> {
    head_label(e.kind) + block(
        wrapped(description_of(e), text_width()),
        text_width(),
        seq![],
        continuation(),
        seq![],
    )
}

/// The connector in front of a cause: a branch if more causes follow, an
/// end if it is the last.
pub open spec fn branch(last: bool) -> Seq<char> {
    if last {
        "╰─"@
    } else {
        "├─"@
    }
}

/// The label of a cause: with its kind for an error of this library.
pub open spec fn cause_head(c: Cause, last: bool) -> Seq<(Option<Tint>, Seq<char>)> {
    match c {
        Cause::Node(e) => seq![
            tinted(Tint::BrightBlack, branch(last)),
            plain(" cause("@),
            tinted(kind_tint(e.kind), kind_label(e.kind)),
            plain("): "@),
        ],
        Cause::Text { .. } => seq![
            tinted(Tint::BrightBlack, branch(last)),
            tinted(Tint::BrightBlack, "─────"@),
            plain(" cause: "@),
        ],
    }
}

/// One cause: a connector line, then its label and wrapped text.
pub open spec fn cause_pieces(c: Cause, last: bool) -> Seq<(Option<Tint>, Seq<char>)> {
    seq![tinted(Tint::BrightBlack, "│"@), plain("\n"@)] + cause_head(c, last) + block(
        wrapped(cause_label(c), text_width()),
        text_width(),
        seq![],
        continuation(),
        seq![],
    )
}

/// The causes of a chain, nearest first.
pub open spec fn causes_pieces(cs: Seq<Cause>) -> Seq<(Option<Tint>, Seq<char>)>
    decreases cs.len(),
{
    if cs.len() == 0 {
        seq![]
    } else {
        cause_pieces(cs[0], cs.len() == 1) + causes_pieces(cs.drop_first())
    }
}

/// A side of the advice box.
pub open spec fn side() -> Seq<(Option<Tint>, Seq<char>)> {
    seq![plain(seq!['│'])]
}

/// The column budget inside the advice box.
pub open spec fn box_inner() -> nat {
    (WIDTH - 2) as nat
}

/// The top border of the advice box, with its title.
pub open spec fn box_top() -> Seq<(Option<Tint>, Seq<char>)> {
    seq![
        plain(seq!['╭', '─'] + " "@),
        tinted(Tint::Blue, "Advice"@),
        plain(" "@ + repeated(seq!['─'], (WIDTH - 11) as nat) + seq!['╮']),
        plain("\n"@),
    ]
}

/// The bottom border of the advice box.
pub open spec fn box_bottom() -> Seq<(Option<Tint>, Seq<char>)> {
    seq![plain(seq!['╰'] + repeated(seq!['─'], box_inner()) + seq!['╯']), plain("\n"@)]
}

/// The advice items inside the box, each a bullet wrapped to the box.
pub open spec fn box_items(items: Seq<Seq<char>>) -> Seq<(Option<Tint>, Seq<char>)>
    decreases items.len(),
{
    if items.len() == 0 {
        seq![]
    } else {
        box_items(items.drop_last()) + block(
            wrapped(" • "@ + items.last(), box_inner()),
            box_inner(),
            side(),
            side(),
            side(),
        )
    }
}

/// The advice box, or nothing where there is no advice.
pub open spec fn advice_box(items: Seq<Seq<char>>) -> Seq<(Option<Tint>, Seq<char>)> {
    if items.len() == 0 {
        seq![]
    } else {
        seq![plain("\n"@)] + box_top() + box_items(items) + box_bottom()
    }
}

/// The terminal presentation of an error, as pieces.
pub open spec fn layout_of(e: Error) -> Seq<(Option<Tint>, Seq<char>)> {
    head_pieces(e) + causes_pieces(chain(e.error)) + advice_box(advice_of(e))
}

/// The text of a piece as it reaches the terminal.
pub open spec fn piece_out(out: Seq<char>, p: (Option<Tint>, Seq<char>)) -> bool {
    match p.0 {
        None => out == p.1,
        Some(t) => painted(out, t, p.1),
    }
}

/// Whether `out` is the pieces, each as it reaches the terminal, one after
/// the other.
pub open spec fn renders(out: Seq<char>, ps: Seq<(Option<Tint>, Seq<char>)>) -> bool
    decreases ps.len(),
{
    if ps.len() == 0 {
        out.len() == 0
    } else {
        exists|k: int|
            0 <= k <= out.len() && renders(out.subrange(0, k), ps.drop_last()) && piece_out(
                #[trigger] out.subrange(k, out.len() as int),
                ps.last(),
            )
    }
}

/// The text of the pieces with no colour at all.
pub open spec fn visible(ps: Seq<(Option<Tint>, Seq<char>)>) -> Seq<char>
    decreases ps.len(),
{
    if ps.len() == 0 {
        seq![]
    } else {
        visible(ps.drop_last()) + ps.last().1
    }
}

/// Appends one piece.
fn push_piece(out: &mut Vec<Piece>, tint: Option<Tint>, text: String)
    ensures
        pieces_view(final(out)@) == pieces_view(old(out)@).push((tint, text@)),
{
    let ghost prev = out@;
    let ghost t = text@;
    out.push(Piece { tint, text });
    assert(pieces_view(out@) =~= pieces_view(prev).push((tint, t)));
}

/// Appends one piece with the text of a literal.
fn push_str(out: &mut Vec<Piece>, tint: Option<Tint>, text: &str)
    ensures
        pieces_view(final(out)@) == pieces_view(old(out)@).push((tint, text@)),
{
    push_piece(out, tint, String::from_str(text));
}

/// Appends copies of a list of pieces.
fn copy_pieces(out: &mut Vec<Piece>, src: &Vec<Piece>)
    ensures
        pieces_view(final(out)@) == pieces_view(old(out)@) + pieces_view(src@),
{
    let ghost start = pieces_view(out@);
    let mut i: usize = 0;
    while i < src.len()
        invariant
            i <= src@.len(),
            pieces_view(out@) == start + pieces_view(src@.subrange(0, i as int)),
        decreases src@.len() - i,
    {
        push_piece(out, src[i].tint, src[i].text.clone());
        i = i + 1;
        assert(pieces_view(src@.subrange(0, i as int)) =~= pieces_view(
            src@.subrange(0, i - 1 as int),
        ).push(piece_view(src@[i - 1])));
        assert(start + pieces_view(src@.subrange(0, i as int)) =~= (start + pieces_view(
            src@.subrange(0, i - 1 as int),
        )).push(piece_view(src@[i - 1])));
    }
    assert(src@.subrange(0, i as int) =~= src@);
}

/// `n` spaces.
fn spaces_string(n: usize) -> (r: String)
    ensures
        r@ == spaces(n as nat),
{
    let mut r = String::new();
    let mut i: usize = 0;
    while i < n
        invariant
            i <= n,
            r@ == spaces(i as nat),
        decreases n - i,
    {
        r.append(" ");
        proof {
            reveal_strlit(" ");
        }
        i = i + 1;
        assert(r@ =~= spaces(i as nat));
    }
    r
}

/// `s` repeated `n` times.
fn repeat_string(s: &str, n: usize) -> (r: String)
    ensures
        r@ == repeated(s@, n as nat),
{
    let mut r = String::new();
    let mut i: usize = 0;
    while i < n
        invariant
            i <= n,
            r@ == repeated(s@, i as nat),
        decreases n - i,
    {
        r.append(s);
        i = i + 1;
    }
    r
}

/// Lays out lines of already wrapped text: the first after `first`, the
/// others after `rest`, each painted bright white, padded with spaces up to
/// `width` columns, followed by `suffix` and a line break.
pub fn block_pieces(
    chunks: &Vec<String>,
    width: usize,
    first: &Vec<Piece>,
    rest: &Vec<Piece>,
    suffix: &Vec<Piece>,
) -> (r: Vec<Piece>)
    ensures
        pieces_view(r@) == block(
            strings_view(chunks@),
            width as nat,
            pieces_view(first@),
            pieces_view(rest@),
            pieces_view(suffix@),
        ),
{
    let ghost all = strings_view(chunks@);
    let ghost f = pieces_view(first@);
    let ghost r = pieces_view(rest@);
    let ghost x = pieces_view(suffix@);
    let mut out: Vec<Piece> = Vec::new();
    let mut i: usize = 0;
    while i < chunks.len()
        invariant
            i <= chunks@.len(),
            all == strings_view(chunks@),
            f == pieces_view(first@),
            r == pieces_view(rest@),
            x == pieces_view(suffix@),
            pieces_view(out@) == block(all.subrange(0, i as int), width as nat, f, r, x),
        decreases chunks@.len() - i,
    {
        let ghost before = pieces_view(out@);
        if i == 0 {
            copy_pieces(&mut out, first);
        } else {
            copy_pieces(&mut out, rest);
        }
        let chunk = &chunks[i];
        push_piece(&mut out, Some(Tint::BrightWhite), chunk.clone());
        let n = chunk.as_str().unicode_len();
        let pad = if n < width {
            spaces_string(width - n)
        } else {
            String::new()
        };
        push_piece(&mut out, None, pad);
        copy_pieces(&mut out, suffix);
        push_str(&mut out, None, "\n");
        i = i + 1;
        proof {
            let now = all.subrange(0, i as int);
            assert(now.drop_last() =~= all.subrange(0, i - 1 as int));
            assert(now.last() == chunks@[i - 1]@);
            let prefix = if i == 1 {
                f
            } else {
                r
            };
            assert(pieces_view(out@) =~= before + line_pieces(now.last(), width as nat, prefix, x));
        }
    }
    assert(all.subrange(0, i as int) =~= all);
    out
}

/// Appends `text` wrapped to `width` columns, the first line after
/// `first`, the others after `rest`, each padded and followed by `suffix`.
fn push_block(
    out: &mut Vec<Piece>,
    text: &str,
    width: usize,
    first: &Vec<Piece>,
    rest: &Vec<Piece>,
    suffix: &Vec<Piece>,
)
    ensures
        pieces_view(final(out)@) == pieces_view(old(out)@) + block(
            wrapped(text@, width as nat),
            width as nat,
            pieces_view(first@),
            pieces_view(rest@),
            pieces_view(suffix@),
        ),
{
    let lines = wrap_lines(text, width);
    let pieces = block_pieces(&lines, width, first, rest, suffix);
    copy_pieces(out, &pieces);
}

/// The short tag of a kind.
fn kind_tag(kind: Kind) -> (r: String)
    ensures
        r@ == kind_label(kind),
{
    match kind {
        Kind::User => String::from_str("usr"),
        Kind::System => String::from_str("sys"),
    }
}

/// The colour of a kind's tag.
fn kind_colour(kind: Kind) -> (r: Tint)
    ensures
        r == kind_tint(kind),
{
    match kind {
        Kind::User => Tint::Yellow,
        Kind::System => Tint::Red,
    }
}

/// The pieces continuation lines under a label start with.
fn continuation_pieces() -> (r: Vec<Piece>)
    ensures
        pieces_view(r@) == continuation(),
{
    let mut r: Vec<Piece> = Vec::new();
    push_str(&mut r, Some(Tint::BrightBlack), "│");
    push_piece(&mut r, None, spaces_string(LABEL - 1));
    assert(pieces_view(r@) =~= continuation());
    r
}

/// Appends the head of the presentation.
fn push_head(out: &mut Vec<Piece>, e: &Error)
    ensures
        pieces_view(final(out)@) == pieces_view(old(out)@) + head_pieces(*e),
{
    let ghost start = pieces_view(out@);
    push_str(out, None, "error(");
    push_piece(out, Some(kind_colour(e.kind)), kind_tag(e.kind));
    push_str(out, None, "):    ");
    let ghost mid = pieces_view(out@);
    let description = e.description();
    let none: Vec<Piece> = Vec::new();
    let cont = continuation_pieces();
    push_block(out, description.as_str(), WIDTH - LABEL, &none, &cont, &none);
    assert(pieces_view(none@) =~= seq![]);
    assert(mid == start + head_label(e.kind));
    assert(pieces_view(out@) =~= start + head_pieces(*e));
}

/// Appends one cause.
fn push_cause(out: &mut Vec<Piece>, c: &Cause, last: bool)
    ensures
        pieces_view(final(out)@) == pieces_view(old(out)@) + cause_pieces(*c, last),
{
    let ghost start = pieces_view(out@);
    push_str(out, Some(Tint::BrightBlack), "│");
    push_str(out, None, "\n");
    let connector = if last {
        "╰─"
    } else {
        "├─"
    };
    push_str(out, Some(Tint::BrightBlack), connector);
    match c {
        Cause::Node(e) => {
            push_str(out, None, " cause(");
            push_piece(out, Some(kind_colour(e.kind)), kind_tag(e.kind));
            push_str(out, None, "): ");
        },
        Cause::Text { .. } => {
            push_str(out, Some(Tint::BrightBlack), "─────");
            push_str(out, None, " cause: ");
        },
    }
    assert(pieces_view(out@) =~= start + seq![tinted(Tint::BrightBlack, "│"@), plain("\n"@)]
        + cause_head(*c, last));
    let text = label(c);
    let none: Vec<Piece> = Vec::new();
    let cont = continuation_pieces();
    push_block(out, text.as_str(), WIDTH - LABEL, &none, &cont, &none);
    assert(pieces_view(none@) =~= seq![]);
    assert(pieces_view(out@) =~= start + cause_pieces(*c, last));
}

/// Appends every cause of an error, nearest first.
fn push_causes(out: &mut Vec<Piece>, e: &Error)
    ensures
        pieces_view(final(out)@) == pieces_view(old(out)@) + causes_pieces(chain(e.error)),
{
    let ghost start = pieces_view(out@);
    let mut cursor = source_step(&e.error);
    proof {
        lemma_chain_steps(e.error);
    }
    loop
        invariant
            pieces_view(out@) + causes_pieces(chain_from(opt_cause(cursor))) == start
                + causes_pieces(chain(e.error)),
        ensures
            pieces_view(out@) == start + causes_pieces(chain(e.error)),
        decreases chain_from(opt_cause(cursor)).len(),
    {
        match cursor {
            None => {
                assert(pieces_view(out@) + seq![] =~= pieces_view(out@));
                break;
            },
            Some(c) => {
                let ghost before = pieces_view(out@);
                let next = source_step(c);
                proof {
                    lemma_chain_steps(*c);
                }
                push_cause(out, c, next.is_none());
                proof {
                    let cs = chain_from(opt_cause(cursor));
                    assert(cs.drop_first() =~= chain(*c));
                    assert((cs.len() == 1) == next.is_none());
                    assert(causes_pieces(cs) == cause_pieces(*c, next.is_none()) + causes_pieces(
                        chain_from(opt_cause(next)),
                    ));
                    assert(before + causes_pieces(cs) =~= pieces_view(out@) + causes_pieces(
                        chain_from(opt_cause(next)),
                    ));
                }
                cursor = next;
            },
        }
    }
}

/// Appends the advice box, or nothing where there is no advice.
fn push_advice_box(out: &mut Vec<Piece>, items: &Vec<String>)
    ensures
        pieces_view(final(out)@) == pieces_view(old(out)@) + advice_box(strings_view(items@)),
{
    let ghost start = pieces_view(out@);
    if items.len() == 0 {
        assert(pieces_view(out@) + seq![] =~= pieces_view(out@));
        return;
    }
    let glyphs: BoxGlyphs = round_glyphs();
    push_str(out, None, "\n");
    let mut corner = glyphs.top_left.clone();
    corner.append(glyphs.top.as_str());
    corner.append(" ");
    assert(corner@ =~= seq!['╭', '─'] + " "@);
    push_piece(out, None, corner);
    push_str(out, Some(Tint::Blue), "Advice");
    let mut rule = String::from_str(" ");
    let line = repeat_string(glyphs.top.as_str(), WIDTH - 11);
    rule.append(line.as_str());
    rule.append(glyphs.top_right.as_str());
    assert(rule@ =~= " "@ + repeated(seq!['─'], (WIDTH - 11) as nat) + seq!['╮']);
    push_piece(out, None, rule);
    push_str(out, None, "\n");
    assert(pieces_view(out@) =~= start + seq![plain("\n"@)] + box_top());
    let ghost top = pieces_view(out@);
    let mut left: Vec<Piece> = Vec::new();
    push_piece(&mut left, None, glyphs.left.clone());
    let mut right: Vec<Piece> = Vec::new();
    push_piece(&mut right, None, glyphs.right.clone());
    assert(pieces_view(left@) =~= side());
    assert(pieces_view(right@) =~= side());
    let mut i: usize = 0;
    while i < items.len()
        invariant
            i <= items@.len(),
            pieces_view(left@) == side(),
            pieces_view(right@) == side(),
            pieces_view(out@) == top + box_items(strings_view(items@.subrange(0, i as int))),
        decreases items@.len() - i,
    {
        let mut bullet = String::from_str(" • ");
        bullet.append(items[i].as_str());
        push_block(out, bullet.as_str(), WIDTH - 2, &left, &left, &right);
        i = i + 1;
        proof {
            let now = strings_view(items@.subrange(0, i as int));
            assert(now.drop_last() =~= strings_view(items@.subrange(0, i - 1 as int)));
            assert(now.last() == items@[i - 1]@);
            assert(pieces_view(out@) =~= top + box_items(now));
        }
    }
    assert(items@.subrange(0, i as int) =~= items@);
    let mut bottom = glyphs.bottom_left.clone();
    let line = repeat_string(glyphs.bottom.as_str(), WIDTH - 2);
    bottom.append(line.as_str());
    bottom.append(glyphs.bottom_right.as_str());
    assert(bottom@ =~= seq!['╰'] + repeated(seq!['─'], box_inner()) + seq!['╯']);
    push_piece(out, None, bottom);
    push_str(out, None, "\n");
    assert(pieces_view(out@) =~= start + advice_box(strings_view(items@)));
}

/// Lays out the terminal presentation of an error as pieces: the head
/// line with the kind's tag and the wrapped description, each cause with a
/// connector, and the advice box where there is advice.
pub fn layout(e: &Error) -> (r: Vec<Piece>)
    ensures
        pieces_view(r@) == layout_of(*e),
{
    let mut out: Vec<Piece> = Vec::new();
    push_head(&mut out, e);
    push_causes(&mut out, e);
    let advice = e.advice();
    push_advice_box(&mut out, &advice);
    assert(pieces_view(out@) =~= layout_of(*e));
    out
}

/// Renders an error for a terminal: [layout]'s pieces, each painted in its
/// colour where the terminal takes colours, one after the other.
pub fn pretty(e: &Error) -> (r: String)
    ensures
        renders(r@, layout_of(*e)),
{
    let pieces = layout(e);
    let ghost ps = pieces_view(pieces@);
    let mut out = String::new();
    let mut i: usize = 0;
    while i < pieces.len()
        invariant
            i <= pieces@.len(),
            ps == pieces_view(pieces@),
            renders(out@, ps.subrange(0, i as int)),
        decreases pieces@.len() - i,
    {
        let ghost before = out@;
        let text = match pieces[i].tint {
            None => pieces[i].text.clone(),
            Some(t) => paint(pieces[i].text.as_str(), t),
        };
        out.append(text.as_str());
        i = i + 1;
        proof {
            let now = ps.subrange(0, i as int);
            let k = before.len() as int;
            assert(now.drop_last() =~= ps.subrange(0, i - 1 as int));
            assert(now.last() == ps[i - 1]);
            assert(out@.subrange(0, k) =~= before);
            assert(out@.subrange(k, out@.len() as int) =~= text@);
            assert(piece_out(out@.subrange(k, out@.len() as int), now.last()));
        }
    }
    assert(ps.subrange(0, i as int) =~= ps);
    out
}

} // verus!
