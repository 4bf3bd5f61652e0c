use vstd::prelude::*;
use crate::kind::{hero_text, Kind};

verus! {

/// The value an [Error] wraps: either another error of this library, or an
/// opaque error known by its display text, which may itself have a deeper
/// cause.
#[derive(Debug)]
pub enum Cause {
    /// An error of this library.
    Node(Box<Error>),
    /// An error of any other kind: its display text and its own cause, if any.
    Text { message: String, inner: Option<Box<Cause>> },
}

/// The fundamental error type used by this library.
///
/// An error which records whether it is the result of something the user did
/// or of a system failure outside their control. It holds the value it wraps,
/// which gives its description and leads to the chain of causes behind it,
/// and the advice attached to this error alone.
#[derive(Debug)]
pub struct Error {
    pub kind: Kind,
    pub error: Cause,
    pub advice: Vec<String>,
}

/// The text of each item of a list of strings.
pub open spec fn strs_view(s: Seq<&str>) -> Seq<Seq<char>> {
    s.map_values(|x: &str| x@)
}

/// The text of each item of a list of owned strings.
pub open spec fn strings_view(s: Seq<String>) -> Seq<Seq<char>> {
    s.map_values(|x: String| x@)
}

/// The description of an error: the display text of what it wraps, or, where
/// it wraps another error of this library, that error's description.
pub open spec fn description_of(e: Error) -> Seq<char>
    decreases e,
{
    match e.error {
        Cause::Node(inner) => description_of(*inner),
        Cause::Text { message, .. } => message@,
    }
}

/// What `source` returns for a wrapped value: an error of this library
/// passes the question on to what it wraps.
pub open spec fn source_of(c: Cause) -> Option<Cause>
    decreases c,
{
    match c {
        Cause::Node(e) => source_of(e.error),
        Cause::Text { inner, .. } => match inner {
            Some(d) => Some(*d),
            None => None,
        },
    }
}

/// The causes reached by repeated `source` lookups from `c`, nearest first.
pub open spec fn chain(c: Cause) -> Seq<Cause>
    decreases c,
{
    match c {
        Cause::Node(e) => chain(e.error),
        Cause::Text { inner, .. } => match inner {
            Some(d) => seq![*d] + chain(*d),
            None => seq![],
        },
    }
}

/// A cursor over a chain together with everything after it.
pub open spec fn chain_from(c: Option<Cause>) -> Seq<Cause> {
    match c {
        Some(d) => seq![d] + chain(d),
        None => seq![],
    }
}

/// How a cause reads in a list of causes: its description if it is an
/// error of this library, else its display text.
pub open spec fn cause_label(c: Cause) -> Seq<char> {
    match c {
        Cause::Node(e) => description_of(*e),
        Cause::Text { message, .. } => message@,
    }
}

/// The descriptions of the causes behind an error, the immediate cause first.
pub open spec fn causes_of(e: Error) -> Seq<Seq<char>> {
    chain(e.error).map_values(|c: Cause| cause_label(c))
}

/// The advice a value contributes at its own place in a chain: an error of
/// this library gives the advice attached to it, any other value none.
pub open spec fn own_advice(c: Cause) -> Seq<Seq<char>> {
    match c {
        Cause::Node(e) => strings_view(e.advice@),
        Cause::Text { .. } => seq![],
    }
}

/// The advice of every value in a sequence, in order.
pub open spec fn advice_along(cs: Seq<Cause>) -> Seq<Seq<char>>
    decreases cs.len(),
{
    if cs.len() == 0 {
        seq![]
    } else {
        advice_along(cs.drop_last()) + own_advice(cs.last())
    }
}

/// The advice gathered from an error and every value reached from it, in
/// the order of the walk: the error's own advice, then that of the value it
/// wraps, then that of each cause, nearest first.
pub open spec fn gathered_advice(e: Error) -> Seq<Seq<char>> {
    strings_view(e.advice@) + advice_along(chain_from(Some(e.error)))
}

/// A list with every repeated item removed after its first occurrence.
pub open spec fn dedup(s: Seq<Seq<char>>) -> Seq<Seq<char>>
    decreases s.len(),
{
    if s.len() == 0 {
        seq![]
    } else if s.drop_last().contains(s.last()) {
        dedup(s.drop_last())
    } else {
        dedup(s.drop_last()).push(s.last())
    }
}

/// The advice of an error and its causes: deepest first, each item once.
pub open spec fn advice_of(e: Error) -> Seq<Seq<char>> {
    dedup(gathered_advice(e).reverse())
}

/// The items of a list joined by the bullet separator.
pub open spec fn joined(items: Seq<Seq<char>>) -> Seq<char>
    decreases items.len(),
{
    if items.len() == 0 {
        seq![]
    } else if items.len() == 1 {
        items[0]
    } else {
        joined(items.drop_last()) + "\n - "@ + items.last()
    }
}

/// A titled section of a message, or nothing where the list is empty.
pub open spec fn section(heading: Seq<char>, items: Seq<Seq<char>>) -> Seq<char> {
    if items.len() == 0 {
        seq![]
    } else {
        heading + joined(items)
    }
}

/// The plain message of an error: its hero line, then its causes, then its
/// advice, each section after a blank line.
pub open spec fn message_of(e: Error) -> Seq<char> {
    hero_text(e.kind, description_of(e)) + section("\n\nThis was caused by:\n - "@, causes_of(e))
        + section("\n\nTo try and fix this, you can:\n - "@, advice_of(e))
}

/// A value that can be wrapped by an [Error].
///
/// `converts_to` says which [Cause] a value becomes, so that the contracts
/// of the constructors can say what an error wraps.
pub trait IntoCause: Sized {
    /// Whether `c` is what this value becomes when wrapped.
    spec fn converts_to(&self, c: Cause) -> bool;

    /// Turns this value into the cause an error wraps.
    fn into_cause(self) -> (c: Cause)
        ensures
            self.converts_to(c),
    ;
}

/// Whether `c` is an opaque error with the display text `text` and no
/// deeper cause.
pub open spec fn is_plain_text(c: Cause, text: Seq<char>) -> bool {
    c matches Cause::Text { message, inner } && message@ == text && inner is None
}

impl IntoCause for &str {
    open spec fn converts_to(&self, c: Cause) -> bool {
        is_plain_text(c, self@)
    }

    fn into_cause(self) -> (c: Cause) {
        Cause::Text { message: String::from_str(self), inner: None }
    }
}

impl IntoCause for String {
    open spec fn converts_to(&self, c: Cause) -> bool {
        is_plain_text(c, self@)
    }

    fn into_cause(self) -> (c: Cause) {
        Cause::Text { message: self, inner: None }
    }
}

impl IntoCause for Cause {
    open spec fn converts_to(&self, c: Cause) -> bool {
        c == *self
    }

    fn into_cause(self) -> (c: Cause) {
        self
    }
}

impl IntoCause for Error {
    open spec fn converts_to(&self, c: Cause) -> bool {
        c == Cause::Node(Box::new(*self))
    }

    fn into_cause(self) -> (c: Cause) {
        Cause::Node(Box::new(self))
    }
}

/// An optional reference to a cause, seen as an optional cause.
pub open spec fn opt_cause(c: Option<&Cause>) -> Option<Cause> {
    match c {
        Some(d) => Some(*d),
        None => None,
    }
}

/// The chain after a value is the chain starting at its `source`.
pub proof fn lemma_chain_steps(c: Cause)
    ensures
        chain(c) == chain_from(source_of(c)),
    decreases c,
{
    match c {
        Cause::Node(e) => lemma_chain_steps(e.error),
        Cause::Text { .. } => {},
    }
}

/// Copies a list of strings into owned strings.
fn owned_strings(items: &[&str]) -> (r: Vec<String>)
    ensures
        strings_view(r@) == strs_view(items@),
{
    let mut r: Vec<String> = Vec::new();
    let mut i: usize = 0;
    while i < items.len()
        invariant
            i <= items@.len(),
            strings_view(r@) == strs_view(items@.subrange(0, i as int)),
        decreases items@.len() - i,
    {
        r.push(String::from_str(items[i]));
        i = i + 1;
        assert(strs_view(items@.subrange(0, i as int)) =~= strs_view(
            items@.subrange(0, i - 1 as int),
        ).push(items@[i - 1]@));
        assert(strings_view(r@) =~= strings_view(r@.drop_last()).push(r@.last()@));
    }
    assert(items@.subrange(0, i as int) =~= items@);
    r
}

/// Copies a list of owned strings.
fn clone_strings(items: &Vec<String>) -> (r: Vec<String>)
    ensures
        strings_view(r@) == strings_view(items@),
{
    let mut r: Vec<String> = Vec::new();
    let mut i: usize = 0;
    while i < items.len()
        invariant
            i <= items@.len(),
            strings_view(r@) == strings_view(items@.subrange(0, i as int)),
        decreases items@.len() - i,
    {
        r.push(items[i].clone());
        i = i + 1;
        assert(strings_view(items@.subrange(0, i as int)) =~= strings_view(
            items@.subrange(0, i - 1 as int),
        ).push(items@[i - 1]@));
        assert(strings_view(r@) =~= strings_view(r@.drop_last()).push(r@.last()@));
    }
    assert(items@.subrange(0, i as int) =~= items@);
    r
}

/// The value that `source` gives for a wrapped value.
pub(crate) fn source_step(c: &Cause) -> (r: Option<&Cause>)
    ensures
        opt_cause(r) == source_of(*c),
    decreases c,
{
    match c {
        Cause::Node(e) => source_step(&e.error),
        Cause::Text { inner, .. } => match inner {
            Some(d) => Some(&**d),
            None => None,
        },
    }
}

/// How a cause reads in a list of causes.
pub(crate) fn label(c: &Cause) -> (r: String)
    ensures
        r@ == cause_label(*c),
{
    match c {
        Cause::Node(e) => e.description(),
        Cause::Text { message, .. } => message.clone(),
    }
}

/// The advice along two sequences put one after the other.
pub proof fn lemma_advice_along_concat(a: Seq<Cause>, b: Seq<Cause>)
    ensures
        advice_along(a + b) == advice_along(a) + advice_along(b),
    decreases b.len(),
{
    if b.len() == 0 {
        assert(a + b =~= a);
        assert(advice_along(a) + seq![] =~= advice_along(a));
    } else {
        lemma_advice_along_concat(a, b.drop_last());
        assert((a + b).drop_last() =~= a + b.drop_last());
        assert((a + b).last() == b.last());
        assert(advice_along(a) + advice_along(b.drop_last()) + own_advice(b.last())
            =~= advice_along(a) + (advice_along(b.drop_last()) + own_advice(b.last())));
    }
}

/// An item occurs in the list without repeats exactly where it occurs in the list.
pub proof fn lemma_dedup_contains(s: Seq<Seq<char>>, x: Seq<char>)
    ensures
        dedup(s).contains(x) == s.contains(x),
    decreases s.len(),
{
    if s.len() > 0 {
        lemma_dedup_contains(s.drop_last(), x);
        assert(s =~= s.drop_last().push(s.last()));
        if s.drop_last().contains(s.last()) {
            if x == s.last() {
                assert(s.contains(x));
            }
        } else {
            let d = dedup(s.drop_last());
            if x == s.last() {
                assert(d.push(x)[d.len() as int] == x);
            }
            if d.push(s.last()).contains(x) && x != s.last() {
                let j = choose|j: int| 0 <= j < d.len() + 1 && d.push(s.last())[j] == x;
                assert(d[j] == x);
            }
            if d.contains(x) {
                let j = choose|j: int| 0 <= j < d.len() && d[j] == x;
                assert(d.push(s.last())[j] == x);
            }
        }
        if s.drop_last().contains(x) {
            let j = choose|j: int| 0 <= j < s.len() - 1 && s.drop_last()[j] == x;
            assert(s[j] == x);
        }
        if s.contains(x) && x != s.last() {
            let j = choose|j: int| 0 <= j < s.len() && s[j] == x;
            assert(s.drop_last()[j] == x);
        }
    }
}

/// Appends copies of `src` to `dst`.
fn append_strings(dst: &mut Vec<String>, src: &Vec<String>)
    ensures
        strings_view(final(dst)@) == strings_view(old(dst)@) + strings_view(src@),
{
    let ghost start = strings_view(dst@);
    let mut i: usize = 0;
    while i < src.len()
        invariant
            i <= src@.len(),
            strings_view(dst@) == start + strings_view(src@.subrange(0, i as int)),
        decreases src@.len() - i,
    {
        let ghost prev = dst@;
        dst.push(src[i].clone());
        i = i + 1;
        assert(strings_view(src@.subrange(0, i as int)) =~= strings_view(
            src@.subrange(0, i - 1 as int),
        ).push(src@[i - 1]@));
        assert(dst@.drop_last() == prev);
        assert(strings_view(dst@) =~= strings_view(prev).push(dst@.last()@));
        assert(start + strings_view(src@.subrange(0, i as int)) =~= (start + strings_view(
            src@.subrange(0, i - 1 as int),
        )).push(src@[i - 1]@));
    }
    assert(src@.subrange(0, i as int) =~= src@);
}

/// Whether `item` is one of `items`.
fn contains_string(items: &Vec<String>, item: &String) -> (r: bool)
    ensures
        r == strings_view(items@).contains(item@),
{
    let mut i: usize = 0;
    while i < items.len()
        invariant
            i <= items@.len(),
            forall|j: int| 0 <= j < i ==> items@[j]@ != item@,
        decreases items@.len() - i,
    {
        if items[i].eq(item) {
            assert(strings_view(items@)[i as int] == item@);
            return true;
        }
        i = i + 1;
    }
    assert(!strings_view(items@).contains(item@)) by {
        if strings_view(items@).contains(item@) {
            let j = choose|j: int|
                0 <= j < strings_view(items@).len() && strings_view(items@)[j] == item@;
            assert(items@[j]@ == item@);
        }
    }
    false
}

/// The walk's advice in reverse, each item kept at its first occurrence.
fn reverse_dedup(items: &Vec<String>) -> (r: Vec<String>)
    ensures
        strings_view(r@) == dedup(strings_view(items@).reverse()),
{
    let ghost rev = strings_view(items@).reverse();
    let mut r: Vec<String> = Vec::new();
    let mut i: usize = items.len();
    while i > 0
        invariant
            i <= items@.len(),
            rev == strings_view(items@).reverse(),
            strings_view(r@) == dedup(rev.subrange(0, items@.len() - i)),
        decreases i,
    {
        i = i - 1;
        let ghost k = items@.len() - i;
        let ghost prefix = rev.subrange(0, k);
        assert(prefix.drop_last() =~= rev.subrange(0, k - 1));
        assert(prefix.last() == items@[i as int]@);
        proof {
            lemma_dedup_contains(prefix.drop_last(), items@[i as int]@);
        }
        if !contains_string(&r, &items[i]) {
            r.push(items[i].clone());
            assert(strings_view(r@) =~= strings_view(r@.drop_last()).push(r@.last()@));
        }
    }
    assert(rev.subrange(0, items@.len() as int) =~= rev);
    r
}

/// Appends the items of a list to `out`, joined by the bullet separator.
fn push_joined(out: &mut String, items: &Vec<String>)
    ensures
        final(out)@ == old(out)@ + joined(strings_view(items@)),
{
    let ghost start = out@;
    let mut i: usize = 0;
    while i < items.len()
        invariant
            i <= items@.len(),
            out@ == start + joined(strings_view(items@.subrange(0, i as int))),
        decreases items@.len() - i,
    {
        let ghost before = strings_view(items@.subrange(0, i as int));
        if i > 0 {
            out.append("\n - ");
        }
        out.append(items[i].as_str());
        i = i + 1;
        proof {
            let now = strings_view(items@.subrange(0, i as int));
            assert(now.drop_last() =~= before);
            assert(now.last() == items@[i - 1]@);
            if i == 1 {
                assert(joined(before) =~= seq![]);
                assert(out@ =~= start + joined(now));
            } else {
                assert(out@ =~= start + joined(now));
            }
        }
    }
    assert(items@.subrange(0, i as int) =~= items@);
}

impl Error {
    /// Constructs a new [Error] of the given kind, wrapping `error` and
    /// carrying `advice`.
    pub fn new<E: IntoCause>(error: E, kind: Kind, advice: &[&str]) -> (r: Error)
        ensures
            error.converts_to(r.error),
            r.kind == kind,
            strings_view(r.advice@) == strs_view(advice@),
    {
        Error { kind, error: error.into_cause(), advice: owned_strings(advice) }
    }

    /// Checks if this error is of a specific kind.
    pub fn is(&self, kind: Kind) -> (r: bool)
        ensures
            r == (self.kind == kind),
    {
        self.kind == kind
    }

    /// Gets the description of this error: the display text of what it
    /// wraps, or the description of the error of this library it wraps.
    pub fn description(&self) -> (r: String)
        ensures
            r@ == description_of(*self),
        decreases self,
    {
        match &self.error {
            Cause::Node(inner) => inner.description(),
            Cause::Text { message, .. } => message.clone(),
        }
    }

    /// Gets the cause of this error: the cause of the value it wraps.
    pub fn source(&self) -> (r: Option<&Cause>)
        ensures
            opt_cause(r) == source_of(self.error),
    {
        source_step(&self.error)
    }

    /// Gets the descriptions of the causes of this error, the immediate
    /// cause first and the deepest last.
    pub fn caused_by(&self) -> (r: Vec<String>)
        ensures
            strings_view(r@) == causes_of(*self),
    {
        let mut causes: Vec<String> = Vec::new();
        let mut cursor = source_step(&self.error);
        proof {
            lemma_chain_steps(self.error);
        }
        loop
            invariant
                strings_view(causes@) + chain_from(opt_cause(cursor)).map_values(
                    |c: Cause| cause_label(c),
                ) == causes_of(*self),
            ensures
                strings_view(causes@) == causes_of(*self),
            decreases chain_from(opt_cause(cursor)).len(),
        {
            match cursor {
                None => {
                    assert(chain_from(opt_cause(cursor)).map_values(|c: Cause| cause_label(c))
                        =~= seq![]);
                    assert(strings_view(causes@) + seq![] =~= strings_view(causes@));
                    break;
                },
                Some(c) => {
                    let ghost before = chain_from(opt_cause(cursor));
                    causes.push(label(c));
                    cursor = source_step(c);
                    proof {
                        lemma_chain_steps(*c);
                        assert(before =~= seq![*c] + chain_from(opt_cause(cursor)));
                        assert(strings_view(causes@) =~= strings_view(causes@.drop_last()).push(
                            cause_label(*c),
                        ));
                        assert(before.map_values(|d: Cause| cause_label(d)) =~= seq![cause_label(*c)]
                            + chain_from(opt_cause(cursor)).map_values(|d: Cause| cause_label(d)));
                    }
                },
            }
        }
        causes
    }

    /// Gets the advice of this error and of every error of this library in
    /// its chain of causes: the deepest error's advice first, this error's
    /// own advice last, and each distinct item once, where it first occurs
    /// in that order.
    pub fn advice(&self) -> (r: Vec<String>)
        ensures
            strings_view(r@) == advice_of(*self),
    {
        let mut walked = clone_strings(&self.advice);
        let mut cursor: Option<&Cause> = Some(&self.error);
        loop
            invariant
                strings_view(walked@) + advice_along(chain_from(opt_cause(cursor)))
                    == gathered_advice(*self),
            ensures
                strings_view(walked@) == gathered_advice(*self),
            decreases chain_from(opt_cause(cursor)).len(),
        {
            match cursor {
                None => {
                    assert(strings_view(walked@) + seq![] =~= strings_view(walked@));
                    break;
                },
                Some(c) => {
                    let ghost before = strings_view(walked@);
                    if let Cause::Node(e) = c {
                        append_strings(&mut walked, &e.advice);
                    }
                    assert(strings_view(walked@) == before + own_advice(*c));
                    cursor = source_step(c);
                    proof {
                        lemma_chain_steps(*c);
                        let rest = chain_from(opt_cause(cursor));
                        lemma_advice_along_concat(seq![*c], rest);
                        assert(seq![*c].drop_last() =~= Seq::<Cause>::empty());
                        assert(advice_along(Seq::<Cause>::empty()) == Seq::<Seq<char>>::empty());
                        assert(advice_along(seq![*c]) =~= own_advice(*c));
                        assert(before + (own_advice(*c) + advice_along(rest)) =~= before
                            + own_advice(*c) + advice_along(rest));
                    }
                },
            }
        }
        reverse_dedup(&walked)
    }

    /// Gets the plain message of this error: the hero line, then, after a
    /// blank line, the causes of this error, then, after a blank line, its
    /// advice. A section whose list is empty is left out.
    pub fn message(&self) -> (r: String)
        ensures
            r@ == message_of(*self),
    {
        let description = self.description();
        let mut r = self.kind.format_description(description.as_str());
        let causes = self.caused_by();
        if causes.len() > 0 {
            r.append("\n\nThis was caused by:\n - ");
            push_joined(&mut r, &causes);
        }
        let advice = self.advice();
        if advice.len() > 0 {
            r.append("\n\nTo try and fix this, you can:\n - ");
            push_joined(&mut r, &advice);
        }
        proof {
            if causes@.len() == 0 {
                assert(causes_of(*self).len() == 0);
            }
            if advice@.len() == 0 {
                assert(advice_of(*self).len() == 0);
            }
            assert(r@ =~= message_of(*self));
        }
        r
    }
}

} // verus!
