use vstd::prelude::*;

use crate::common::Direction;

verus! {

/// The identifier of the shared style block in a document.
pub const STYLE_ELEMENT_ID: &'static str = "skeleton-rs-style";

/// The keyframes of the pulse animation.
pub const PULSE_KEYFRAMES: &'static str = "
@keyframes skeleton-rs-pulse {
    0% { opacity: 1; }
    25% { opacity: 0.7; }
    50% { opacity: 0.4; }
    75% { opacity: 0.7; }
    100% { opacity: 1; }
}
";

/// Wave keyframes that move the gradient from left to right.
pub const WAVE_LEFT_TO_RIGHT: &'static str = "
@keyframes skeleton-rs-wave {
    0%   { background-position: 200% 0; }
    25%  { background-position: 100% 0; }
    50%  { background-position: 0% 0; }
    75%  { background-position: -100% 0; }
    100% { background-position: -200% 0; }
}
";

/// Wave keyframes that move the gradient from right to left.
pub const WAVE_RIGHT_TO_LEFT: &'static str = "
@keyframes skeleton-rs-wave {
    0%   { background-position: -200% 0; }
    25%  { background-position: -100% 0; }
    50%  { background-position: 0% 0; }
    75%  { background-position: 100% 0; }
    100% { background-position: 200% 0; }
}
";

/// Wave keyframes that move the gradient from top to bottom.
pub const WAVE_TOP_TO_BOTTOM: &'static str = "
@keyframes skeleton-rs-wave {
    0%   { background-position: 0 -200%; }
    25%  { background-position: 0 -100%; }
    50%  { background-position: 0 0%; }
    75%  { background-position: 0 100%; }
    100% { background-position: 0 200%; }
}
";

/// Wave keyframes that move the gradient from bottom to top.
pub const WAVE_BOTTOM_TO_TOP: &'static str = "
@keyframes skeleton-rs-wave {
    0%   { background-position: 0 200%; }
    25%  { background-position: 0 100%; }
    50%  { background-position: 0 0%; }
    75%  { background-position: 0 -100%; }
    100% { background-position: 0 -200%; }
}
";

/// The rules behind the hover, focus and active class hooks.
pub const PSEUDO_CLASS_RULES: &'static str = "
.skeleton-hover:hover {
    filter: brightness(0.95);
}
.skeleton-focus:focus {
    outline: 2px solid #999;
}
.skeleton-active:active {
    transform: scale(0.98);
}
";

/// The wave keyframes for direction `d`; a custom angle moves left to right.
pub open spec fn wave_keyframes_of(d: Direction) -> Seq<char> {
    match d {
        Direction::LeftToRight => WAVE_LEFT_TO_RIGHT@,
        Direction::RightToLeft => WAVE_RIGHT_TO_LEFT@,
        Direction::TopToBottom => WAVE_TOP_TO_BOTTOM@,
        Direction::BottomToTop => WAVE_BOTTOM_TO_TOP@,
        Direction::CustomAngle(_) => WAVE_LEFT_TO_RIGHT@,
    }
}

/// The text of the shared style block when it is created for direction `d`.
pub open spec fn stylesheet_css(d: Direction) -> Seq<char> {
    PULSE_KEYFRAMES@ + wave_keyframes_of(d) + PSEUDO_CLASS_RULES@
}

/// Selects the wave keyframes for a direction.
pub fn wave_keyframes(d: &Direction) -> (r: &'static str)
    ensures
        r@ == wave_keyframes_of(*d),
{
    match d {
        Direction::LeftToRight => WAVE_LEFT_TO_RIGHT,
        Direction::RightToLeft => WAVE_RIGHT_TO_LEFT,
        Direction::TopToBottom => WAVE_TOP_TO_BOTTOM,
        Direction::BottomToTop => WAVE_BOTTOM_TO_TOP,
        Direction::CustomAngle(_) => WAVE_LEFT_TO_RIGHT,
    }
}

/// Builds the text of the shared style block for direction `d`.
pub fn global_stylesheet(d: &Direction) -> (r: String)
    ensures
        r@ == stylesheet_css(*d),
{
    let mut css = String::from_str(PULSE_KEYFRAMES);
    css.append(wave_keyframes(d));
    css.append(PSEUDO_CLASS_RULES);
    css
}

/// Decides what to add to a document: the shared style block's text when
/// the document does not hold it yet, nothing when it does.
pub fn injection_for(already_present: bool, d: &Direction) -> (r: Option<String>)
    ensures
        already_present <==> r.is_none(),
        r matches Some(css) ==> css@ == stylesheet_css(*d),
{
    if already_present {
        None
    } else {
        Some(global_stylesheet(d))
    }
}

} // verus!

verus! {

/// A style element of a document: its identifier and its text.
#[derive(Clone, Debug)]
pub struct StyleBlock {
    pub id: String,
    pub css: String,
}

/// The style blocks of a document's head, in the order they were appended.
///
/// This is the document state that the injector reads and writes; a host
/// mirrors it into the real document.
#[derive(Clone, Debug)]
pub struct DocumentHead {
    pub blocks: Vec<StyleBlock>,
}

/// What a style block stands for: its identifier and its text.
pub open spec fn block_view(b: StyleBlock) -> (Seq<char>, Seq<char>) {
    (b.id@, b.css@)
}

impl View for DocumentHead {
    type V = Seq<(Seq<char>, Seq<char>)>;

    open spec fn view(&self) -> Seq<(Seq<char>, Seq<char>)> {
        self.blocks@.map_values(|b: StyleBlock| block_view(b))
    }
}

/// How many blocks of `h` carry identifier `id`.
pub open spec fn count_id(h: Seq<(Seq<char>, Seq<char>)>, id: Seq<char>) -> nat
    decreases h.len(),
{
    if h.len() == 0 {
        0
    } else {
        count_id(h.drop_last(), id) + if h.last().0 == id {
            1nat
        } else {
            0nat
        }
    }
}

/// The head `h` after one request for the shared style block, made by an
/// instance whose wave travels in direction `d`.
pub open spec fn injected(h: Seq<(Seq<char>, Seq<char>)>, d: Direction) -> Seq<
    (Seq<char>, Seq<char>),
> {
    if count_id(h, STYLE_ELEMENT_ID@) > 0 {
        h
    } else {
        h.push((STYLE_ELEMENT_ID@, stylesheet_css(d)))
    }
}

/// The head `h` after one request per entry of `ds`, in order.
pub open spec fn injected_all(h: Seq<(Seq<char>, Seq<char>)>, ds: Seq<Direction>) -> Seq<
    (Seq<char>, Seq<char>),
>
    decreases ds.len(),
{
    if ds.len() == 0 {
        h
    } else {
        injected_all(injected(h, ds[0]), ds.drop_first())
    }
}

impl DocumentHead {
    /// A head with no style blocks.
    pub fn new() -> (r: Self)
        ensures
            r@ == Seq::<(Seq<char>, Seq<char>)>::empty(),
    {
        let r = DocumentHead { blocks: Vec::new() };
        assert(r@ =~= Seq::<(Seq<char>, Seq<char>)>::empty());
        r
    }

    /// Whether some block carries identifier `id`.
    pub fn has_block(&self, id: &str) -> (r: bool)
        ensures
            r == (count_id(self@, id@) > 0),
    {
        let target = String::from_str(id);
        let mut found = false;
        let mut i: usize = 0;
        while i < self.blocks.len()
            invariant
                i <= self.blocks.len(),
                target@ == id@,
                found == (count_id(self@.subrange(0, i as int), id@) > 0),
            decreases self.blocks.len() - i,
        {
            let same = self.blocks[i].id == target;
            proof {
                let prefix = self@.subrange(0, i as int + 1);
                assert(prefix.drop_last() =~= self@.subrange(0, i as int));
                assert(prefix.last() == block_view(self.blocks@[i as int]));
            }
            found = found || same;
            i = i + 1;
        }
        assert(self@.subrange(0, i as int) =~= self@);
        found
    }

    /// Appends the shared style block unless the head holds it already.
    pub fn ensure_global_styles_injected(&mut self, d: &Direction)
        ensures
            final(self)@ == injected(old(self)@, *d),
    {
        let present = self.has_block(STYLE_ELEMENT_ID);
        if let Some(css) = injection_for(present, d) {
            let block = StyleBlock { id: String::from_str(STYLE_ELEMENT_ID), css };
            self.blocks.push(block);
            assert(final(self)@ =~= old(self)@.push((STYLE_ELEMENT_ID@, stylesheet_css(*d))));
        }
    }
}

proof fn lemma_count_push(h: Seq<(Seq<char>, Seq<char>)>, b: (Seq<char>, Seq<char>), id: Seq<char>)
    ensures
        count_id(h.push(b), id) == count_id(h, id) + if b.0 == id {
            1nat
        } else {
            0nat
        },
{
    assert(h.push(b).drop_last() =~= h);
}

/// However many instances ask for the shared style block, and whatever
/// their directions, a document that held at most one such block holds
/// exactly one afterwards, and every request after the first changes nothing.
pub proof fn lemma_injection_idempotent(h: Seq<(Seq<char>, Seq<char>)>, ds: Seq<Direction>)
    requires
        ds.len() >= 1,
        count_id(h, STYLE_ELEMENT_ID@) <= 1,
    ensures
        count_id(injected_all(h, ds), STYLE_ELEMENT_ID@) == 1,
        injected_all(h, ds) == injected(h, ds[0]),
    decreases ds.len(),
{
    let id = STYLE_ELEMENT_ID@;
    let once = injected(h, ds[0]);
    if count_id(h, id) == 0 {
        lemma_count_push(h, (id, stylesheet_css(ds[0])), id);
    }
    assert(count_id(once, id) == 1);
    if ds.len() > 1 {
        lemma_injection_idempotent(once, ds.drop_first());
        assert(injected(once, ds.drop_first()[0]) == once);
    } else {
        assert(injected_all(once, ds.drop_first()) == once);
    }
    assert(injected_all(h, ds) == injected_all(once, ds.drop_first()));
}

} // verus!
