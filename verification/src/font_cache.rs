use vstd::prelude::*;

verus! {

/// A font handle created once and kept until it is released. Besides the
/// font, the cache keeps, as ghost state, the calls made on it since it was
/// made, so that what became of each font can be stated.
pub struct FontCache {
    font: Option<usize>,
    history: Ghost<Seq<FontCacheEvent>>,
}

/// The model of a font cache: the font held and the calls made on it.
pub struct FontCacheView {
    pub font: Option<usize>,
    pub history: Seq<FontCacheEvent>,
}

impl View for FontCache {
    type V = FontCacheView;

    closed spec fn view(&self) -> FontCacheView {
        FontCacheView { font: self.font, history: self.history@ }
    }
}

/// Each font stored into the cache so far has been handed out by one
/// `release`, in the order stored, or is the font it holds.
pub open spec fn fonts_accounted(v: FontCacheView) -> bool {
    stored_fonts(v.history) == released_fonts(v.history) + held_fonts(v.font)
}

impl FontCache {
    /// The font held is what the calls made leave behind, and each `store`
    /// found the cache empty.
    #[verifier::type_invariant]
    spec fn well_formed(self) -> bool {
        &&& self.font == cache_after(self.history@)
        &&& stores_into_empty(self.history@)
    }

    /// A cache holding no font, with no calls made on it.
    pub fn new() -> (cache: Self)
        ensures
            cache@.font is None,
            cache@.history == Seq::<FontCacheEvent>::empty(),
            fonts_accounted(cache@),
    {
        FontCache { font: None, history: Ghost(Seq::empty()) }
    }

    /// The font held, if any.
    pub fn cached(&self) -> (font: Option<usize>)
        ensures
            font == self@.font,
            fonts_accounted(self@),
    {
        proof {
            use_type_invariant(self);
            lemma_fonts_released_once(self.history@);
        }
        self.font
    }

    /// Keeps a newly created font. The cache must be empty, so that no font
    /// it holds is dropped without being released.
    pub fn store(&mut self, font: usize)
        requires
            old(self)@.font is None,
        ensures
            final(self)@.font == Some(font),
            final(self)@.history == old(self)@.history.push(FontCacheEvent::Store(font)),
            fonts_accounted(final(self)@),
    {
        proof {
            use_type_invariant(&*self);
        }
        let ghost events = self.history@.push(FontCacheEvent::Store(font));
        proof {
            lemma_stores_into_empty_push(self.history@, FontCacheEvent::Store(font));
            lemma_fonts_released_once(events);
        }
        *self = FontCache { font: Some(font), history: Ghost(events) };
    }

    /// Gives up the font held, which the caller then deletes; the cache is
    /// empty afterwards.
    pub fn release(&mut self) -> (font: Option<usize>)
        ensures
            font == old(self)@.font,
            final(self)@.font is None,
            final(self)@.history == old(self)@.history.push(FontCacheEvent::Release),
            fonts_accounted(final(self)@),
    {
        proof {
            use_type_invariant(&*self);
        }
        let font = self.font;
        let ghost events = self.history@.push(FontCacheEvent::Release);
        proof {
            lemma_stores_into_empty_push(self.history@, FontCacheEvent::Release);
            lemma_fonts_released_once(events);
        }
        *self = FontCache { font: None, history: Ghost(events) };
        font
    }
}

/// Adding a call to a series keeps every earlier `store` finding the cache
/// empty; the new call is a `store` only into an empty cache.
proof fn lemma_stores_into_empty_push(events: Seq<FontCacheEvent>, event: FontCacheEvent)
    requires
        stores_into_empty(events),
        event is Store ==> cache_after(events) is None,
    ensures
        stores_into_empty(events.push(event)),
{
    let after = events.push(event);
    assert forall|i: int|
        0 <= i < after.len() && (#[trigger] after[i]) is Store implies cache_after(
        after.take(i),
    ) is None by {
        if i < events.len() {
            assert(after.take(i) =~= events.take(i));
            assert(after[i] == events[i]);
        } else {
            assert(after.take(i) =~= events);
        }
    }
}

/// One call on a font cache: `store` of a font, or `release`.
pub enum FontCacheEvent {
    Store(usize),
    Release,
}

/// What a cache made by `new` holds after a series of calls.
pub open spec fn cache_after(events: Seq<FontCacheEvent>) -> Option<usize> {
    if events.len() == 0 {
        None
    } else {
        match events.last() {
            FontCacheEvent::Store(font) => Some(font),
            FontCacheEvent::Release => None,
        }
    }
}

/// Every `store` in a series of calls finds the cache empty, as `store` requires.
pub open spec fn stores_into_empty(events: Seq<FontCacheEvent>) -> bool {
    forall|i: int|
        0 <= i < events.len() && (#[trigger] events[i]) is Store ==> cache_after(events.take(i)) is None
}

/// The fonts a cache holds, as a sequence of zero or one.
pub open spec fn held_fonts(cache: Option<usize>) -> Seq<usize> {
    match cache {
        Some(font) => seq![font],
        None => Seq::empty(),
    }
}

/// The fonts stored by a series of calls, in order.
pub open spec fn stored_fonts(events: Seq<FontCacheEvent>) -> Seq<usize>
    decreases events.len(),
{
    if events.len() == 0 {
        Seq::empty()
    } else {
        stored_fonts(events.drop_last()) + match events.last() {
            FontCacheEvent::Store(font) => seq![font],
            FontCacheEvent::Release => Seq::empty(),
        }
    }
}

/// The fonts handed out by the `release` calls of a series, in order.
pub open spec fn released_fonts(events: Seq<FontCacheEvent>) -> Seq<usize>
    decreases events.len(),
{
    if events.len() == 0 {
        Seq::empty()
    } else {
        released_fonts(events.drop_last()) + match events.last() {
            FontCacheEvent::Store(_) => Seq::empty(),
            FontCacheEvent::Release => held_fonts(cache_after(events.drop_last())),
        }
    }
}

/// Each font ever stored is handed out by exactly one `release`, in the order
/// stored, unless the cache still holds it: none is lost and none is handed
/// out twice, so each is deleted once.
pub proof fn lemma_fonts_released_once(events: Seq<FontCacheEvent>)
    requires
        stores_into_empty(events),
    ensures
        stored_fonts(events) == released_fonts(events) + held_fonts(cache_after(events)),
    decreases events.len(),
{
    if events.len() > 0 {
        let before = events.drop_last();
        assert forall|i: int|
            0 <= i < before.len() && (#[trigger] before[i]) is Store implies cache_after(
            before.take(i),
        ) is None by {
            assert(events[i] == before[i]);
            assert(before.take(i) =~= events.take(i));
        }
        lemma_fonts_released_once(before);
        match events.last() {
            FontCacheEvent::Store(font) => {
                assert(events[events.len() - 1] is Store);
                assert(events.take(events.len() - 1) =~= before);
                assert(held_fonts(cache_after(before)) =~= Seq::<usize>::empty());
                assert(released_fonts(before) + Seq::<usize>::empty() =~= released_fonts(before));
                assert(released_fonts(before) + seq![font] =~= released_fonts(before) + held_fonts(
                    cache_after(events),
                ));
            },
            FontCacheEvent::Release => {
                assert(stored_fonts(before) + Seq::<usize>::empty() =~= stored_fonts(before));
                assert(released_fonts(events) + Seq::<usize>::empty() =~= released_fonts(events));
            },
        }
    }
}

} // verus!
