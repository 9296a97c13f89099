//! Text styles and fonts.
//!
//! A [`TextStyle`] is a small closed set of logical text roles (plus an open,
//! named variant for user-defined roles). A [`FontId`] is a concrete font
//! choice: a size in centipoints and a [`FontFamily`]. A [`TextStyleMap`]
//! maps each text style to the font it should use; its keys are unique.
//!
//! In specifications a text style is abstracted to a pair of its variant
//! rank and its name (empty for the closed variants), and a font id to a
//! pair of its size and its family view, so that two values that print the
//! same compare the same.

use vstd::prelude::*;

verus! {

/// The view of a [`TextStyle`] or a [`FontFamily`]: variant rank and name.
pub type StyleKeyView = (int, Seq<char>);

/// The view of a [`FontId`]: size in centipoints and family view.
pub type FontIdView = (int, (int, Seq<char>));

/// A font family: one of the two built-in families, or a custom family
/// registered by the host under a name.
#[derive(Debug)]
pub enum FontFamily {
    /// A proportional typeface.
    Proportional,
    /// A monospace typeface.
    Monospace,
    /// A custom family, looked up by name in the host's font definitions.
    Name(String),
}

impl View for FontFamily {
    type V = StyleKeyView;

    open spec fn view(&self) -> StyleKeyView {
        match self {
            FontFamily::Proportional => (0int, Seq::empty()),
            FontFamily::Monospace => (1int, Seq::empty()),
            FontFamily::Name(s) => (2int, s@),
        }
    }
}

impl PartialEq for FontFamily {
    fn eq(&self, other: &Self) -> bool {
        match (self, other) {
            (FontFamily::Proportional, FontFamily::Proportional) => true,
            (FontFamily::Monospace, FontFamily::Monospace) => true,
            (FontFamily::Name(a), FontFamily::Name(b)) => *a == *b,
            _ => false,
        }
    }
}

impl vstd::std_specs::cmp::PartialEqSpecImpl for FontFamily {
    open spec fn obeys_eq_spec() -> bool {
        true
    }

    open spec fn eq_spec(&self, other: &Self) -> bool {
        self@ == other@
    }
}

impl Clone for FontFamily {
    fn clone(&self) -> (r: Self)
        ensures
            r == *self,
    {
        match self {
            FontFamily::Proportional => FontFamily::Proportional,
            FontFamily::Monospace => FontFamily::Monospace,
            FontFamily::Name(s) => FontFamily::Name(s.clone()),
        }
    }
}

/// A concrete font: a size in centipoints and a family.
#[derive(Debug)]
pub struct FontId {
    /// Font height in hundredths of a point.
    pub size: u32,
    pub family: FontFamily,
}

impl View for FontId {
    type V = FontIdView;

    open spec fn view(&self) -> FontIdView {
        (self.size as int, self.family@)
    }
}

impl FontId {
    #[verifier::allow_in_spec]
    pub fn new(size: u32, family: FontFamily) -> FontId
        returns
            (FontId { size, family }),
    {
        FontId { size, family }
    }

    /// A proportional font of the given size in centipoints.
    #[verifier::allow_in_spec]
    pub fn proportional(size: u32) -> FontId
        returns
            (FontId { size, family: FontFamily::Proportional }),
    {
        FontId { size, family: FontFamily::Proportional }
    }

    /// A monospace font of the given size in centipoints.
    #[verifier::allow_in_spec]
    pub fn monospace(size: u32) -> FontId
        returns
            (FontId { size, family: FontFamily::Monospace }),
    {
        FontId { size, family: FontFamily::Monospace }
    }
}

impl PartialEq for FontId {
    fn eq(&self, other: &Self) -> bool {
        self.size == other.size && self.family == other.family
    }
}

impl vstd::std_specs::cmp::PartialEqSpecImpl for FontId {
    open spec fn obeys_eq_spec() -> bool {
        true
    }

    open spec fn eq_spec(&self, other: &Self) -> bool {
        self@ == other@
    }
}

impl Clone for FontId {
    fn clone(&self) -> (r: Self)
        ensures
            r == *self,
    {
        FontId { size: self.size, family: self.family.clone() }
    }
}

/// The view of a proportional font of the given size.
pub open spec fn proportional_font_view(size: int) -> FontIdView {
    (size, (0int, Seq::empty()))
}

/// The view of a monospace font of the given size.
pub open spec fn monospace_font_view(size: int) -> FontIdView {
    (size, (1int, Seq::empty()))
}

/// A logical text role. The five closed variants are the roles the library
/// itself resolves; [`TextStyle::Name`] is open to the host.
#[derive(Debug)]
pub enum TextStyle {
    /// Small auxiliary text.
    Small,
    /// Normal labels.
    Body,
    /// Code and aligned numbers; same size as `Body` by default.
    Monospace,
    /// Button captions.
    Button,
    /// Headings.
    Heading,
    /// A user-defined role, identified by name.
    Name(String),
}

impl View for TextStyle {
    type V = StyleKeyView;

    open spec fn view(&self) -> StyleKeyView {
        match self {
            TextStyle::Small => (0int, Seq::empty()),
            TextStyle::Body => (1int, Seq::empty()),
            TextStyle::Monospace => (2int, Seq::empty()),
            TextStyle::Button => (3int, Seq::empty()),
            TextStyle::Heading => (4int, Seq::empty()),
            TextStyle::Name(s) => (5int, s@),
        }
    }
}

impl PartialEq for TextStyle {
    fn eq(&self, other: &Self) -> bool {
        match (self, other) {
            (TextStyle::Small, TextStyle::Small) => true,
            (TextStyle::Body, TextStyle::Body) => true,
            (TextStyle::Monospace, TextStyle::Monospace) => true,
            (TextStyle::Button, TextStyle::Button) => true,
            (TextStyle::Heading, TextStyle::Heading) => true,
            (TextStyle::Name(a), TextStyle::Name(b)) => *a == *b,
            _ => false,
        }
    }
}

impl vstd::std_specs::cmp::PartialEqSpecImpl for TextStyle {
    open spec fn obeys_eq_spec() -> bool {
        true
    }

    open spec fn eq_spec(&self, other: &Self) -> bool {
        self@ == other@
    }
}

impl Clone for TextStyle {
    fn clone(&self) -> (r: Self)
        ensures
            r == *self,
    {
        match self {
            TextStyle::Small => TextStyle::Small,
            TextStyle::Body => TextStyle::Body,
            TextStyle::Monospace => TextStyle::Monospace,
            TextStyle::Button => TextStyle::Button,
            TextStyle::Heading => TextStyle::Heading,
            TextStyle::Name(s) => TextStyle::Name(s.clone()),
        }
    }
}

impl TextStyle {
    /// The style's name, for error messages and editor labels.
    pub fn display_name(&self) -> (r: String)
        ensures
            *self is Small ==> r@ == "Small"@,
            *self is Body ==> r@ == "Body"@,
            *self is Monospace ==> r@ == "Monospace"@,
            *self is Button ==> r@ == "Button"@,
            *self is Heading ==> r@ == "Heading"@,
            self matches TextStyle::Name(s) ==> r@ == s@,
    {
        match self {
            TextStyle::Small => "Small".to_string(),
            TextStyle::Body => "Body".to_string(),
            TextStyle::Monospace => "Monospace".to_string(),
            TextStyle::Button => "Button".to_string(),
            TextStyle::Heading => "Heading".to_string(),
            TextStyle::Name(s) => s.clone(),
        }
    }
}

/// The mapping from a sequence of entries to the map it denotes: a later
/// entry for a key wins (the map's entries in fact have unique keys).
pub open spec fn map_of(s: Seq<(TextStyle, FontId)>) -> Map<StyleKeyView, FontIdView>
    decreases s.len(),
{
    if s.len() == 0 {
        Map::empty()
    } else {
        map_of(s.drop_last()).insert(s.last().0@, s.last().1@)
    }
}

/// A key is in `map_of(s)` exactly when some entry of `s` carries it.
proof fn lemma_map_of_contains(s: Seq<(TextStyle, FontId)>, k: StyleKeyView)
    ensures
        map_of(s).contains_key(k) <==> exists|i: int| 0 <= i < s.len() && s[i].0@ == k,
    decreases s.len(),
{
    if s.len() > 0 {
        lemma_map_of_contains(s.drop_last(), k);
        if s.last().0@ == k {
            assert(s[s.len() - 1].0@ == k);
        } else if map_of(s).contains_key(k) {
            let i = choose|i: int| 0 <= i < s.drop_last().len() && s.drop_last()[i].0@ == k;
            assert(s[i].0@ == k);
        } else {
            assert(forall|i: int|
                0 <= i < s.len() - 1 ==> s[i] == s.drop_last()[i]);
        }
    }
}

/// The value of `map_of(s)` at the key of an entry no later entry shadows.
proof fn lemma_map_of_index(s: Seq<(TextStyle, FontId)>, i: int)
    requires
        0 <= i < s.len(),
        forall|j: int| i < j < s.len() ==> s[j].0@ != s[i].0@,
    ensures
        map_of(s).contains_key(s[i].0@),
        map_of(s)[s[i].0@] == s[i].1@,
    decreases s.len(),
{
    if i == s.len() - 1 {
    } else {
        assert(s.drop_last()[i] == s[i]);
        lemma_map_of_index(s.drop_last(), i);
    }
}

/// A mapping from text styles to fonts, with unique keys.
#[derive(Debug, PartialEq)]
pub struct TextStyleMap {
    entries: Vec<(TextStyle, FontId)>,
}

impl View for TextStyleMap {
    type V = Map<StyleKeyView, FontIdView>;

    closed spec fn view(&self) -> Map<StyleKeyView, FontIdView> {
        map_of(self.entries@)
    }
}

impl TextStyleMap {
    /// Every two entries carry distinct keys.
    #[verifier::type_invariant]
    spec fn wf(self) -> bool {
        forall|i: int, j: int|
            0 <= i < j < self.entries@.len() ==> self.entries@[i].0@ != self.entries@[j].0@
    }

    /// The number of text styles in the map.
    pub closed spec fn spec_len(&self) -> int {
        self.entries@.len() as int
    }

    /// The empty mapping.
    pub fn new() -> (m: TextStyleMap)
        ensures
            m@ == Map::<StyleKeyView, FontIdView>::empty(),
            m.spec_len() == 0,
    {
        TextStyleMap { entries: Vec::new() }
    }

    pub fn len(&self) -> (n: usize)
        ensures
            n == self.spec_len(),
    {
        self.entries.len()
    }

    /// Looks the style up; `None` exactly when the map has no entry for it.
    pub fn get(&self, key: &TextStyle) -> (r: Option<&FontId>)
        ensures
            match r {
                Some(f) => self@.contains_key(key@) && f@ == self@[key@],
                None => !self@.contains_key(key@),
            },
    {
        proof {
            use_type_invariant(&*self);
        }
        let n = self.entries.len();
        let mut i: usize = 0;
        while i < n
            invariant
                n == self.entries@.len(),
                0 <= i <= n,
                forall|j: int| 0 <= j < i ==> self.entries@[j].0@ != key@,
                self.wf(),
            decreases n - i,
        {
            if self.entries[i].0 == *key {
                proof {
                    lemma_map_of_index(self.entries@, i as int);
                }
                return Some(&self.entries[i].1);
            }
            i += 1;
        }
        proof {
            lemma_map_of_contains(self.entries@, key@);
        }
        None
    }

    /// True exactly when the map has an entry for the style.
    pub fn contains_key(&self, key: &TextStyle) -> (r: bool)
        ensures
            r == self@.contains_key(key@),
    {
        self.get(key).is_some()
    }

    /// Adds an entry, replacing any entry the map had for the same style.
    /// The style's entry is placed last, behind the other styles' entries.
    pub fn insert(&mut self, key: TextStyle, font: FontId)
        ensures
            final(self)@ == old(self)@.insert(key@, font@),
            final(self).spec_len() <= old(self).spec_len() + 1,
    {
        proof {
            use_type_invariant(&*self);
        }
        let ghost orig = self.entries@;
        let n = self.entries.len();
        let mut out: Vec<(TextStyle, FontId)> = Vec::new();
        let mut i: usize = 0;
        while i < n
            invariant
                n == orig.len(),
                self.entries@ == orig,
                0 <= i <= n,
                out@.len() <= i,
                forall|a: int, b: int| 0 <= a < b < orig.len() ==> orig[a].0@ != orig[b].0@,
                forall|a: int|
                    #![trigger out@[a]]
                    0 <= a < out@.len() ==> exists|j: int|
                        #![trigger orig[j]]
                        0 <= j < i && out@[a] == orig[j],
                forall|a: int| 0 <= a < out@.len() ==> out@[a].0@ != key@,
                forall|a: int, b: int| 0 <= a < b < out@.len() ==> out@[a].0@ != out@[b].0@,
                map_of(out@) == map_of(orig.take(i as int)).remove(key@),
            decreases n - i,
        {
            let ghost prefix = orig.take(i as int);
            let e = &self.entries[i];
            if !(e.0 == key) {
                let ghost out_before = out@;
                proof {
                    assert forall|a: int| 0 <= a < out_before.len() implies out_before[a].0@
                        != orig[i as int].0@ by {
                        let j = choose|j: int|
                            #![trigger orig[j]]
                            0 <= j < i && out_before[a] == orig[j];
                        assert(orig[j].0@ != orig[i as int].0@);
                    }
                }
                out.push((e.0.clone(), e.1.clone()));
                proof {
                    assert(out@.drop_last() == out_before);
                    assert(orig.take(i + 1).drop_last() == prefix);
                    assert(map_of(orig.take(i + 1)) == map_of(prefix).insert(
                        orig[i as int].0@,
                        orig[i as int].1@,
                    ));
                    assert(map_of(out@) =~= map_of(orig.take(i + 1)).remove(key@));
                }
            } else {
                proof {
                    assert(orig.take(i + 1).drop_last() == prefix);
                    assert(map_of(orig.take(i + 1)) == map_of(prefix).insert(
                        orig[i as int].0@,
                        orig[i as int].1@,
                    ));
                    assert(map_of(out@) =~= map_of(orig.take(i + 1)).remove(key@));
                }
            }
            i += 1;
        }
        let ghost out_before = out@;
        out.push((key, font));
        proof {
            assert(out@.drop_last() == out_before);
            assert(orig.take(n as int) == orig);
            assert(map_of(out@) =~= map_of(orig).insert(out@.last().0@, out@.last().1@));
            assert(map_of(out@) =~= old(self)@.insert(out@.last().0@, out@.last().1@));
        }
        self.entries = out;
    }

    /// The styles in the map: one for each key, in entry order.
    pub fn keys(&self) -> (r: Vec<TextStyle>)
        ensures
            r@.len() == self.spec_len(),
            forall|i: int| 0 <= i < r@.len() ==> self@.contains_key(r@[i]@),
            forall|i: int, j: int| 0 <= i < j < r@.len() ==> r@[i]@ != r@[j]@,
            forall|k: StyleKeyView|
                self@.contains_key(k) ==> exists|i: int| 0 <= i < r@.len() && r@[i]@ == k,
    {
        proof {
            use_type_invariant(&*self);
        }
        let n = self.entries.len();
        let mut r: Vec<TextStyle> = Vec::new();
        let mut i: usize = 0;
        while i < n
            invariant
                n == self.entries@.len(),
                0 <= i <= n,
                r@.len() == i,
                forall|j: int| 0 <= j < i ==> r@[j]@ == self.entries@[j].0@,
                self.wf(),
            decreases n - i,
        {
            r.push(self.entries[i].0.clone());
            i += 1;
        }
        proof {
            assert forall|j: int| 0 <= j < r@.len() implies self@.contains_key(r@[j]@) by {
                lemma_map_of_contains(self.entries@, r@[j]@);
            }
            assert forall|k: StyleKeyView| self@.contains_key(k) implies exists|j: int|
                0 <= j < r@.len() && r@[j]@ == k by {
                lemma_map_of_contains(self.entries@, k);
                let j = choose|j: int| 0 <= j < self.entries@.len() && self.entries@[j].0@ == k;
                assert(r@[j]@ == k);
            }
        }
        r
    }

}

impl Clone for TextStyleMap {
    /// A copy that is the same mapping, entry for entry.
    fn clone(&self) -> (r: Self)
        ensures
            r@ == self@,
            r.spec_len() == self.spec_len(),
    {
        proof {
            use_type_invariant(&*self);
        }
        let n = self.entries.len();
        let mut out: Vec<(TextStyle, FontId)> = Vec::new();
        let mut i: usize = 0;
        while i < n
            invariant
                n == self.entries@.len(),
                0 <= i <= n,
                out@.len() == i,
                forall|j: int| 0 <= j < i ==> out@[j] == self.entries@[j],
                self.wf(),
            decreases n - i,
        {
            let e = &self.entries[i];
            out.push((e.0.clone(), e.1.clone()));
            i += 1;
        }
        proof {
            assert(out@ =~= self.entries@);
        }
        TextStyleMap { entries: out }
    }
}

/// The text styles every default theme carries: the five closed styles,
/// with the sizes of the library's default look.
pub open spec fn default_text_styles_map() -> Map<StyleKeyView, FontIdView> {
    Map::<StyleKeyView, FontIdView>::empty().insert(
        (TextStyle::Small)@,
        proportional_font_view(900),
    ).insert((TextStyle::Body)@, proportional_font_view(1250)).insert(
        (TextStyle::Monospace)@,
        monospace_font_view(1200),
    ).insert((TextStyle::Button)@, proportional_font_view(1250)).insert(
        (TextStyle::Heading)@,
        proportional_font_view(1800),
    )
}

/// The default text styles: all five closed styles are present.
pub fn default_text_styles() -> (m: TextStyleMap)
    ensures
        m@ == default_text_styles_map(),
{
    let mut m = TextStyleMap::new();
    m.insert(TextStyle::Small, FontId::proportional(900));
    m.insert(TextStyle::Body, FontId::proportional(1250));
    m.insert(TextStyle::Monospace, FontId::monospace(1200));
    m.insert(TextStyle::Button, FontId::proportional(1250));
    m.insert(TextStyle::Heading, FontId::proportional(1800));
    m
}

} // verus!
