//! The platform-independent font descriptor and its builder.

use vstd::prelude::*;

verus! {

/// Largest family name a descriptor accepts, counted in UTF-16 code units.
///
/// The least capable backend stores face names in a fixed buffer of 32
/// UTF-16 code units including a terminating NUL, so 31 units is the bound
/// every backend can honour.
pub const FAMILY_NAME_MAX_UNITS: usize = 31;

/// Slant of a font face: upright, a true italic design, or a mechanically
/// slanted upright (oblique) design.
#[derive(Clone, Copy, PartialEq, Eq, Structural, Debug)]
pub enum Slant {
    Roman,
    Italic,
    Oblique,
}

/// Errors reported by this crate.
#[derive(Clone, Copy, PartialEq, Eq, Structural, Debug)]
pub enum FontError {
    /// A caller-supplied family name cannot be handed to a backend: it is
    /// longer than [`FAMILY_NAME_MAX_UNITS`] UTF-16 code units or contains
    /// a NUL character.
    InvalidInput,
    /// The native font service could not be initialised or failed during a
    /// call. There is no fallback once the platform's font service is gone.
    BackendFailure,
}

/// Mathematical model of a font descriptor.
#[verifier::ext_equal]
pub struct FontPropertyModel {
    pub family: Seq<char>,
    pub bold: bool,
    pub slant: Slant,
    pub monospace: bool,
}

/// Number of UTF-16 code units needed to encode one character.
pub open spec fn utf16_unit(c: char) -> nat {
    if c as int <= 0xFFFF {
        1
    } else {
        2
    }
}

/// Number of UTF-16 code units needed to encode a character sequence.
pub open spec fn utf16_units(s: Seq<char>) -> nat
    decreases s.len(),
{
    if s.len() == 0 {
        0
    } else {
        utf16_unit(s[0]) + utf16_units(s.skip(1))
    }
}

/// Holds when no character of `s` is NUL.
pub open spec fn nul_free(s: Seq<char>) -> bool {
    forall|i: int| 0 <= i < s.len() ==> s[i] != '\0'
}

/// A family name every backend can carry: short enough for a fixed
/// UTF-16 face-name buffer and free of NUL, which the native services'
/// C strings cannot represent.
pub open spec fn valid_family(s: Seq<char>) -> bool {
    utf16_units(s) <= FAMILY_NAME_MAX_UNITS && nul_free(s)
}

/// The descriptor produced by a builder on which no modifier was called:
/// any installed font, regular weight, roman slant, no spacing constraint.
pub open spec fn default_property_model() -> FontPropertyModel {
    FontPropertyModel { family: Seq::empty(), bold: false, slant: Slant::Roman, monospace: false }
}

/// The model after replacing the family constraint.
pub open spec fn with_family(m: FontPropertyModel, family: Seq<char>) -> FontPropertyModel {
    FontPropertyModel { family: family, ..m }
}

/// The model after setting the slant.
pub open spec fn with_slant(m: FontPropertyModel, slant: Slant) -> FontPropertyModel {
    FontPropertyModel { slant: slant, ..m }
}

/// The model after requiring bold weight.
pub open spec fn with_bold(m: FontPropertyModel) -> FontPropertyModel {
    FontPropertyModel { bold: true, ..m }
}

/// The model after requiring monospace spacing.
pub open spec fn with_monospace(m: FontPropertyModel) -> FontPropertyModel {
    FontPropertyModel { monospace: true, ..m }
}

/// A descriptor of desired font traits, immutable once built.
///
/// An empty family means "no family constraint". `monospace` is a
/// constraint only when set: an unmodified descriptor does not filter out
/// proportional fonts.
#[derive(Debug)]
pub struct FontProperty {
    pub family: String,
    pub bold: bool,
    pub slant: Slant,
    pub monospace: bool,
}

impl View for FontProperty {
    type V = FontPropertyModel;

    open spec fn view(&self) -> FontPropertyModel {
        FontPropertyModel {
            family: self.family@,
            bold: self.bold,
            slant: self.slant,
            monospace: self.monospace,
        }
    }
}

impl FontProperty {
    /// The descriptor's family name can be handed to every backend.
    pub open spec fn wf(&self) -> bool {
        valid_family(self@.family)
    }

    /// Decides [`FontProperty::wf`] at run time, for callers outside
    /// verified code. Every descriptor a builder produces satisfies it.
    pub fn is_well_formed(&self) -> (r: bool)
        ensures
            r == self.wf(),
    {
        family_name_acceptable(self.family.as_str())
    }
}

impl Default for FontProperty {
    /// The "any installed font" descriptor.
    fn default() -> (r: FontProperty)
        ensures
            r@ == default_property_model(),
            r.wf(),
    {
        let r = FontProperty {
            family: String::new(),
            bold: false,
            slant: Slant::Roman,
            monospace: false,
        };
        proof {
            assert(r@ =~= default_property_model());
        }
        r
    }
}

/// Mutable staging object for a [`FontProperty`]; each modifier consumes the
/// builder and returns the updated one, so configuration can be chained.
#[derive(Debug)]
pub struct FontPropertyBuilder {
    pub property: FontProperty,
}

impl View for FontPropertyBuilder {
    type V = FontPropertyModel;

    open spec fn view(&self) -> FontPropertyModel {
        self.property@
    }
}

impl FontPropertyBuilder {
    /// The staged family name can be handed to every backend.
    pub open spec fn wf(&self) -> bool {
        self.property.wf()
    }

    /// A builder equivalent to the "any installed font" default.
    pub fn new() -> (r: FontPropertyBuilder)
        ensures
            r@ == default_property_model(),
            r.wf(),
    {
        FontPropertyBuilder { property: FontProperty::default() }
    }

    /// Request a true italic design. Overwrites any earlier slant request:
    /// of `italic` and `oblique`, the last call wins.
    pub fn italic(self) -> (r: FontPropertyBuilder)
        ensures
            r@ == with_slant(self@, Slant::Italic),
            self.wf() ==> r.wf(),
    {
        let mut property = self.property;
        property.slant = Slant::Italic;
        FontPropertyBuilder { property }
    }

    /// Request an oblique (mechanically slanted) design. Overwrites any
    /// earlier slant request: of `italic` and `oblique`, the last call wins.
    pub fn oblique(self) -> (r: FontPropertyBuilder)
        ensures
            r@ == with_slant(self@, Slant::Oblique),
            self.wf() ==> r.wf(),
    {
        let mut property = self.property;
        property.slant = Slant::Oblique;
        FontPropertyBuilder { property }
    }

    /// Request bold weight. Weight is binary here — regular or bold — to
    /// match the least capable backend; calling this twice has the same
    /// effect as calling it once.
    pub fn bold(self) -> (r: FontPropertyBuilder)
        ensures
            r@ == with_bold(self@),
            self.wf() ==> r.wf(),
    {
        let mut property = self.property;
        property.bold = true;
        FontPropertyBuilder { property }
    }

    /// Require monospace spacing. Calling this twice has the same effect as
    /// calling it once.
    pub fn monospace(self) -> (r: FontPropertyBuilder)
        ensures
            r@ == with_monospace(self@),
            self.wf() ==> r.wf(),
    {
        let mut property = self.property;
        property.monospace = true;
        FontPropertyBuilder { property }
    }

    /// Set or replace the family constraint; an earlier family is discarded,
    /// never appended to. The empty string means "no family constraint".
    ///
    /// Fails with [`FontError::InvalidInput`] — consuming the builder — when
    /// `name` is longer than [`FAMILY_NAME_MAX_UNITS`] UTF-16 code units or
    /// contains a NUL character.
    pub fn family(self, name: &str) -> (r: Result<FontPropertyBuilder, FontError>)
        ensures
            valid_family(name@) ==> (r matches Ok(b) && b@ == with_family(self@, name@) && b.wf()),
            !valid_family(name@) ==> (r matches Err(e) && e == FontError::InvalidInput),
    {
        if !family_name_acceptable(name) {
            return Err(FontError::InvalidInput);
        }
        let mut property = self.property;
        property.family = name.to_owned();
        Ok(FontPropertyBuilder { property })
    }

    /// Finalise the staged traits into an immutable descriptor. Pure data
    /// transfer: no error conditions.
    pub fn build(self) -> (r: FontProperty)
        ensures
            r@ == self@,
            self.wf() ==> r.wf(),
    {
        self.property
    }
}

/// UTF-16 lengths add up over concatenation.
proof fn lemma_utf16_units_concat(a: Seq<char>, b: Seq<char>)
    ensures
        utf16_units(a + b) == utf16_units(a) + utf16_units(b),
    decreases a.len(),
{
    if a.len() == 0 {
        assert(a + b =~= b);
    } else {
        lemma_utf16_units_concat(a.skip(1), b);
        assert((a + b).skip(1) =~= a.skip(1) + b);
    }
}

/// A single character costs exactly its own UTF-16 length.
proof fn lemma_utf16_units_singleton(c: char)
    ensures
        utf16_units(seq![c]) == utf16_unit(c),
{
    assert(seq![c].skip(1) =~= Seq::<char>::empty());
    assert(utf16_units(Seq::<char>::empty()) == 0);
    assert(seq![c][0] == c);
}

/// Checks that `name` can be carried by every backend: at most
/// [`FAMILY_NAME_MAX_UNITS`] UTF-16 code units and no NUL character.
fn family_name_acceptable(name: &str) -> (r: bool)
    ensures
        r == valid_family(name@),
{
    let len = name.unicode_len();
    let mut i: usize = 0;
    let mut units: usize = 0;
    while i < len
        invariant
            i <= len,
            len == name@.len(),
            units == utf16_units(name@.take(i as int)),
            units <= FAMILY_NAME_MAX_UNITS,
            nul_free(name@.take(i as int)),
        decreases len - i,
    {
        let c = name.get_char(i);
        if c == '\0' {
            assert(!nul_free(name@));
            return false;
        }
        let u: usize = if (c as u32) <= 0xFFFF {
            1
        } else {
            2
        };
        proof {
            assert(name@.take(i + 1 as int) =~= name@.take(i as int) + seq![name@[i as int]]);
            lemma_utf16_units_concat(name@.take(i as int), seq![name@[i as int]]);
            lemma_utf16_units_singleton(name@[i as int]);
        }
        if units + u > FAMILY_NAME_MAX_UNITS {
            proof {
                assert(name@ =~= name@.take(i + 1 as int) + name@.skip(i + 1 as int));
                lemma_utf16_units_concat(name@.take(i + 1 as int), name@.skip(i + 1 as int));
            }
            return false;
        }
        units = units + u;
        i = i + 1;
    }
    proof {
        assert(name@.take(len as int) =~= name@);
    }
    true
}

/// Replacing the family twice keeps exactly the second name: setting
/// `first` and then `second` yields the same descriptor as setting
/// `second` alone — never a concatenation nor a list of both.
pub proof fn lemma_family_replaces(m: FontPropertyModel, first: Seq<char>, second: Seq<char>)
    ensures
        with_family(with_family(m, first), second) == with_family(m, second),
{
    assert(with_family(with_family(m, first), second) =~= with_family(m, second));
}

/// Slant requests are mutually exclusive: of two slant requests the last
/// one wins, whatever the first asked for.
pub proof fn lemma_slant_last_call_wins(m: FontPropertyModel, first: Slant, second: Slant)
    ensures
        with_slant(with_slant(m, first), second) == with_slant(m, second),
{
    assert(with_slant(with_slant(m, first), second) =~= with_slant(m, second));
}

/// Requesting bold twice has the same effect as requesting it once.
pub proof fn lemma_bold_idempotent(m: FontPropertyModel)
    ensures
        with_bold(with_bold(m)) == with_bold(m),
{
    assert(with_bold(with_bold(m)) =~= with_bold(m));
}

/// Requiring monospace twice has the same effect as requiring it once.
pub proof fn lemma_monospace_idempotent(m: FontPropertyModel)
    ensures
        with_monospace(with_monospace(m)) == with_monospace(m),
{
    assert(with_monospace(with_monospace(m)) =~= with_monospace(m));
}

} // verus!
