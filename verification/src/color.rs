//! The seven representations of a color and the way from one to another.
//!
//! Twelve conversions are closed formulas; they join the representations into
//! a line with a fork at either end:
//!
//! ```text
//! hsl --.                              .-- okhsl
//!        srgb ---- rgb ---- oklab ----
//! hsv --'                              '-- okhsv
//! ```
//!
//! Every other conversion is the chain of the formulas along the way.
use vstd::prelude::*;

verus! {

/// One of the seven representations.
#[derive(Clone, Copy, Debug, PartialEq, Eq, Hash, Structural)]
pub enum Space {
    /// Gamma-encoded red, green, blue.
    Srgb,
    /// Linear-light red, green, blue.
    Rgb,
    /// Perceptual lightness and two chroma axes.
    Oklab,
    /// Hue, saturation, lightness relative to the gamut, derived from oklab.
    Okhsl,
    /// Hue, saturation, value relative to the gamut, derived from oklab.
    Okhsv,
    /// Classic hue, saturation, lightness.
    Hsl,
    /// Classic hue, saturation, value.
    Hsv,
}

/// One of the twelve closed formulas, named by the representation that it
/// gives and the one that it takes.
#[derive(Clone, Copy, Debug, PartialEq, Eq, Hash, Structural)]
pub enum Formula {
    /// Encodes linear light on the transfer curve.
    SrgbFromRgb,
    /// Decodes to linear light on the transfer curve.
    RgbFromSrgb,
    /// A weighted sum, a cube, a weighted sum.
    RgbFromOklab,
    /// A weighted sum, a cube root, a weighted sum.
    OklabFromRgb,
    /// Undoes the lightness toe and the saturation curve along the gamut.
    OklabFromOkhsl,
    /// Lightness through the toe, chroma relative to the gamut at that
    /// lightness.
    OkhslFromOklab,
    /// Undoes value and saturation relative to the cusp of the gamut.
    OklabFromOkhsv,
    /// Value and saturation relative to the cusp of the gamut.
    OkhsvFromOklab,
    /// Two levels from saturation and lightness, and a ramp between them
    /// for each channel.
    SrgbFromHsl,
    /// Hue by the largest channel, saturation by the spread of the channels.
    HslFromSrgb,
    /// The value and three levels below it, arranged by the sextant of the
    /// hue.
    SrgbFromHsv,
    /// Hue by the largest channel, which is the value.
    HsvFromSrgb,
}

/// A color written in one of the seven representations.
pub trait Color {
    /// The representation that this value is written in.
    fn space(&self) -> Space;
}

impl Formula {
    /// The representation that the formula takes.
    pub open spec fn source(self) -> Space {
        match self {
            Formula::SrgbFromRgb | Formula::OklabFromRgb => Space::Rgb,
            Formula::RgbFromSrgb | Formula::HslFromSrgb | Formula::HsvFromSrgb => Space::Srgb,
            Formula::RgbFromOklab | Formula::OkhslFromOklab | Formula::OkhsvFromOklab => {
                Space::Oklab
            },
            Formula::OklabFromOkhsl => Space::Okhsl,
            Formula::OklabFromOkhsv => Space::Okhsv,
            Formula::SrgbFromHsl => Space::Hsl,
            Formula::SrgbFromHsv => Space::Hsv,
        }
    }

    /// The representation that the formula gives.
    pub open spec fn target(self) -> Space {
        match self {
            Formula::SrgbFromRgb | Formula::SrgbFromHsl | Formula::SrgbFromHsv => Space::Srgb,
            Formula::RgbFromSrgb | Formula::RgbFromOklab => Space::Rgb,
            Formula::OklabFromRgb | Formula::OklabFromOkhsl | Formula::OklabFromOkhsv => {
                Space::Oklab
            },
            Formula::OkhslFromOklab => Space::Okhsl,
            Formula::OkhsvFromOklab => Space::Okhsv,
            Formula::HslFromSrgb => Space::Hsl,
            Formula::HsvFromSrgb => Space::Hsv,
        }
    }

    /// The formula that goes the other way.
    pub open spec fn back(self) -> Formula {
        match self {
            Formula::SrgbFromRgb => Formula::RgbFromSrgb,
            Formula::RgbFromSrgb => Formula::SrgbFromRgb,
            Formula::RgbFromOklab => Formula::OklabFromRgb,
            Formula::OklabFromRgb => Formula::RgbFromOklab,
            Formula::OklabFromOkhsl => Formula::OkhslFromOklab,
            Formula::OkhslFromOklab => Formula::OklabFromOkhsl,
            Formula::OklabFromOkhsv => Formula::OkhsvFromOklab,
            Formula::OkhsvFromOklab => Formula::OklabFromOkhsv,
            Formula::SrgbFromHsl => Formula::HslFromSrgb,
            Formula::HslFromSrgb => Formula::SrgbFromHsl,
            Formula::SrgbFromHsv => Formula::HsvFromSrgb,
            Formula::HsvFromSrgb => Formula::SrgbFromHsv,
        }
    }

    /// The representation that the formula takes.
    pub fn takes(self) -> (space: Space)
        ensures
            space == self.source(),
    {
        match self {
            Formula::SrgbFromRgb | Formula::OklabFromRgb => Space::Rgb,
            Formula::RgbFromSrgb | Formula::HslFromSrgb | Formula::HsvFromSrgb => Space::Srgb,
            Formula::RgbFromOklab | Formula::OkhslFromOklab | Formula::OkhsvFromOklab => {
                Space::Oklab
            },
            Formula::OklabFromOkhsl => Space::Okhsl,
            Formula::OklabFromOkhsv => Space::Okhsv,
            Formula::SrgbFromHsl => Space::Hsl,
            Formula::SrgbFromHsv => Space::Hsv,
        }
    }

    /// The representation that the formula gives.
    pub fn gives(self) -> (space: Space)
        ensures
            space == self.target(),
    {
        match self {
            Formula::SrgbFromRgb | Formula::SrgbFromHsl | Formula::SrgbFromHsv => Space::Srgb,
            Formula::RgbFromSrgb | Formula::RgbFromOklab => Space::Rgb,
            Formula::OklabFromRgb | Formula::OklabFromOkhsl | Formula::OklabFromOkhsv => {
                Space::Oklab
            },
            Formula::OkhslFromOklab => Space::Okhsl,
            Formula::OkhsvFromOklab => Space::Okhsv,
            Formula::HslFromSrgb => Space::Hsl,
            Formula::HsvFromSrgb => Space::Hsv,
        }
    }

    /// The formula that goes the other way.
    pub fn reversed(self) -> (formula: Formula)
        ensures
            formula == self.back(),
    {
        match self.gives().formula_to(self.takes()) {
            Some(formula) => formula,
            None => self,
        }
    }
}

impl Space {
    /// The formula that takes a color in `self` to one in `to`, where there
    /// is one.
    pub open spec fn formula(self, to: Space) -> Option<Formula> {
        match (to, self) {
            (Space::Srgb, Space::Rgb) => Some(Formula::SrgbFromRgb),
            (Space::Rgb, Space::Srgb) => Some(Formula::RgbFromSrgb),
            (Space::Rgb, Space::Oklab) => Some(Formula::RgbFromOklab),
            (Space::Oklab, Space::Rgb) => Some(Formula::OklabFromRgb),
            (Space::Oklab, Space::Okhsl) => Some(Formula::OklabFromOkhsl),
            (Space::Okhsl, Space::Oklab) => Some(Formula::OkhslFromOklab),
            (Space::Oklab, Space::Okhsv) => Some(Formula::OklabFromOkhsv),
            (Space::Okhsv, Space::Oklab) => Some(Formula::OkhsvFromOklab),
            (Space::Srgb, Space::Hsl) => Some(Formula::SrgbFromHsl),
            (Space::Hsl, Space::Srgb) => Some(Formula::HslFromSrgb),
            (Space::Srgb, Space::Hsv) => Some(Formula::SrgbFromHsv),
            (Space::Hsv, Space::Srgb) => Some(Formula::HsvFromSrgb),
            _ => None,
        }
    }

    /// Whether a formula takes a color in `self` to one in `to`.
    pub open spec fn direct(self, to: Space) -> bool {
        self.formula(to) is Some
    }

    /// The place of a representation along the line, counted from the
    /// classic polar end.
    pub open spec fn station(self) -> int {
        match self {
            Space::Hsl | Space::Hsv => 0,
            Space::Srgb => 1,
            Space::Rgb => 2,
            Space::Oklab => 3,
            Space::Okhsl | Space::Okhsv => 4,
        }
    }

    /// The number of formulas between two representations.
    pub open spec fn distance(self, to: Space) -> nat {
        if self == to {
            0
        } else if self.station() == to.station() {
            2
        } else if self.station() < to.station() {
            (to.station() - self.station()) as nat
        } else {
            (self.station() - to.station()) as nat
        }
    }

    /// The representation that comes next on the way from `self` to `to`;
    /// `self` where the two are the same.
    pub open spec fn toward(self, to: Space) -> Space {
        if self == to {
            self
        } else {
            match self {
                Space::Hsl | Space::Hsv => Space::Srgb,
                Space::Okhsl | Space::Okhsv => Space::Oklab,
                Space::Srgb => if to.station() == 0 {
                    to
                } else {
                    Space::Rgb
                },
                Space::Rgb => if to.station() < 2 {
                    Space::Srgb
                } else {
                    Space::Oklab
                },
                Space::Oklab => if to.station() == 4 {
                    to
                } else {
                    Space::Rgb
                },
            }
        }
    }

    /// The formulas that convert from `self` to `to`, in the order in which
    /// they apply. Empty where the two are the same.
    pub open spec fn chain(self, to: Space) -> Seq<Formula>
        decreases self.distance(to),
    {
        if self == to {
            Seq::empty()
        } else {
            seq![self.formula(self.toward(to)).unwrap()] + self.toward(to).chain(to)
        }
    }

    /// Whether `formulas` convert from `self` to `to`: the first takes a
    /// color in `self`, each of the others takes what the one before it
    /// gives, and the last gives a color in `to`.
    pub open spec fn links(self, formulas: Seq<Formula>, to: Space) -> bool
        decreases formulas.len(),
    {
        if formulas.len() == 0 {
            self == to
        } else {
            formulas[0].source() == self && formulas[0].target().links(
                formulas.subrange(1, formulas.len() as int),
                to,
            )
        }
    }

    /// The formula that takes a color in `self` to one in `to`, where there
    /// is one.
    pub fn formula_to(self, to: Space) -> (formula: Option<Formula>)
        ensures
            formula == self.formula(to),
    {
        match (to, self) {
            (Space::Srgb, Space::Rgb) => Some(Formula::SrgbFromRgb),
            (Space::Rgb, Space::Srgb) => Some(Formula::RgbFromSrgb),
            (Space::Rgb, Space::Oklab) => Some(Formula::RgbFromOklab),
            (Space::Oklab, Space::Rgb) => Some(Formula::OklabFromRgb),
            (Space::Oklab, Space::Okhsl) => Some(Formula::OklabFromOkhsl),
            (Space::Okhsl, Space::Oklab) => Some(Formula::OkhslFromOklab),
            (Space::Oklab, Space::Okhsv) => Some(Formula::OklabFromOkhsv),
            (Space::Okhsv, Space::Oklab) => Some(Formula::OkhsvFromOklab),
            (Space::Srgb, Space::Hsl) => Some(Formula::SrgbFromHsl),
            (Space::Hsl, Space::Srgb) => Some(Formula::HslFromSrgb),
            (Space::Srgb, Space::Hsv) => Some(Formula::SrgbFromHsv),
            (Space::Hsv, Space::Srgb) => Some(Formula::HsvFromSrgb),
            _ => None,
        }
    }

    /// The representation that comes next on the way to `to`.
    pub fn next_hop(self, to: Space) -> (next: Space)
        ensures
            next == self.toward(to),
    {
        if self == to {
            return self;
        }
        match self {
            Space::Hsl | Space::Hsv => Space::Srgb,
            Space::Okhsl | Space::Okhsv => Space::Oklab,
            Space::Srgb => match to {
                Space::Hsl | Space::Hsv => to,
                _ => Space::Rgb,
            },
            Space::Rgb => match to {
                Space::Hsl | Space::Hsv | Space::Srgb => Space::Srgb,
                _ => Space::Oklab,
            },
            Space::Oklab => match to {
                Space::Okhsl | Space::Okhsv => to,
                _ => Space::Rgb,
            },
        }
    }

    /// The formula that comes next on the way to `to`; none where `self` is
    /// `to`.
    pub fn next_formula(self, to: Space) -> (formula: Option<Formula>)
        ensures
            self == to ==> formula is None,
            self != to ==> formula == Some(self.chain(to)[0]),
            self != to ==> formula == self.formula(self.toward(to)),
    {
        if self == to {
            None
        } else {
            self.formula_to(self.next_hop(to))
        }
    }

    /// The formulas that convert from `self` to `to`, in the order in which
    /// they apply.
    pub fn route(self, to: Space) -> (formulas: Vec<Formula>)
        ensures
            formulas@ == self.chain(to),
    {
        let mut formulas: Vec<Formula> = Vec::new();
        let mut at = self;
        while at != to
            invariant
                formulas@ + at.chain(to) == self.chain(to),
            decreases at.distance(to),
        {
            let next = at.next_hop(to);
            let formula = at.formula_to(next).unwrap();
            assert(at.chain(to) == seq![formula] + next.chain(to));
            assert(formulas@.push(formula) + next.chain(to) == formulas@ + (seq![formula]
                + next.chain(to)));
            formulas.push(formula);
            at = next;
        }
        assert(formulas@ + Seq::<Formula>::empty() == formulas@);
        formulas
    }
}

/// Whether `out` can come of `value` by applying `step` once for each of
/// `formulas`, in order.
pub open spec fn carried<V, F: Fn(V, Formula) -> V>(
    step: F,
    value: V,
    formulas: Seq<Formula>,
    out: V,
) -> bool
    decreases formulas.len(),
{
    if formulas.len() == 0 {
        out == value
    } else {
        exists|mid: V| #[trigger]
            call_ensures(step, (value, formulas[0]), mid) && carried(
                step,
                mid,
                formulas.subrange(1, formulas.len() as int),
                out,
            )
    }
}

/// What comes of `value` by applying the function `apply` once for each of
/// `formulas`, in order.
pub open spec fn folded<V>(
    apply: spec_fn(V, Formula) -> V,
    value: V,
    formulas: Seq<Formula>,
) -> V
    decreases formulas.len(),
{
    if formulas.len() == 0 {
        value
    } else {
        folded(apply, apply(value, formulas[0]), formulas.subrange(1, formulas.len() as int))
    }
}

/// The chain that undoes `formulas`: for each of them the formula that goes
/// the other way, in the opposite order.
pub open spec fn undone(formulas: Seq<Formula>) -> Seq<Formula> {
    Seq::new(formulas.len(), |i: int| formulas[formulas.len() - 1 - i].back())
}

/// Converts `value` from the representation `from` to `to`. `step` does the
/// arithmetic of the twelve formulas: it is called with a value and the
/// formula to apply to it, once for each formula on the way from `from` to
/// `to`, and must take each of those with any value. Where the two are the
/// same, `value` comes back as it is.
pub fn convert<V, F>(value: V, from: Space, to: Space, step: F) -> (out: V) where
    F: Fn(V, Formula) -> V,

    requires
        forall|v: V, formula: Formula|
            from.chain(to).contains(formula) ==> call_requires(step, (v, formula)),
    ensures
        carried(step, value, from.chain(to), out),
{
    let ghost start = value;
    let mut current = value;
    let mut at = from;
    while at != to
        invariant
            forall|v: V, formula: Formula|
                at.chain(to).contains(formula) ==> call_requires(step, (v, formula)),
            forall|end: V| #[trigger]
                carried(step, current, at.chain(to), end) ==> carried(
                    step,
                    start,
                    from.chain(to),
                    end,
                ),
        decreases at.distance(to),
    {
        let next = at.next_hop(to);
        let formula = at.formula_to(next).unwrap();
        let ghost before = current;
        let ghost rest = at.chain(to);
        proof {
            assert(rest == seq![formula] + next.chain(to));
            assert(rest[0] == formula);
            assert(rest.subrange(1, rest.len() as int) == next.chain(to));
            assert forall|f: Formula| next.chain(to).contains(f) implies rest.contains(f) by {
                let i = choose|i: int| 0 <= i < next.chain(to).len() && next.chain(to)[i] == f;
                assert(rest[i + 1] == f);
            }
        }
        current = step(current, formula);
        proof {
            assert forall|end: V| #[trigger]
                carried(step, current, next.chain(to), end) implies carried(
                step,
                start,
                from.chain(to),
                end,
            ) by {
                assert(call_ensures(step, (before, formula), current));
                assert(carried(step, before, rest, end));
            }
        }
        at = next;
    }
    assert(carried(step, current, at.chain(to), current));
    current
}

/// A pair of representations has a formula exactly where some formula takes
/// the one and gives the other, and then it is that formula.
pub proof fn lemma_formula_joins(from: Space, to: Space, formula: Formula)
    ensures
        from.formula(to) == Some(formula) <==> formula.source() == from && formula.target() == to,
        formula.back().source() == formula.target(),
        formula.back().target() == formula.source(),
        formula.back().back() == formula,
        from.direct(to) <==> to.direct(from),
        from.direct(to) <==> from.distance(to) == 1,
{
}

/// The chain's formulas link `from` to `to`.
pub proof fn lemma_chain_links(from: Space, to: Space)
    ensures
        from.links(from.chain(to), to),
    decreases from.distance(to),
{
    if from != to {
        let next = from.toward(to);
        lemma_chain_links(next, to);
        let formulas = from.chain(to);
        assert(formulas[0] == from.formula(next).unwrap());
        assert(formulas.subrange(1, formulas.len() as int) == next.chain(to));
    }
}

/// The chain has as many formulas as the two representations are apart:
/// none between a representation and itself, at most four.
pub proof fn lemma_chain_length(from: Space, to: Space)
    ensures
        from.chain(to).len() == from.distance(to),
        from.distance(to) <= 4,
    decreases from.distance(to),
{
    if from != to {
        lemma_chain_length(from.toward(to), to);
    }
}

/// No formulas that link two representations are fewer than the chain, and
/// the chain is the only such of its length.
pub proof fn lemma_chain_is_shortest(from: Space, formulas: Seq<Formula>, to: Space)
    requires
        from.links(formulas, to),
    ensures
        formulas.len() >= from.distance(to),
        formulas.len() == from.distance(to) ==> formulas == from.chain(to),
    decreases formulas.len(),
{
    if formulas.len() > 0 {
        let rest = formulas.subrange(1, formulas.len() as int);
        let next = formulas[0].target();
        lemma_chain_is_shortest(next, rest, to);
        if formulas.len() == from.distance(to) {
            assert(next == from.toward(to));
            assert(formulas == seq![formulas[0]] + rest);
        }
    }
}

/// Where `last` lies one formula beyond `mid`, away from `from`, the chain
/// to `last` is the chain to `mid` and that one formula.
pub proof fn lemma_chain_extends(from: Space, mid: Space, last: Space)
    requires
        mid.direct(last),
        from.distance(last) == from.distance(mid) + 1,
    ensures
        from.chain(last) == from.chain(mid).push(mid.formula(last).unwrap()),
    decreases from.distance(mid),
{
    let formula = mid.formula(last).unwrap();
    if from == mid {
        assert(from.chain(last) == seq![formula] + last.chain(last));
        assert(from.chain(last) == Seq::<Formula>::empty().push(formula));
    } else {
        let next = from.toward(mid);
        let first = from.formula(next).unwrap();
        assert(next == from.toward(last));
        lemma_chain_extends(next, mid, last);
        assert(seq![first] + next.chain(mid).push(formula) == (seq![first] + next.chain(
            mid,
        )).push(formula));
    }
}

/// The chain back undoes the chain there: it is made of the formulas that
/// go the other way, in the opposite order.
pub proof fn lemma_chain_back(from: Space, to: Space)
    ensures
        to.chain(from) == undone(from.chain(to)),
    decreases from.distance(to),
{
    lemma_chain_length(from, to);
    lemma_chain_length(to, from);
    if from == to {
        assert(to.chain(from) == undone(from.chain(to)));
    } else {
        let next = from.toward(to);
        let first = from.formula(next).unwrap();
        lemma_chain_back(next, to);
        lemma_chain_length(next, to);
        lemma_chain_length(to, next);
        lemma_chain_extends(to, next, from);
        assert(next.formula(from).unwrap() == first.back());
        assert(from.chain(to) == seq![first] + next.chain(to));
        assert(undone(seq![first] + next.chain(to)) == undone(next.chain(to)).push(first.back()));
    }
}

/// Where `step` returns what the function `apply` says, what it carries
/// along formulas is that function applied along them.
pub proof fn lemma_carried_is_folded<V, F: Fn(V, Formula) -> V>(
    step: F,
    apply: spec_fn(V, Formula) -> V,
    value: V,
    formulas: Seq<Formula>,
    out: V,
)
    requires
        forall|v: V, formula: Formula, r: V| #[trigger]
            call_ensures(step, (v, formula), r) ==> r == apply(v, formula),
        carried(step, value, formulas, out),
    ensures
        out == folded(apply, value, formulas),
    decreases formulas.len(),
{
    if formulas.len() > 0 {
        let rest = formulas.subrange(1, formulas.len() as int);
        let mid = choose|mid: V| #[trigger]
            call_ensures(step, (value, formulas[0]), mid) && carried(step, mid, rest, out);
        lemma_carried_is_folded(step, apply, mid, rest, out);
    }
}

/// Applying a function along formulas and then one formula more is applying
/// it along the longer sequence.
pub proof fn lemma_folded_extends<V>(
    apply: spec_fn(V, Formula) -> V,
    value: V,
    formulas: Seq<Formula>,
    last: Formula,
)
    ensures
        folded(apply, value, formulas.push(last)) == apply(folded(apply, value, formulas), last),
    decreases formulas.len(),
{
    let longer = formulas.push(last);
    if formulas.len() == 0 {
        assert(longer.subrange(1, longer.len() as int) == Seq::<Formula>::empty());
        assert(folded(apply, value, longer) == folded(
            apply,
            apply(value, last),
            Seq::<Formula>::empty(),
        ));
    } else {
        let rest = formulas.subrange(1, formulas.len() as int);
        assert(longer.subrange(1, longer.len() as int) == rest.push(last));
        lemma_folded_extends(apply, apply(value, formulas[0]), rest, last);
    }
}

/// Where each formula is undone by the formula that goes back, formulas in
/// a row are undone by the row that undoes them.
pub proof fn lemma_undone_undoes<V>(
    apply: spec_fn(V, Formula) -> V,
    value: V,
    formulas: Seq<Formula>,
)
    requires
        forall|v: V, formula: Formula| #[trigger] apply(apply(v, formula), formula.back()) == v,
    ensures
        folded(apply, folded(apply, value, formulas), undone(formulas)) == value,
    decreases formulas.len(),
{
    if formulas.len() > 0 {
        let first = formulas[0];
        let rest = formulas.subrange(1, formulas.len() as int);
        let there = folded(apply, value, formulas);
        assert(there == folded(apply, apply(value, first), rest));
        lemma_undone_undoes(apply, apply(value, first), rest);
        assert(undone(formulas) == undone(rest).push(first.back()));
        lemma_folded_extends(apply, there, undone(rest), first.back());
        assert(apply(apply(value, first), first.back()) == value);
    } else {
        assert(undone(formulas) == Seq::<Formula>::empty());
    }
}

/// Where each formula is undone by the formula that goes back, each
/// conversion is undone by the conversion back.
pub proof fn lemma_round_trip<V>(
    apply: spec_fn(V, Formula) -> V,
    value: V,
    from: Space,
    to: Space,
)
    requires
        forall|v: V, formula: Formula| #[trigger] apply(apply(v, formula), formula.back()) == v,
    ensures
        folded(apply, folded(apply, value, from.chain(to)), to.chain(from)) == value,
{
    lemma_chain_back(from, to);
    lemma_undone_undoes(apply, value, from.chain(to));
}

} // verus!
