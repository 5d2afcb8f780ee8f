use vstd::prelude::*;

use crate::color_space::ColorSpace;
use crate::white::adaptation;
use crate::white::lemma_adaptation_inverse;
use crate::white::spec_adaptation;
use crate::white::Adaptation;
use crate::white::WhitePoint;

verus! {

/// One stage of a conversion pipeline.  A conversion is run by applying the
/// stages of its pipeline to the three components in order; each stage is a
/// pure function of the component triple.
#[derive(Clone, Copy, Debug, PartialEq, Eq, Structural)]
pub enum Step {
    /// Remove the space's transfer function: stored components become linear
    /// light.
    Decode(ColorSpace),
    /// Map the space's linear-light components to CIE XYZ under the space's
    /// own reference white.  A polar space first rebuilds the rectangular
    /// axes from chroma and hue, then pivots as its rectangular form does.
    LinearToXyz(ColorSpace),
    /// Apply one Bradford chromatic-adaptation transform to an XYZ triple.
    Adapt(Adaptation),
    /// Map CIE XYZ, already adapted to the space's reference white, to the
    /// space's linear-light components.  A polar space pivots as its
    /// rectangular form does, then re-derives chroma and hue.
    XyzToLinear(ColorSpace),
    /// Reapply the space's transfer function: linear light becomes stored
    /// components.
    Encode(ColorSpace),
}

/// The two stages that take stored components of `space` to CIE XYZ under the
/// reference white `space` declares.
pub open spec fn spec_to_xyz_steps(space: ColorSpace) -> Seq<Step> {
    seq![Step::Decode(space), Step::LinearToXyz(space)]
}

/// The adaptation stage a change of reference white requires: empty when the
/// white point is unchanged, a single Bradford transform otherwise.
pub open spec fn spec_adaptation_steps(from: WhitePoint, to: WhitePoint) -> Seq<Step> {
    match spec_adaptation(from, to) {
        Some(adaptation) => seq![Step::Adapt(adaptation)],
        None => Seq::empty(),
    }
}

/// The stages that take CIE XYZ under `white_point` to stored components of
/// `target`: an adaptation when `target` declares the other reference white,
/// then the pivot out of XYZ and the target's transfer function.
pub open spec fn spec_from_xyz_steps(white_point: WhitePoint, target: ColorSpace) -> Seq<Step> {
    spec_adaptation_steps(white_point, target.spec_white_point()) + seq![
        Step::XyzToLinear(target),
        Step::Encode(target),
    ]
}

/// The full pipeline from stored components of `from` to stored components of
/// `to`.  Converting a space to itself runs no stage at all, so the components
/// are reproduced exactly; everything else routes through XYZ.
pub open spec fn spec_conversion_steps(from: ColorSpace, to: ColorSpace) -> Seq<Step> {
    if from == to {
        Seq::empty()
    } else {
        spec_to_xyz_steps(from) + spec_from_xyz_steps(from.spec_white_point(), to)
    }
}

/// The pipeline from stored components of `space` to CIE XYZ, and the
/// reference white the resulting XYZ triple is measured under — the one
/// `space` declares, since this half never adapts.
pub fn to_xyz_steps(space: ColorSpace) -> (result: (Vec<Step>, WhitePoint))
    ensures
        result.0@ == spec_to_xyz_steps(space),
        result.1 == space.spec_white_point(),
{
    let mut steps: Vec<Step> = Vec::new();
    steps.push(Step::Decode(space));
    steps.push(Step::LinearToXyz(space));
    let white = space.white_point();
    proof {
        assert(steps@ =~= spec_to_xyz_steps(space));
    }
    (steps, white)
}

/// The pipeline from CIE XYZ measured under `white_point` to stored components
/// of `target`, adapting the white point first when `target` disagrees with
/// `white_point`.
pub fn from_xyz_steps(white_point: WhitePoint, target: ColorSpace) -> (steps: Vec<Step>)
    ensures
        steps@ == spec_from_xyz_steps(white_point, target),
{
    let mut steps: Vec<Step> = Vec::new();
    match adaptation(white_point, target.white_point()) {
        Some(adaptation) => steps.push(Step::Adapt(adaptation)),
        None => (),
    }
    steps.push(Step::XyzToLinear(target));
    steps.push(Step::Encode(target));
    proof {
        assert(steps@ =~= spec_from_xyz_steps(white_point, target));
    }
    steps
}

/// The full pipeline that converts stored components of `from` into stored
/// components of `to`: empty when the spaces are equal, otherwise the pivot
/// into XYZ followed by the pivot out of it.
pub fn conversion_steps(from: ColorSpace, to: ColorSpace) -> (steps: Vec<Step>)
    ensures
        steps@ == spec_conversion_steps(from, to),
{
    if from == to {
        let steps: Vec<Step> = Vec::new();
        proof {
            assert(steps@ =~= spec_conversion_steps(from, to));
        }
        return steps;
    }
    let (mut steps, white_point) = to_xyz_steps(from);
    let mut tail = from_xyz_steps(white_point, to);
    steps.append(&mut tail);
    proof {
        assert(steps@ =~= spec_conversion_steps(from, to));
    }
    steps
}

/// How many of the stages in `steps` are chromatic adaptations.
pub open spec fn adaptation_count(steps: Seq<Step>) -> nat
    decreases steps.len(),
{
    if steps.len() == 0 {
        0
    } else {
        (if steps[0] is Adapt {
            1nat
        } else {
            0nat
        }) + adaptation_count(steps.drop_first())
    }
}

/// Adaptations are counted stage by stage, so the count distributes over
/// concatenation of pipelines.
pub proof fn lemma_adaptation_count_concat(left: Seq<Step>, right: Seq<Step>)
    ensures
        adaptation_count(left + right) == adaptation_count(left) + adaptation_count(right),
    decreases left.len(),
{
    if left.len() == 0 {
        assert(left + right =~= right);
    } else {
        assert((left + right).drop_first() =~= left.drop_first() + right);
        lemma_adaptation_count_concat(left.drop_first(), right);
    }
}

/// Converting a color to the space it is already in runs no stage at all, so
/// the components are reproduced exactly, with no round trip through XYZ.
pub proof fn lemma_identity_conversion(space: ColorSpace)
    ensures
        spec_conversion_steps(space, space) == Seq::<Step>::empty(),
{
}

proof fn lemma_adaptation_count_pair(first: Step, second: Step)
    requires
        !(first is Adapt),
        !(second is Adapt),
    ensures
        adaptation_count(seq![first, second]) == 0,
{
    reveal_with_fuel(adaptation_count, 3);
    assert(seq![first, second].drop_first() =~= seq![second]);
    assert(seq![second].drop_first() =~= Seq::<Step>::empty());
}

/// A conversion adapts the white point at most once — between the pivot into
/// XYZ and the pivot out of it, never inside a space's own pipeline half —
/// and exactly once precisely when the two spaces differ and declare
/// different reference whites.
pub proof fn lemma_adaptation_at_most_once(from: ColorSpace, to: ColorSpace)
    ensures
        adaptation_count(spec_conversion_steps(from, to)) <= 1,
        adaptation_count(spec_conversion_steps(from, to)) == 1 <==> (from != to
            && from.spec_white_point() != to.spec_white_point()),
{
    if from == to {
        return ;
    }
    let head = spec_to_xyz_steps(from);
    let adapt = spec_adaptation_steps(from.spec_white_point(), to.spec_white_point());
    let pair = seq![Step::XyzToLinear(to), Step::Encode(to)];
    assert(spec_from_xyz_steps(from.spec_white_point(), to) == adapt + pair);
    lemma_adaptation_count_concat(head, adapt + pair);
    lemma_adaptation_count_concat(adapt, pair);
    lemma_adaptation_count_pair(Step::Decode(from), Step::LinearToXyz(from));
    lemma_adaptation_count_pair(Step::XyzToLinear(to), Step::Encode(to));
    if from.spec_white_point() == to.spec_white_point() {
        assert(adaptation_count(adapt) == 0);
    } else {
        let selected = spec_adaptation(
            from.spec_white_point(),
            to.spec_white_point(),
        )->Some_0;
        reveal_with_fuel(adaptation_count, 2);
        assert(adapt =~= seq![Step::Adapt(selected)]);
        assert(seq![Step::Adapt(selected)].drop_first() =~= Seq::<Step>::empty());
        assert(adaptation_count(adapt) == 1);
    }
}

/// The stage that undoes `step`: decoding is undone by encoding, the pivot
/// into XYZ by the pivot out of it, and an adaptation by the inverse
/// adaptation.
pub open spec fn spec_inverse_step(step: Step) -> Step {
    match step {
        Step::Decode(space) => Step::Encode(space),
        Step::LinearToXyz(space) => Step::XyzToLinear(space),
        Step::Adapt(adaptation) => Step::Adapt(adaptation.spec_inverse()),
        Step::XyzToLinear(space) => Step::LinearToXyz(space),
        Step::Encode(space) => Step::Decode(space),
    }
}

impl Step {
    /// The stage that undoes this one.
    pub fn inverse(&self) -> (inverse: Step)
        ensures
            inverse == spec_inverse_step(*self),
    {
        match self {
            Step::Decode(space) => Step::Encode(*space),
            Step::LinearToXyz(space) => Step::XyzToLinear(*space),
            Step::Adapt(adaptation) => Step::Adapt(adaptation.inverse()),
            Step::XyzToLinear(space) => Step::LinearToXyz(*space),
            Step::Encode(space) => Step::Decode(*space),
        }
    }
}

/// The pipeline of the reverse conversion is the forward pipeline run
/// backwards with every stage replaced by the stage that undoes it: a
/// conversion is undone by undoing its stages in the opposite order.
pub proof fn lemma_reverse_pipeline(from: ColorSpace, to: ColorSpace)
    ensures
        spec_conversion_steps(to, from) == spec_conversion_steps(from, to).reverse().map_values(
            |step: Step| spec_inverse_step(step),
        ),
{
    let forward = spec_conversion_steps(from, to);
    let backward = spec_conversion_steps(to, from);
    if from == to {
        assert(backward =~= forward.reverse().map_values(|step: Step| spec_inverse_step(step)));
    } else {
        lemma_adaptation_inverse(from.spec_white_point(), to.spec_white_point());
        assert(backward =~= forward.reverse().map_values(|step: Step| spec_inverse_step(step)));
    }
}

/// When source and target differ the pipeline has a fixed shape: it decodes
/// the source and pivots it into XYZ first, pivots out of XYZ and encodes the
/// target last, and when the two spaces declare different reference whites the
/// one adaptation — in the direction from the source's white to the target's —
/// stands strictly between the two pivot halves.
pub proof fn lemma_pipeline_shape(from: ColorSpace, to: ColorSpace)
    requires
        from != to,
    ensures
        ({
            let steps = spec_conversion_steps(from, to);
            let n = steps.len() as int;
            &&& (n == 4 <==> from.spec_white_point() == to.spec_white_point())
            &&& (n == 5 <==> from.spec_white_point() != to.spec_white_point())
            &&& steps[0] == Step::Decode(from)
            &&& steps[1] == Step::LinearToXyz(from)
            &&& steps[n - 2] == Step::XyzToLinear(to)
            &&& steps[n - 1] == Step::Encode(to)
            &&& (from.spec_white_point() != to.spec_white_point() ==> {
                &&& spec_adaptation(
                    from.spec_white_point(),
                    to.spec_white_point(),
                ) matches Some(adaptation)
                &&& steps[2] == Step::Adapt(adaptation)
            })
        }),
{
}

} // verus!

