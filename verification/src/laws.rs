//! Laws of the compiler, stated and proved over the specification
//! functions that the executable contracts are pinned to.

use vstd::prelude::*;
use crate::scalar::{Scalar, rat_mul, rat_sub, rat_eq, rat_lt};
use crate::geom::Transform;
use crate::attrs::Attrs;
use crate::paint::Paint;
use crate::item::{Item, spec_lookup};
use crate::options::{DrawOptions, spec_apply, spec_resolve_paint};
use crate::scene::SceneV;
use crate::draw::{spec_draw_outline, spec_clip_apply};
use crate::outline::ContourV;
use crate::error::Error;
use crate::text::spec_layout_runs;

verus! {

/// Cascade opacity composes multiplicatively: a child's effective opacity
/// is its own opacity attribute times the inherited cumulative opacity,
/// never a replacement.
pub proof fn lemma_cascade_opacity(parent: DrawOptions, attrs: Attrs)
    ensures
        spec_apply(parent, attrs).opacity == rat_mul(
            parent.opacity,
            match attrs.opacity {
                Some(o) => o,
                None => Scalar { num: 1, den: 1 },
            },
        ),
{
}

/// Cascade inheritance: a child with no fill attribute keeps the parent's
/// resolved fill paint unchanged; an explicit fill attribute overrides it.
pub proof fn lemma_cascade_fill(parent: DrawOptions, attrs: Attrs)
    ensures
        attrs.fill is None ==> spec_apply(parent, attrs).fill == parent.fill,
        attrs.fill matches Some(p) ==> spec_apply(parent, attrs).fill == p,
{
}

/// An explicit fill override persists through descendants that do not
/// override it further.
pub proof fn lemma_cascade_fill_persists(
    parent: DrawOptions,
    own: Attrs,
    child: Attrs,
    p: Paint,
)
    requires
        own.fill == Some(p),
        child.fill is None,
    ensures
        spec_apply(spec_apply(parent, own), child).fill == p,
{
}

/// A fill reference to an id absent from the registry resolves to "not
/// drawn": no paint and no draw operation is emitted for that channel, and
/// the scene is otherwise untouched, so sibling drawing goes on.
pub proof fn lemma_missing_fill_ref_not_drawn(
    scene: SceneV,
    outline: Seq<ContourV>,
    o: DrawOptions,
    named: Seq<(String, Item)>,
    id: String,
)
    requires
        o.fill == Paint::Ref(id),
        spec_lookup(named, id@) is None,
        o.stroke is Absent,
        o.clip_path is Absent,
    ensures
        spec_draw_outline(scene, outline, o, named) == Ok::<SceneV, Error>(scene),
{
    assert(spec_resolve_paint(named, o.fill, o.fill_opacity, o) is None);
    assert(spec_resolve_paint(named, o.stroke, o.stroke_opacity, o) is None);
}

/// Determinism: composing the same document twice with the same transform
/// yields the same scene, bit for bit.
pub proof fn lemma_compose_deterministic(
    svg: crate::item::Svg,
    transform: Transform,
    s1: SceneV,
    s2: SceneV,
)
    requires
        crate::spec_compose(svg, transform) == Ok::<SceneV, Error>(s1),
        crate::spec_compose(svg, transform) == Ok::<SceneV, Error>(s2),
    ensures
        s1 == s2,
{
}

/// Fill beneath stroke: when both a fill and a stroke resolve and the
/// stroke width is positive, drawing emits exactly two operations, the fill
/// first and the stroke second.
pub proof fn lemma_fill_precedes_stroke(
    scene: SceneV,
    outline: Seq<ContourV>,
    o: DrawOptions,
    named: Seq<(String, Item)>,
    s2: SceneV,
)
    requires
        o.clip_path is Absent,
        spec_resolve_paint(named, o.fill, o.fill_opacity, o) is Some,
        spec_resolve_paint(named, o.stroke, o.stroke_opacity, o) is Some,
        rat_lt(Scalar { num: 0, den: 1 }, o.stroke_style.line_width),
        spec_draw_outline(scene, outline, o, named) == Ok::<SceneV, Error>(s2),
    ensures
        s2.draws.len() == scene.draws.len() + 2,
        s2.draws[scene.draws.len() as int] is Fill,
        s2.draws[scene.draws.len() as int + 1] is Stroke,
{
    assert(spec_clip_apply(scene, o, named) == Ok::<(SceneV, Option<usize>), Error>(
        (scene, None::<usize>)));
}

/// Single-run placement: a lone left-to-right run is placed at offset zero
/// and the chunk's total advance is the run's advance; a lone right-to-left
/// run is placed at minus its advance, which is also the total advance.
pub proof fn lemma_layout_single_run(run: (u8, usize, usize), adv: Scalar)
    requires
        adv.wf(),
    ensures
        run.0 % 2 == 0 ==> spec_layout_runs(seq![run], seq![adv]).0 =~= seq![
            (run.1, Scalar { num: 0, den: 1 })],
        run.0 % 2 == 0 ==> spec_layout_runs(seq![run], seq![adv]).1 == adv,
        run.0 % 2 == 1 ==> spec_layout_runs(seq![run], seq![adv]).0 =~= seq![
            (run.1, rat_sub(Scalar { num: 0, den: 1 }, adv))],
        run.0 % 2 == 1 ==> spec_layout_runs(seq![run], seq![adv]).1 == rat_sub(
            Scalar { num: 0, den: 1 }, adv),
{
    let runs = seq![run];
    let advances = seq![adv];
    assert(runs.drop_last() =~= Seq::<(u8, usize, usize)>::empty());
    assert(advances.drop_last() =~= Seq::<Scalar>::empty());
    assert(spec_layout_runs(runs.drop_last(), advances.drop_last()).1 == (Scalar {
        num: 0,
        den: 1,
    }));
    assert(spec_layout_runs(runs.drop_last(), advances.drop_last()).0
        =~= Seq::<(usize, Scalar)>::empty());
    if run.0 % 2 == 0 {
        assert(spec_layout_runs(runs, advances).1 == crate::scalar::rat_add(
            Scalar { num: 0, den: 1 }, adv));
        assert(crate::scalar::rat_add(Scalar { num: 0, den: 1 }, adv) == adv) by {
            assert(0 * adv.den + adv.num * 1 == adv.num);
            assert(1 * adv.den == adv.den);
        }
    }
}

} // verus!
