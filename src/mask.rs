//! Resolution of mask resources, cached by element id.

use std::rc::Rc;
use vstd::prelude::*;

use crate::clippath::cache_grows;
use crate::document::{units_or, Cache, Document, Element, ElementKind, Length, Mask, MaskRegion, Units};
use crate::units::{length_factor_spec, AttributeId, Factor, LengthUnit};

verus! {

/// A declared region length, or the default for `aid`.
pub open spec fn region_length(declared: Option<Length>, aid: AttributeId) -> Length {
    match declared {
        Some(l) => l,
        None => Length {
            number: default_region_length(aid).unwrap().0,
            unit: default_region_length(aid).unwrap().1,
        },
    }
}

/// The region of a mask element: each undeclared side takes its default.
pub open spec fn region_spec(e: Element) -> MaskRegion {
    MaskRegion {
        x: region_length(e.x, AttributeId::X),
        y: region_length(e.y, AttributeId::Y),
        width: region_length(e.width, AttributeId::Width),
        height: region_length(e.height, AttributeId::Height),
    }
}

/// `m` is the mask that element `i` converts to.
pub open spec fn mask_built(doc: Seq<Element>, i: int, m: Mask) -> bool {
    let e = doc[i];
    &&& 0 <= i < doc.len()
    &&& m.id == i
    &&& e.kind == ElementKind::Mask
    &&& m.units == units_or(e.units, Units::ObjectBoundingBox)
    &&& m.content_units == units_or(e.content_units, Units::UserSpaceOnUse)
    &&& m.rect == region_spec(e)
    &&& region_spec(e).is_valid()
    &&& m.content_len == e.content_len
    &&& e.content_len > 0
    &&& m.mask.is_some() == e.link.is_some()
    &&& (m.mask matches Some(l) ==> e.link == Some(l.id))
}

/// Every cached mask is what its element converts to, and links to the mask
/// cached for its link.
pub open spec fn mask_cache_wf(doc: Seq<Element>, cache: Seq<Option<Rc<Mask>>>) -> bool {
    &&& cache.len() == doc.len()
    &&& forall|j: int| 0 <= j < cache.len() && (#[trigger] cache[j]) is Some
        ==> mask_built(doc, j, *cache[j].unwrap())
    &&& forall|j: int| 0 <= j < cache.len() && (#[trigger] cache[j]) is Some
        ==> (cache[j].unwrap().mask matches Some(l) ==> l.id < cache.len() && cache[l.id as int]
        == Some(l))
}

/// Element `i` resolves to a mask, following at most `fuel` links; a longer chain
/// is a cycle and is rejected.
pub open spec fn mask_resolves(
    doc: Seq<Element>,
    cache: Seq<Option<Rc<Mask>>>,
    i: int,
    fuel: nat,
) -> bool
    decreases fuel,
{
    if !(0 <= i < doc.len()) || doc[i].kind != ElementKind::Mask {
        false
    } else if cache[i] is Some {
        true
    } else if fuel == 0 {
        false
    } else {
        &&& region_spec(doc[i]).is_valid()
        &&& doc[i].content_len > 0
        &&& match doc[i].link {
            None => true,
            Some(l) => mask_resolves(doc, cache, l as int, (fuel - 1) as nat),
        }
    }
}

fn region_side(declared: Option<Length>, aid: AttributeId) -> (r: Length)
    requires
        default_region_length(aid) is Some,
    ensures
        r == region_length(declared, aid),
{
    match declared {
        Some(l) => l,
        None => {
            let (number, unit) = default_region(aid).unwrap();
            Length { number, unit }
        },
    }
}

/// Resolving with more fuel keeps a resolution that succeeded.
proof fn lemma_mask_resolves_monotone(
    doc: Seq<Element>,
    cache: Seq<Option<Rc<Mask>>>,
    i: int,
    f: nat,
    g: nat,
)
    requires
        f <= g,
    ensures
        mask_resolves(doc, cache, i, f) ==> mask_resolves(doc, cache, i, g),
    decreases f,
{
    if f > 0 && 0 <= i < doc.len() {
        if let Some(l) = doc[i].link {
            lemma_mask_resolves_monotone(doc, cache, l as int, (f - 1) as nat, (g - 1) as nat);
        }
    }
}

fn convert_with_fuel(doc: &Document, i: usize, cache: &mut Cache, fuel: usize) -> (r: Option<
    Rc<Mask>,
>)
    requires
        mask_cache_wf(doc.elements@, old(cache).masks@),
    ensures
        mask_cache_wf(doc.elements@, final(cache).masks@),
        cache_grows(old(cache).masks@, final(cache).masks@),
        final(cache).clip_paths@ == old(cache).clip_paths@,
        r.is_some() == mask_resolves(doc.elements@, old(cache).masks@, i as int, fuel as nat),
        r matches Some(m) ==> mask_built(doc.elements@, i as int, *m)
            && final(cache).masks@[i as int] == Some(m),
        (i < doc.elements@.len() && old(cache).masks@[i as int] is Some && r is Some) ==> r
            == old(cache).masks@[i as int] && final(cache).masks@ == old(cache).masks@,
        r is None && i < doc.elements@.len() ==> final(cache).masks@[i as int] == old(
            cache,
        ).masks@[i as int],
        !(i < doc.elements@.len() && doc.elements@[i as int].kind == ElementKind::Mask && region_spec(doc.elements@[i as int]).is_valid()) ==> final(cache).masks@ == old(cache).masks@,
        forall|j: int|
            0 <= j < old(cache).masks@.len() && old(cache).masks@[j] is None && (
            #[trigger] final(cache).masks@[j]) is Some ==> mask_resolves(
                doc.elements@,
                old(cache).masks@,
                j,
                fuel as nat,
            ),
        r matches Some(m) ==> (m.mask matches Some(l) ==> final(cache).masks@[l.id as int] == Some(
            l,
        )),
    decreases fuel,
{
    if i >= doc.elements.len() {
        return None;
    }
    let e = doc.elements[i];
    // A reference must name a mask element.
    if e.kind != ElementKind::Mask {
        return None;
    }
    if let Some(m) = &cache.masks[i] {
        return Some(Rc::clone(m));
    }
    if fuel == 0 {
        return None;
    }
    let units = match e.units {
        Some(u) => u,
        None => Units::ObjectBoundingBox,
    };
    let content_units = match e.content_units {
        Some(u) => u,
        None => Units::UserSpaceOnUse,
    };
    let rect = MaskRegion {
        x: region_side(e.x, AttributeId::X),
        y: region_side(e.y, AttributeId::Y),
        width: region_side(e.width, AttributeId::Width),
        height: region_side(e.height, AttributeId::Height),
    };
    if rect.width.number <= 0 || rect.height.number <= 0 {
        return None;
    }
    let mut link: Option<Rc<Mask>> = None;
    if let Some(l) = e.link {
        link = convert_with_fuel(doc, l, cache, fuel - 1);
        // A linked mask must be valid.
        if link.is_none() {
            proof {
                if cache.masks@[i as int] is Some {
                    assert(mask_resolves(doc.elements@, old(cache).masks@, i as int, (fuel - 1) as nat));
                    lemma_mask_resolves_monotone(
                        doc.elements@,
                        old(cache).masks@,
                        l as int,
                        (fuel - 2) as nat,
                        (fuel - 1) as nat,
                    );
                }
            }
            assert forall|j: int|
                0 <= j < old(cache).masks@.len() && old(cache).masks@[j] is None && (
                #[trigger] cache.masks@[j]) is Some implies mask_resolves(
                doc.elements@,
                old(cache).masks@,
                j,
                fuel as nat,
            ) by {
                lemma_mask_resolves_monotone(doc.elements@, old(cache).masks@, j, (fuel - 1) as nat, fuel as nat);
            }
            return None;
        }
    }
    assert forall|j: int|
        0 <= j < old(cache).masks@.len() && old(cache).masks@[j] is None && (
        #[trigger] cache.masks@[j]) is Some implies mask_resolves(
        doc.elements@,
        old(cache).masks@,
        j,
        fuel as nat,
    ) by {
        lemma_mask_resolves_monotone(doc.elements@, old(cache).masks@, j, (fuel - 1) as nat, fuel as nat);
    }
    // A mask without content is rejected; its link stays cached.
    if e.content_len == 0 {
        proof {
            if cache.masks@[i as int] is Some {
                assert(mask_resolves(doc.elements@, old(cache).masks@, i as int, (fuel - 1) as nat));
            }
        }
        return None;
    }
    if let Some(m) = &cache.masks[i] {
        return Some(Rc::clone(m));
    }
    let mask = Rc::new(
        Mask { id: i, units, content_units, rect, mask: link, content_len: e.content_len },
    );
    let ghost before = cache.masks@;
    cache.masks.set(i, Some(Rc::clone(&mask)));
    assert forall|j: int| 0 <= j < cache.masks@.len() && (#[trigger] cache.masks@[j]) is Some
        implies (cache.masks@[j].unwrap().mask matches Some(l) ==> l.id < cache.masks@.len()
        && cache.masks@[l.id as int] == Some(l)) by {
        if j == i {
            if let Some(lm) = mask.mask {
                assert(before[lm.id as int] == Some(lm));
                assert(before[i as int] is None);
            }
        } else {
            assert(before[j] is Some);
            let c = before[j].unwrap();
            if let Some(l) = c.mask {
                assert(before[l.id as int] == Some(l));
                assert(before[i as int] is None);
            }
        }
    }
    assert forall|j: int|
        0 <= j < old(cache).masks@.len() && old(cache).masks@[j] is None && (
        #[trigger] cache.masks@[j]) is Some implies mask_resolves(
        doc.elements@,
        old(cache).masks@,
        j,
        fuel as nat,
    ) by {
        if j != i {
            lemma_mask_resolves_monotone(doc.elements@, old(cache).masks@, j, (fuel - 1) as nat, fuel as nat);
        }
    }
    Some(mask)
}

/// Converts the mask element `i`, reusing the cached resource when it was
/// converted before. Each undeclared region side takes its default. Absent when
/// the element is not a mask, its region is degenerate, its linked mask does not
/// resolve (a cycle never does), or it has no content. A rejected mask is not
/// cached; one rejected before its link is resolved leaves the whole cache as it
/// was.
pub fn convert(doc: &Document, i: usize, cache: &mut Cache) -> (r: Option<Rc<Mask>>)
    requires
        mask_cache_wf(doc.elements@, old(cache).masks@),
    ensures
        mask_cache_wf(doc.elements@, final(cache).masks@),
        cache_grows(old(cache).masks@, final(cache).masks@),
        final(cache).clip_paths@ == old(cache).clip_paths@,
        r.is_some() == mask_resolves(
            doc.elements@,
            old(cache).masks@,
            i as int,
            doc.elements@.len() as nat,
        ),
        r matches Some(m) ==> mask_built(doc.elements@, i as int, *m)
            && final(cache).masks@[i as int] == Some(m),
        (i < doc.elements@.len() && old(cache).masks@[i as int] is Some && r is Some) ==> r
            == old(cache).masks@[i as int] && final(cache).masks@ == old(cache).masks@,
        r is None && i < doc.elements@.len() ==> final(cache).masks@[i as int] == old(
            cache,
        ).masks@[i as int],
        !(i < doc.elements@.len() && doc.elements@[i as int].kind == ElementKind::Mask && region_spec(doc.elements@[i as int]).is_valid()) ==> final(cache).masks@ == old(cache).masks@,
        r matches Some(m) ==> (m.mask matches Some(l) ==> final(cache).masks@[l.id as int] == Some(
            l,
        )),
{
    convert_with_fuel(doc, i, cache, doc.elements.len())
}

/// A cached mask resolves again whatever the fuel, so a second reference to the
/// same id gets the cached resource back and the cache stays as it was.
pub proof fn lemma_cached_mask_reused(
    doc: Seq<Element>,
    cache: Seq<Option<Rc<Mask>>>,
    i: int,
    fuel: nat,
)
    requires
        mask_cache_wf(doc, cache),
        0 <= i < doc.len(),
        cache[i] is Some,
    ensures
        mask_resolves(doc, cache, i, fuel),
{
    assert(mask_built(doc, i, *cache[i].unwrap()));
}

/// A mask that links to itself never resolves, and resolving it ends.
pub proof fn lemma_self_linked_mask_rejected(
    doc: Seq<Element>,
    cache: Seq<Option<Rc<Mask>>>,
    i: usize,
    fuel: nat,
)
    requires
        cache.len() == doc.len(),
        i < doc.len(),
        doc[i as int].link == Some(i),
        cache[i as int] is None,
    ensures
        !mask_resolves(doc, cache, i as int, fuel),
    decreases fuel,
{
    if fuel > 0 {
        lemma_self_linked_mask_rejected(doc, cache, i, (fuel - 1) as nat);
    }
}

/// The length a mask region attribute takes when it is not declared.
pub open spec fn default_region_length(aid: AttributeId) -> Option<(i32, LengthUnit)> {
    match aid {
        AttributeId::X | AttributeId::Y => Some((-2560i32, LengthUnit::Percent)),
        AttributeId::Width | AttributeId::Height => Some((30720i32, LengthUnit::Percent)),
        _ => None,
    }
}

/// The length that the undeclared region attribute `aid` of a mask stands for:
/// `-10%` for `x` and `y`, `120%` for `width` and `height`, in steps of 1/256.
pub fn default_region(aid: AttributeId) -> (r: Option<(i32, LengthUnit)>)
    ensures
        r == default_region_length(aid),
{
    match aid {
        AttributeId::X | AttributeId::Y => Some((-2560, LengthUnit::Percent)),
        AttributeId::Width | AttributeId::Height => Some((30720, LengthUnit::Percent)),
        _ => None,
    }
}

/// A mask element without `x`, `y`, `width` and `height` has the region
/// `(-10%, -10%, 120%, 120%)` (in steps of 1/256), which is valid; in bounding-box units a percentage
/// is a hundredth of the box, so the region is the box grown by a tenth of its
/// size on each side.
pub proof fn lemma_default_mask_region(e: Element)
    requires
        e.x is None,
        e.y is None,
        e.width is None,
        e.height is None,
    ensures
        region_spec(e) == (MaskRegion {
            x: Length { number: -2560i32, unit: LengthUnit::Percent },
            y: Length { number: -2560i32, unit: LengthUnit::Percent },
            width: Length { number: 30720i32, unit: LengthUnit::Percent },
            height: Length { number: 30720i32, unit: LengthUnit::Percent },
        }),
        region_spec(e).is_valid(),
        forall|aid: AttributeId|
            length_factor_spec(LengthUnit::Percent, aid, Units::ObjectBoundingBox)
                == Factor::Hundredth,
{
}

} // verus!
