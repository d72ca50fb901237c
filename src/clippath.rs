//! Resolution of clip-path resources, cached by element id.

use std::rc::Rc;
use vstd::prelude::*;

use crate::document::{units_or, Cache, ClipPath, Document, Element, ElementKind, Transform, TransformAttr, Units};

verus! {

/// The transform a resource uses: identity when absent, none when it cannot be
/// parsed or scales an axis to zero.
pub open spec fn transform_spec(attr: TransformAttr) -> Option<Transform> {
    match attr {
        TransformAttr::Absent => Some(Transform::identity_spec()),
        TransformAttr::Unparsable => None,
        TransformAttr::Parsed(t) => if t.zero_scale_x() || t.zero_scale_y() {
            None
        } else {
            Some(t)
        },
    }
}

/// `c` is the clip path that element `i` converts to.
pub open spec fn clip_built(doc: Seq<Element>, i: int, c: ClipPath) -> bool {
    let e = doc[i];
    &&& 0 <= i < doc.len()
    &&& c.id == i
    &&& e.kind == ElementKind::ClipPath
    &&& transform_spec(e.transform) == Some(c.transform)
    &&& c.units == units_or(e.units, Units::ObjectBoundingBox)
    &&& c.content_len == e.content_len
    &&& e.content_len > 0
    &&& c.clip_path.is_some() == e.link.is_some()
    &&& (c.clip_path matches Some(l) ==> e.link == Some(l.id))
}

/// Every cached clip path is what its element converts to, and links to the clip
/// path cached for its link.
pub open spec fn clip_cache_wf(doc: Seq<Element>, cache: Seq<Option<Rc<ClipPath>>>) -> bool {
    &&& cache.len() == doc.len()
    &&& forall|j: int| 0 <= j < cache.len() && (#[trigger] cache[j]) is Some
        ==> clip_built(doc, j, *cache[j].unwrap())
    &&& forall|j: int| 0 <= j < cache.len() && (#[trigger] cache[j]) is Some
        ==> (cache[j].unwrap().clip_path matches Some(l) ==> l.id < cache.len() && cache[l.id as int]
        == Some(l))
}

/// Element `i` resolves to a clip path, following at most `fuel` links. A chain of
/// links longer than the document revisits an element: it is a cycle, rejected.
pub open spec fn clip_resolves(
    doc: Seq<Element>,
    cache: Seq<Option<Rc<ClipPath>>>,
    i: int,
    fuel: nat,
) -> bool
    decreases fuel,
{
    if !(0 <= i < doc.len()) || doc[i].kind != ElementKind::ClipPath
        || transform_spec(doc[i].transform) is None {
        false
    } else if cache[i] is Some {
        true
    } else if fuel == 0 {
        false
    } else {
        &&& doc[i].content_len > 0
        &&& match doc[i].link {
            None => true,
            Some(l) => clip_resolves(doc, cache, l as int, (fuel - 1) as nat),
        }
    }
}

/// Entries already cached stay as they are.
pub open spec fn cache_grows<T>(old: Seq<Option<Rc<T>>>, new: Seq<Option<Rc<T>>>) -> bool {
    &&& new.len() == old.len()
    &&& forall|j: int| 0 <= j < old.len() && (#[trigger] old[j]) is Some ==> new[j] == old[j]
}

/// Resolves a `transform` attribute of a resource.
pub fn resolve_transform(attr: &TransformAttr) -> (r: Option<Transform>)
    ensures
        r == transform_spec(*attr),
{
    match attr {
        TransformAttr::Absent => Some(Transform::identity()),
        TransformAttr::Unparsable => None,
        TransformAttr::Parsed(t) => {
            if (t.a == 0 && t.c == 0) || (t.b == 0 && t.d == 0) {
                None
            } else {
                Some(*t)
            }
        },
    }
}

/// Resolving with more fuel keeps a resolution that succeeded.
proof fn lemma_clip_resolves_monotone(
    doc: Seq<Element>,
    cache: Seq<Option<Rc<ClipPath>>>,
    i: int,
    f: nat,
    g: nat,
)
    requires
        f <= g,
    ensures
        clip_resolves(doc, cache, i, f) ==> clip_resolves(doc, cache, i, g),
    decreases f,
{
    if f > 0 && 0 <= i < doc.len() {
        if let Some(l) = doc[i].link {
            lemma_clip_resolves_monotone(doc, cache, l as int, (f - 1) as nat, (g - 1) as nat);
        }
    }
}

fn convert_with_fuel(doc: &Document, i: usize, cache: &mut Cache, fuel: usize) -> (r: Option<
    Rc<ClipPath>,
>)
    requires
        clip_cache_wf(doc.elements@, old(cache).clip_paths@),
    ensures
        clip_cache_wf(doc.elements@, final(cache).clip_paths@),
        cache_grows(old(cache).clip_paths@, final(cache).clip_paths@),
        final(cache).masks@ == old(cache).masks@,
        r.is_some() == clip_resolves(doc.elements@, old(cache).clip_paths@, i as int, fuel as nat),
        r matches Some(c) ==> clip_built(doc.elements@, i as int, *c)
            && final(cache).clip_paths@[i as int] == Some(c),
        (i < doc.elements@.len() && old(cache).clip_paths@[i as int] is Some && r is Some) ==> r
            == old(cache).clip_paths@[i as int] && final(cache).clip_paths@ == old(cache).clip_paths@,
        r is None && i < doc.elements@.len() ==> final(cache).clip_paths@[i as int] == old(
            cache,
        ).clip_paths@[i as int],
        !(i < doc.elements@.len() && doc.elements@[i as int].kind == ElementKind::ClipPath && transform_spec(doc.elements@[i as int].transform) is Some) ==> final(cache).clip_paths@ == old(cache).clip_paths@,
        forall|j: int|
            0 <= j < old(cache).clip_paths@.len() && old(cache).clip_paths@[j] is None && (
            #[trigger] final(cache).clip_paths@[j]) is Some ==> clip_resolves(
                doc.elements@,
                old(cache).clip_paths@,
                j,
                fuel as nat,
            ),
        r matches Some(c) ==> (c.clip_path matches Some(l) ==> final(cache).clip_paths@[l.id as int]
            == Some(l)),
    decreases fuel,
{
    if i >= doc.elements.len() {
        return None;
    }
    let e = doc.elements[i];
    // A reference must name a clip-path element.
    if e.kind != ElementKind::ClipPath {
        return None;
    }
    // An invalid transform discards the whole clip path.
    let transform = match resolve_transform(&e.transform) {
        Some(t) => t,
        None => return None,
    };
    if let Some(c) = &cache.clip_paths[i] {
        return Some(Rc::clone(c));
    }
    if fuel == 0 {
        return None;
    }
    let mut link: Option<Rc<ClipPath>> = None;
    if let Some(l) = e.link {
        link = convert_with_fuel(doc, l, cache, fuel - 1);
        // A linked clip path must be valid.
        if link.is_none() {
            proof {
                if cache.clip_paths@[i as int] is Some {
                    assert(clip_resolves(doc.elements@, old(cache).clip_paths@, i as int, (fuel - 1) as nat));
                    lemma_clip_resolves_monotone(
                        doc.elements@,
                        old(cache).clip_paths@,
                        l as int,
                        (fuel - 2) as nat,
                        (fuel - 1) as nat,
                    );
                }
            }
            assert forall|j: int|
                0 <= j < old(cache).clip_paths@.len() && old(cache).clip_paths@[j] is None && (
                #[trigger] cache.clip_paths@[j]) is Some implies clip_resolves(
                doc.elements@,
                old(cache).clip_paths@,
                j,
                fuel as nat,
            ) by {
                lemma_clip_resolves_monotone(doc.elements@, old(cache).clip_paths@, j, (fuel - 1) as nat, fuel as nat);
            }
            return None;
        }
    }
    assert forall|j: int|
        0 <= j < old(cache).clip_paths@.len() && old(cache).clip_paths@[j] is None && (
        #[trigger] cache.clip_paths@[j]) is Some implies clip_resolves(
        doc.elements@,
        old(cache).clip_paths@,
        j,
        fuel as nat,
    ) by {
        lemma_clip_resolves_monotone(doc.elements@, old(cache).clip_paths@, j, (fuel - 1) as nat, fuel as nat);
    }
    // A clip path without content is rejected; its link stays cached.
    if e.content_len == 0 {
        proof {
            if cache.clip_paths@[i as int] is Some {
                assert(clip_resolves(doc.elements@, old(cache).clip_paths@, i as int, (fuel - 1) as nat));
            }
        }
        return None;
    }
    if let Some(c) = &cache.clip_paths[i] {
        return Some(Rc::clone(c));
    }
    let units = match e.units {
        Some(u) => u,
        None => Units::ObjectBoundingBox,
    };
    let clip = Rc::new(
        ClipPath { id: i, units, transform, clip_path: link, content_len: e.content_len },
    );
    let ghost before = cache.clip_paths@;
    cache.clip_paths.set(i, Some(Rc::clone(&clip)));
    assert forall|j: int| 0 <= j < cache.clip_paths@.len() && (#[trigger] cache.clip_paths@[j]) is Some
        implies (cache.clip_paths@[j].unwrap().clip_path matches Some(l) ==> l.id
        < cache.clip_paths@.len() && cache.clip_paths@[l.id as int] == Some(l)) by {
        if j == i {
            if let Some(lc) = clip.clip_path {
                assert(before[lc.id as int] == Some(lc));
                assert(before[i as int] is None);
            }
        } else {
            assert(before[j] is Some);
            let c = before[j].unwrap();
            if let Some(l) = c.clip_path {
                assert(before[l.id as int] == Some(l));
                assert(before[i as int] is None);
            }
        }
    }
    assert forall|j: int|
        0 <= j < old(cache).clip_paths@.len() && old(cache).clip_paths@[j] is None && (
        #[trigger] cache.clip_paths@[j]) is Some implies clip_resolves(
        doc.elements@,
        old(cache).clip_paths@,
        j,
        fuel as nat,
    ) by {
        if j != i {
            lemma_clip_resolves_monotone(doc.elements@, old(cache).clip_paths@, j, (fuel - 1) as nat, fuel as nat);
        }
    }
    Some(clip)
}

/// Converts the clip-path element `i`, reusing the cached resource when it was
/// converted before. Absent when the element is not a clip path, its transform is
/// invalid, its linked clip path does not resolve (a cycle never does), or it has
/// no content. A rejected clip path is not cached; one rejected before its link is
/// resolved leaves the whole cache as it was.
pub fn convert(doc: &Document, i: usize, cache: &mut Cache) -> (r: Option<Rc<ClipPath>>)
    requires
        clip_cache_wf(doc.elements@, old(cache).clip_paths@),
    ensures
        clip_cache_wf(doc.elements@, final(cache).clip_paths@),
        cache_grows(old(cache).clip_paths@, final(cache).clip_paths@),
        final(cache).masks@ == old(cache).masks@,
        r.is_some() == clip_resolves(
            doc.elements@,
            old(cache).clip_paths@,
            i as int,
            doc.elements@.len() as nat,
        ),
        r matches Some(c) ==> clip_built(doc.elements@, i as int, *c)
            && final(cache).clip_paths@[i as int] == Some(c),
        (i < doc.elements@.len() && old(cache).clip_paths@[i as int] is Some && r is Some) ==> r
            == old(cache).clip_paths@[i as int] && final(cache).clip_paths@ == old(cache).clip_paths@,
        r is None && i < doc.elements@.len() ==> final(cache).clip_paths@[i as int] == old(
            cache,
        ).clip_paths@[i as int],
        !(i < doc.elements@.len() && doc.elements@[i as int].kind == ElementKind::ClipPath && transform_spec(doc.elements@[i as int].transform) is Some) ==> final(cache).clip_paths@ == old(cache).clip_paths@,
        r matches Some(c) ==> (c.clip_path matches Some(l) ==> final(cache).clip_paths@[l.id as int]
            == Some(l)),
{
    convert_with_fuel(doc, i, cache, doc.elements.len())
}

/// A cached clip path resolves again whatever the fuel, so a second reference to
/// the same id gets the cached resource back and the cache stays as it was: within
/// one pass an id is converted once and its resource is shared.
pub proof fn lemma_cached_clip_path_reused(
    doc: Seq<Element>,
    cache: Seq<Option<Rc<ClipPath>>>,
    i: int,
    fuel: nat,
)
    requires
        clip_cache_wf(doc, cache),
        0 <= i < doc.len(),
        cache[i] is Some,
    ensures
        clip_resolves(doc, cache, i, fuel),
{
    assert(clip_built(doc, i, *cache[i].unwrap()));
}

/// A clip path that links to itself never resolves, and resolving it ends.
pub proof fn lemma_self_linked_clip_path_rejected(
    doc: Seq<Element>,
    cache: Seq<Option<Rc<ClipPath>>>,
    i: usize,
    fuel: nat,
)
    requires
        cache.len() == doc.len(),
        i < doc.len(),
        doc[i as int].link == Some(i),
        cache[i as int] is None,
    ensures
        !clip_resolves(doc, cache, i as int, fuel),
    decreases fuel,
{
    if fuel > 0 {
        lemma_self_linked_clip_path_rejected(doc, cache, i, (fuel - 1) as nat);
    }
}

} // verus!
