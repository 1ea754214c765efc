//! Annotation-selection policies: which of a type's or a field's parsed
//! annotation blocks decides each value.
//!
//! Type-level blocks are folded in source order and, per key, the last
//! block that sets the key wins. Field-level blocks are scanned in source
//! order and the first block that parsed successfully wins; blocks that
//! failed to parse are skipped silently.

use vstd::prelude::*;
use crate::model::{no_roles, opt_view, FieldRoles, NameOverride, StructAnnotations, StructBlock};

verus! {

/// The literal value and source location of an optional name override.
pub open spec fn override_view(o: Option<NameOverride>) -> Option<(Seq<char>, usize)> {
    match o {
        Some(nv) => Some((nv.value@, nv.span)),
        None => None,
    }
}

/// The index-name override that wins across a type's annotation blocks:
/// among the blocks that set one, the last in source order.
pub open spec fn last_index_name(s: Seq<StructBlock>) -> Option<(Seq<char>, usize)>
    decreases s.len(),
{
    if s.len() == 0 {
        None
    } else if s.last().index_name is Some {
        override_view(s.last().index_name)
    } else {
        last_index_name(s.drop_last())
    }
}

/// The pagination value that wins across a type's annotation blocks:
/// among the blocks that set one, the last in source order.
pub open spec fn last_max_total_hits(s: Seq<StructBlock>) -> Option<Seq<char>>
    decreases s.len(),
{
    if s.len() == 0 {
        None
    } else if s.last().max_total_hits is Some {
        opt_view(s.last().max_total_hits)
    } else {
        last_max_total_hits(s.drop_last())
    }
}

/// The role set a field's annotation blocks select: the first block that
/// parsed successfully; with none, every flag off.
pub open spec fn selected_roles(s: Seq<Option<FieldRoles>>) -> FieldRoles
    decreases s.len(),
{
    if s.len() == 0 {
        no_roles()
    } else {
        match s.first() {
            Some(r) => r,
            None => selected_roles(s.drop_first()),
        }
    }
}

/// Folds a type's annotation blocks into one StructAnnotations value:
/// later blocks overwrite earlier ones key by key.
pub fn fold_struct_annotations(blocks: &Vec<StructBlock>) -> (r: StructAnnotations)
    ensures
        override_view(r.index_name) == last_index_name(blocks@),
        opt_view(r.max_total_hits) == last_max_total_hits(blocks@),
{
    let mut index_name: Option<NameOverride> = None;
    let mut max_total_hits: Option<String> = None;
    let mut i: usize = 0;
    while i < blocks.len()
        invariant
            i <= blocks.len(),
            override_view(index_name) == last_index_name(blocks@.take(i as int)),
            opt_view(max_total_hits) == last_max_total_hits(blocks@.take(i as int)),
        decreases blocks.len() - i,
    {
        let b = &blocks[i];
        if let Some(nv) = &b.index_name {
            index_name = Some(NameOverride { value: nv.value.clone(), span: nv.span });
        }
        if let Some(h) = &b.max_total_hits {
            max_total_hits = Some(h.clone());
        }
        proof {
            assert(blocks@.take(i as int + 1).drop_last() =~= blocks@.take(i as int));
            assert(blocks@.take(i as int + 1).last() == blocks@[i as int]);
        }
        i = i + 1;
    }
    proof {
        assert(blocks@.take(blocks@.len() as int) =~= blocks@);
    }
    StructAnnotations { index_name, max_total_hits }
}

/// Picks a field's role set from its annotation blocks: the first one that
/// parsed successfully wins.
pub fn select_roles(blocks: &Vec<Option<FieldRoles>>) -> (r: FieldRoles)
    ensures
        r == selected_roles(blocks@),
{
    proof {
        assert(blocks@.skip(0) =~= blocks@);
    }
    let mut i: usize = 0;
    while i < blocks.len()
        invariant
            i <= blocks.len(),
            selected_roles(blocks@) == selected_roles(blocks@.skip(i as int)),
        decreases blocks.len() - i,
    {
        proof {
            assert(blocks@.skip(i as int).first() == blocks@[i as int]);
            assert(blocks@.skip(i as int).drop_first() =~= blocks@.skip(i as int + 1));
        }
        if let Some(r) = blocks[i] {
            return r;
        }
        i = i + 1;
    }
    FieldRoles::default()
}

} // verus!
