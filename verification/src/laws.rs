//! Laws of the pipeline, stated and proved over the spec functions the
//! public contracts use.

use vstd::prelude::*;
use crate::attrs::selected_roles;
use crate::builder::{candidate_name, descriptor_of, scan_fields};
use crate::emit::{settings_of, SettingsCallV};
use crate::model::{ConfigDescriptorV, ConfigError, DupRole, FieldInput, ItemShape, TypeInput};
use crate::naming::valid_name;

verus! {

/// Whether a field carries the given unique role.
pub open spec fn role_flag(f: FieldInput, role: DupRole) -> bool {
    match role {
        DupRole::PrimaryKey => selected_roles(f.blocks@).primary_key,
        DupRole::Distinct => selected_roles(f.blocks@).distinct,
    }
}

/// How many fields carry the given unique role.
pub open spec fn count_role(s: Seq<FieldInput>, role: DupRole) -> nat
    decreases s.len(),
{
    if s.len() == 0 {
        0
    } else {
        count_role(s.drop_last(), role) + if role_flag(s.last(), role) {
            1nat
        } else {
            0nat
        }
    }
}

/// The name of the first field, in declaration order, that carries the
/// given unique role.
pub open spec fn first_role_name(s: Seq<FieldInput>, role: DupRole) -> Option<Seq<char>>
    decreases s.len(),
{
    if s.len() == 0 {
        None
    } else {
        match first_role_name(s.drop_last(), role) {
            Some(n) => Some(n),
            None => if role_flag(s.last(), role) {
                Some(s.last().name@)
            } else {
                None
            },
        }
    }
}

/// A first carrier of a role exists exactly when some field carries it.
pub proof fn lemma_first_role_name_some(s: Seq<FieldInput>, role: DupRole)
    ensures
        first_role_name(s, role) is Some <==> count_role(s, role) >= 1,
    decreases s.len(),
{
    if s.len() > 0 {
        lemma_first_role_name_some(s.drop_last(), role);
    }
}

/// The first carrier of a role is one of the fields that carry it.
pub proof fn lemma_first_role_name_is_carried(s: Seq<FieldInput>, role: DupRole)
    ensures
        first_role_name(s, role) matches Some(n) ==> exists|i: int|
            0 <= i < s.len() && role_flag(s[i], role) && s[i].name@ == n,
    decreases s.len(),
{
    if s.len() > 0 {
        lemma_first_role_name_is_carried(s.drop_last(), role);
        if first_role_name(s, role) is Some {
            match first_role_name(s.drop_last(), role) {
                Some(n) => {
                    let i = choose|i: int|
                        0 <= i < s.drop_last().len() && role_flag(s.drop_last()[i], role)
                            && s.drop_last()[i].name@ == n;
                    assert(s[i] == s.drop_last()[i]);
                },
                None => {
                    assert(s[s.len() - 1] == s.last());
                },
            }
        }
    }
}

/// The uniqueness law of primaryKey and distinct: the field scan succeeds
/// exactly when each unique role is carried by at most one field; then the
/// recorded carrier is the first (and only) field that carries the role,
/// and is absent when none does; with two or more carriers the scan fails
/// with a duplicate-role diagnostic.
pub proof fn lemma_unique_roles(s: Seq<FieldInput>)
    ensures
        scan_fields(s) is Ok <==> (count_role(s, DupRole::PrimaryKey) <= 1 && count_role(
            s,
            DupRole::Distinct,
        ) <= 1),
        scan_fields(s) matches Ok(p) ==> p.primary_key_field == first_role_name(
            s,
            DupRole::PrimaryKey,
        ) && p.distinct_field == first_role_name(s, DupRole::Distinct),
        scan_fields(s) matches Err(e) ==> e is DuplicateRole,
    decreases s.len(),
{
    if s.len() > 0 {
        lemma_unique_roles(s.drop_last());
        lemma_first_role_name_some(s.drop_last(), DupRole::PrimaryKey);
        lemma_first_role_name_some(s.drop_last(), DupRole::Distinct);
    }
}

/// The uniqueness law at the pipeline level: for a named-fields item whose
/// resolved index name is valid, the pipeline succeeds exactly when at
/// most one field claims primaryKey and at most one claims distinct; then
/// the descriptor records as primaryKeyField the name of the one field
/// that claims it, or nothing when none does, and likewise for
/// distinctField; with two or more claims the pipeline fails with a
/// duplicate-role diagnostic.
pub proof fn lemma_unique_roles_of_pipeline(t: TypeInput)
    requires
        t.shape == ItemShape::NamedFields,
        valid_name(candidate_name(t).0),
    ensures
        descriptor_of(t) is Ok <==> (count_role(t.fields@, DupRole::PrimaryKey) <= 1 && count_role(
            t.fields@,
            DupRole::Distinct,
        ) <= 1),
        descriptor_of(t) matches Ok(d) ==> d.primary_key_field == first_role_name(
            t.fields@,
            DupRole::PrimaryKey,
        ) && d.distinct_field == first_role_name(t.fields@, DupRole::Distinct),
        descriptor_of(t) matches Err(e) ==> e is DuplicateRole,
{
    lemma_unique_roles(t.fields@);
}

/// Whether a field carries the flag of the given field group.
pub open spec fn list_flag(f: FieldInput, group: ListGroup) -> bool {
    match group {
        ListGroup::Displayed => selected_roles(f.blocks@).displayed,
        ListGroup::Searchable => selected_roles(f.blocks@).searchable,
        ListGroup::Filterable => selected_roles(f.blocks@).filterable,
        ListGroup::Sortable => selected_roles(f.blocks@).sortable,
    }
}

/// One of the four field groups.
#[derive(Clone, Copy, Debug, PartialEq, Eq, Structural)]
pub enum ListGroup {
    Displayed,
    Searchable,
    Filterable,
    Sortable,
}

/// The names of the fields that carry the given group's flag, in
/// declaration order.
pub open spec fn group_names(s: Seq<FieldInput>, group: ListGroup) -> Seq<Seq<char>>
    decreases s.len(),
{
    if s.len() == 0 {
        Seq::empty()
    } else {
        let rest = group_names(s.drop_last(), group);
        if list_flag(s.last(), group) {
            rest.push(s.last().name@)
        } else {
            rest
        }
    }
}

/// The group sequences the scan accumulates are exactly the names of the
/// flagged fields, in declaration order.
pub proof fn lemma_groups_of_scan(s: Seq<FieldInput>)
    ensures
        scan_fields(s) matches Ok(p) ==> p.displayed_fields == group_names(s, ListGroup::Displayed)
            && p.searchable_fields == group_names(s, ListGroup::Searchable)
            && p.filterable_fields == group_names(s, ListGroup::Filterable)
            && p.sortable_fields == group_names(s, ListGroup::Sortable),
    decreases s.len(),
{
    if s.len() > 0 {
        lemma_groups_of_scan(s.drop_last());
    }
}

/// The field-group law at the pipeline level: when the pipeline succeeds,
/// each group sequence of the descriptor holds exactly the names of the
/// fields flagged for that group, in declaration order; a field flagged
/// for several groups appears in each of them independently.
pub proof fn lemma_groups_of_pipeline(t: TypeInput)
    requires
        t.shape == ItemShape::NamedFields,
        valid_name(candidate_name(t).0),
    ensures
        descriptor_of(t) matches Ok(d) ==> d.displayed_fields == group_names(
            t.fields@,
            ListGroup::Displayed,
        ) && d.searchable_fields == group_names(t.fields@, ListGroup::Searchable)
            && d.filterable_fields == group_names(t.fields@, ListGroup::Filterable)
            && d.sortable_fields == group_names(t.fields@, ListGroup::Sortable),
{
    lemma_groups_of_scan(t.fields@);
}

/// A group sequence is the declaration-order filter of the fields by the
/// group's flag, mapped to their names: it holds exactly the flagged
/// fields, each contributed once per group it is flagged for, in source
/// order.
pub proof fn lemma_group_names_are_filter(s: Seq<FieldInput>, group: ListGroup)
    ensures
        group_names(s, group) == s.filter(|f: FieldInput| list_flag(f, group)).map_values(
            (|f: FieldInput| f.name@),
        ),
    decreases s.len(),
{
    reveal(Seq::filter);
    if s.len() == 0 {
        assert(group_names(s, group) =~= s.filter(|f: FieldInput| list_flag(f, group)).map_values(
            (|f: FieldInput| f.name@),
        ));
    } else {
        lemma_group_names_are_filter(s.drop_last(), group);
        assert(group_names(s, group) =~= s.filter(|f: FieldInput| list_flag(f, group)).map_values(
            (|f: FieldInput| f.name@),
        ));
    }
}

/// The pagination law: the emitted chain carries a pagination call exactly
/// when the descriptor holds a pagination value, and then as its last call,
/// with the value forwarded verbatim.
pub proof fn lemma_pagination_emission(d: ConfigDescriptorV)
    ensures
        (exists|i: int|
            0 <= i < settings_of(d).len() && settings_of(d)[i] is Pagination) <==> d.pagination_limit is Some,
        d.pagination_limit matches Some(v) ==> settings_of(d).last() == (
        SettingsCallV::Pagination { max_total_hits: v }),
{
    let calls = settings_of(d);
    match d.pagination_limit {
        Some(v) => {
            assert(calls.last() == (SettingsCallV::Pagination { max_total_hits: v }));
            assert(calls[calls.len() - 1] is Pagination);
        },
        None => {
            assert(forall|i: int| 0 <= i < calls.len() ==> !(calls[i] is Pagination));
        },
    }
}

/// The pipeline is a function of its input alone: two runs on unchanged
/// input yield descriptor-equal outcomes. Every run's result is pinned to
/// `descriptor_of` by the pipeline's contract, so any two results of runs
/// on the same input are equal.
pub proof fn lemma_pipeline_deterministic(
    r1: Result<ConfigDescriptorV, ConfigError>,
    r2: Result<ConfigDescriptorV, ConfigError>,
    t: TypeInput,
)
    requires
        r1 == descriptor_of(t),
        r2 == descriptor_of(t),
    ensures
        r1 == r2,
{
}

} // verus!
