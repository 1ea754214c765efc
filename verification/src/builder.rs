//! Validator / descriptor builder: the declaration-order scan of the
//! fields and the whole pipeline from an annotated type to its validated
//! configuration descriptor.

use vstd::prelude::*;
use crate::attrs::{
    fold_struct_annotations, last_index_name, last_max_total_hits, select_roles, selected_roles,
};
use crate::model::{
    opt_view, ConfigDescriptor, ConfigDescriptorV, ConfigError, DupRole, FieldInput, ItemShape,
    TypeInput,
};
use crate::naming::{resolve_index_name, resolved_candidate, valid_name};

verus! {

/// The role assignments a scan of the fields has accumulated.
pub struct FieldSummaryV {
    pub primary_key_field: Option<Seq<char>>,
    pub distinct_field: Option<Seq<char>>,
    pub displayed_fields: Seq<Seq<char>>,
    pub searchable_fields: Seq<Seq<char>>,
    pub filterable_fields: Seq<Seq<char>>,
    pub sortable_fields: Seq<Seq<char>>,
}

/// The summary before any field is scanned.
pub open spec fn empty_summary() -> FieldSummaryV {
    FieldSummaryV {
        primary_key_field: None,
        distinct_field: None,
        displayed_fields: Seq::empty(),
        searchable_fields: Seq::empty(),
        filterable_fields: Seq::empty(),
        sortable_fields: Seq::empty(),
    }
}

/// What scanning one more field makes of the summary so far: a second
/// claim on primaryKey, then on distinct, is rejected at this field;
/// otherwise the field's name joins every sequence whose flag it carries.
pub open spec fn scan_step(p: FieldSummaryV, f: FieldInput) -> Result<FieldSummaryV, ConfigError> {
    let r = selected_roles(f.blocks@);
    if r.primary_key && p.primary_key_field is Some {
        Err(ConfigError::DuplicateRole { role: DupRole::PrimaryKey, span: f.span })
    } else if r.distinct && p.distinct_field is Some {
        Err(ConfigError::DuplicateRole { role: DupRole::Distinct, span: f.span })
    } else {
        Ok(
            FieldSummaryV {
                primary_key_field: if r.primary_key {
                    Some(f.name@)
                } else {
                    p.primary_key_field
                },
                distinct_field: if r.distinct {
                    Some(f.name@)
                } else {
                    p.distinct_field
                },
                displayed_fields: if r.displayed {
                    p.displayed_fields.push(f.name@)
                } else {
                    p.displayed_fields
                },
                searchable_fields: if r.searchable {
                    p.searchable_fields.push(f.name@)
                } else {
                    p.searchable_fields
                },
                filterable_fields: if r.filterable {
                    p.filterable_fields.push(f.name@)
                } else {
                    p.filterable_fields
                },
                sortable_fields: if r.sortable {
                    p.sortable_fields.push(f.name@)
                } else {
                    p.sortable_fields
                },
            },
        )
    }
}

/// The declaration-order scan of the fields; the first duplicate claim on
/// a unique role aborts the scan with its diagnostic.
pub open spec fn scan_fields(s: Seq<FieldInput>) -> Result<FieldSummaryV, ConfigError>
    decreases s.len(),
{
    if s.len() == 0 {
        Ok(empty_summary())
    } else {
        match scan_fields(s.drop_last()) {
            Ok(p) => scan_step(p, s.last()),
            Err(e) => Err(e),
        }
    }
}

/// An error found in a prefix of the fields is the error of the whole
/// scan: later fields are never consulted.
pub proof fn lemma_scan_error_persists(s: Seq<FieldInput>, i: int)
    requires
        0 <= i <= s.len(),
        scan_fields(s.take(i)) is Err,
    ensures
        scan_fields(s) == scan_fields(s.take(i)),
    decreases s.len(),
{
    if i < s.len() {
        assert(s.drop_last().take(i) =~= s.take(i));
        lemma_scan_error_persists(s.drop_last(), i);
    } else {
        assert(s.take(i) =~= s);
    }
}

/// The candidate index name of a type, before validation.
pub open spec fn candidate_name(t: TypeInput) -> (Seq<char>, usize) {
    resolved_candidate(last_index_name(t.struct_blocks@), t.ident@, t.ident_span)
}

/// What the whole pipeline makes of one annotated type: its validated
/// descriptor, or the first diagnostic in checking order (shape, then
/// index name, then the field scan).
pub open spec fn descriptor_of(t: TypeInput) -> Result<ConfigDescriptorV, ConfigError> {
    if t.shape != ItemShape::NamedFields {
        Err(ConfigError::WrongShape { span: t.ident_span })
    } else if !valid_name(candidate_name(t).0) {
        Err(ConfigError::InvalidName { span: candidate_name(t).1 })
    } else {
        match scan_fields(t.fields@) {
            Ok(p) => Ok(
                ConfigDescriptorV {
                    index_name: candidate_name(t).0,
                    primary_key_field: p.primary_key_field,
                    distinct_field: p.distinct_field,
                    displayed_fields: p.displayed_fields,
                    searchable_fields: p.searchable_fields,
                    filterable_fields: p.filterable_fields,
                    sortable_fields: p.sortable_fields,
                    pagination_limit: last_max_total_hits(t.struct_blocks@),
                },
            ),
            Err(e) => Err(e),
        }
    }
}

/// A build outcome as a mathematical value.
pub open spec fn result_view(r: Result<ConfigDescriptor, ConfigError>) -> Result<
    ConfigDescriptorV,
    ConfigError,
> {
    match r {
        Ok(d) => Ok(d@),
        Err(e) => Err(e),
    }
}

/// The summary the six accumulators of the field scan stand for.
pub open spec fn summary_view(
    pk: Option<String>,
    dis: Option<String>,
    displayed: Vec<String>,
    searchable: Vec<String>,
    filterable: Vec<String>,
    sortable: Vec<String>,
) -> FieldSummaryV {
    FieldSummaryV {
        primary_key_field: opt_view(pk),
        distinct_field: opt_view(dis),
        displayed_fields: displayed.deep_view(),
        searchable_fields: searchable.deep_view(),
        filterable_fields: filterable.deep_view(),
        sortable_fields: sortable.deep_view(),
    }
}

/// Runs the pipeline on one annotated type: folds its annotation blocks,
/// resolves and validates the index name, scans the fields in declaration
/// order, and builds the descriptor.
#[verifier::loop_isolation(false)]
pub fn build_config(t: &TypeInput) -> (r: Result<ConfigDescriptor, ConfigError>)
    ensures
        result_view(r) == descriptor_of(*t),
{
    match t.shape {
        ItemShape::NamedFields => {},
        _ => {
            return Err(ConfigError::WrongShape { span: t.ident_span });
        },
    }
    let ann = fold_struct_annotations(&t.struct_blocks);
    let (name, _name_span): (String, usize) = match resolve_index_name(
        ann.index_name,
        t.ident.as_str(),
        t.ident_span,
    ) {
        Ok(p) => p,
        Err(e) => {
            return Err(e);
        },
    };
    let mut primary_key_field: Option<String> = None;
    let mut distinct_field: Option<String> = None;
    let mut displayed_fields: Vec<String> = Vec::new();
    let mut searchable_fields: Vec<String> = Vec::new();
    let mut filterable_fields: Vec<String> = Vec::new();
    let mut sortable_fields: Vec<String> = Vec::new();
    let mut i: usize = 0;
    proof {
        assert(t.fields@.take(0) =~= Seq::<FieldInput>::empty());
        assert(displayed_fields.deep_view() =~= Seq::<Seq<char>>::empty());
        assert(searchable_fields.deep_view() =~= Seq::<Seq<char>>::empty());
        assert(filterable_fields.deep_view() =~= Seq::<Seq<char>>::empty());
        assert(sortable_fields.deep_view() =~= Seq::<Seq<char>>::empty());
    }
    while i < t.fields.len()
        invariant
            i <= t.fields.len(),
            scan_fields(t.fields@.take(i as int)) == Ok::<FieldSummaryV, ConfigError>(
                summary_view(
                    primary_key_field,
                    distinct_field,
                    displayed_fields,
                    searchable_fields,
                    filterable_fields,
                    sortable_fields,
                ),
            ),
        decreases t.fields.len() - i,
    {
        let ghost prefix = t.fields@.take(i as int);
        let ghost summary = summary_view(
            primary_key_field,
            distinct_field,
            displayed_fields,
            searchable_fields,
            filterable_fields,
            sortable_fields,
        );
        let f = &t.fields[i];
        let roles = select_roles(&f.blocks);
        proof {
            assert(t.fields@.take(i as int + 1).drop_last() =~= prefix);
            assert(t.fields@.take(i as int + 1).last() == t.fields@[i as int]);
        }
        if roles.primary_key {
            if primary_key_field.is_some() {
                proof {
                    lemma_scan_error_persists(t.fields@, i as int + 1);
                }
                return Err(ConfigError::DuplicateRole { role: DupRole::PrimaryKey, span: f.span });
            }
            primary_key_field = Some(f.name.clone());
        }
        if roles.distinct {
            if distinct_field.is_some() {
                proof {
                    lemma_scan_error_persists(t.fields@, i as int + 1);
                }
                return Err(ConfigError::DuplicateRole { role: DupRole::Distinct, span: f.span });
            }
            distinct_field = Some(f.name.clone());
        }
        if roles.displayed {
            displayed_fields.push(f.name.clone());
        }
        if roles.searchable {
            searchable_fields.push(f.name.clone());
        }
        if roles.filterable {
            filterable_fields.push(f.name.clone());
        }
        if roles.sortable {
            sortable_fields.push(f.name.clone());
        }
        proof {
            assert(displayed_fields.deep_view() =~= (match scan_step(summary, t.fields@[i as int]) {
                Ok(p) => p.displayed_fields,
                Err(_) => displayed_fields.deep_view(),
            }));
            assert(searchable_fields.deep_view() =~= (match scan_step(
                summary,
                t.fields@[i as int],
            ) {
                Ok(p) => p.searchable_fields,
                Err(_) => searchable_fields.deep_view(),
            }));
            assert(filterable_fields.deep_view() =~= (match scan_step(
                summary,
                t.fields@[i as int],
            ) {
                Ok(p) => p.filterable_fields,
                Err(_) => filterable_fields.deep_view(),
            }));
            assert(sortable_fields.deep_view() =~= (match scan_step(summary, t.fields@[i as int]) {
                Ok(p) => p.sortable_fields,
                Err(_) => sortable_fields.deep_view(),
            }));
        }
        i = i + 1;
    }
    proof {
        assert(t.fields@.take(t.fields@.len() as int) =~= t.fields@);
    }
    Ok(
        ConfigDescriptor {
            index_name: name,
            primary_key_field,
            distinct_field,
            displayed_fields,
            searchable_fields,
            filterable_fields,
            sortable_fields,
            pagination_limit: ann.max_total_hits,
        },
    )
}

} // verus!
