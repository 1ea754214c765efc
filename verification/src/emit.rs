//! Code emitter: turns a validated descriptor into a tree-shaped
//! description of the generated provider implementation. A rendering front
//! end turns the tree into source text; the tree fixes everything the
//! generated code says.

use vstd::prelude::*;
use crate::model::{ConfigDescriptor, ConfigDescriptorV};

verus! {

/// One category-setting call in the configuration-building chain of the
/// generated `generate_settings`.
#[derive(Debug, PartialEq, Eq)]
pub enum SettingsCall {
    /// A call that sets one of the four field groups. Its list is passed
    /// even when empty: the explicit empty sequence clears any prior
    /// default on the configuration object, where omitting the call would
    /// silently leave a different default in place.
    DisplayedAttributes { names: Vec<String> },
    SortableAttributes { names: Vec<String> },
    FilterableAttributes { names: Vec<String> },
    SearchableAttributes { names: Vec<String> },
    /// The distinct-attribute call; emitted only when a distinct field was
    /// found.
    DistinctAttribute { name: String },
    /// The pagination call; emitted only when a pagination value is
    /// present. The value is forwarded verbatim.
    Pagination { max_total_hits: String },
}

/// A category-setting call as a mathematical value.
pub enum SettingsCallV {
    DisplayedAttributes { names: Seq<Seq<char>> },
    SortableAttributes { names: Seq<Seq<char>> },
    FilterableAttributes { names: Seq<Seq<char>> },
    SearchableAttributes { names: Seq<Seq<char>> },
    DistinctAttribute { name: Seq<char> },
    Pagination { max_total_hits: Seq<char> },
}

impl View for SettingsCall {
    type V = SettingsCallV;

    open spec fn view(&self) -> SettingsCallV {
        match self {
            SettingsCall::DisplayedAttributes { names } => SettingsCallV::DisplayedAttributes {
                names: names.deep_view(),
            },
            SettingsCall::SortableAttributes { names } => SettingsCallV::SortableAttributes {
                names: names.deep_view(),
            },
            SettingsCall::FilterableAttributes { names } => SettingsCallV::FilterableAttributes {
                names: names.deep_view(),
            },
            SettingsCall::SearchableAttributes { names } => SettingsCallV::SearchableAttributes {
                names: names.deep_view(),
            },
            SettingsCall::DistinctAttribute { name } => SettingsCallV::DistinctAttribute {
                name: name@,
            },
            SettingsCall::Pagination { max_total_hits } => SettingsCallV::Pagination {
                max_total_hits: max_total_hits@,
            },
        }
    }
}

/// The mathematical value of a sequence of calls.
pub open spec fn calls_view(s: Seq<SettingsCall>) -> Seq<SettingsCallV> {
    s.map_values(|c: SettingsCall| c@)
}

/// The category-setting calls a descriptor demands, in emission order: the
/// four field-group calls always, the distinct call only when a distinct
/// field was found, the pagination call only when a pagination value is
/// present.
pub open spec fn settings_of(d: ConfigDescriptorV) -> Seq<SettingsCallV> {
    let base = seq![
        SettingsCallV::DisplayedAttributes { names: d.displayed_fields },
        SettingsCallV::SortableAttributes { names: d.sortable_fields },
        SettingsCallV::FilterableAttributes { names: d.filterable_fields },
        SettingsCallV::SearchableAttributes { names: d.searchable_fields },
    ];
    let with_distinct = match d.distinct_field {
        Some(n) => base.push(SettingsCallV::DistinctAttribute { name: n }),
        None => base,
    };
    match d.pagination_limit {
        Some(v) => with_distinct.push(SettingsCallV::Pagination { max_total_hits: v }),
        None => with_distinct,
    }
}

/// The generated provider implementation, as a tree: the resolved index
/// name (also the argument of the create-index call), the optional primary
/// key handed to that call, and the category-setting calls of the
/// configuration builder.
#[derive(Debug, PartialEq, Eq)]
pub struct ProviderImpl {
    pub index_name: String,
    pub primary_key: Option<String>,
    pub settings: Vec<SettingsCall>,
}

/// A provider implementation as a mathematical value.
pub struct ProviderImplV {
    pub index_name: Seq<char>,
    pub primary_key: Option<Seq<char>>,
    pub settings: Seq<SettingsCallV>,
}

impl View for ProviderImpl {
    type V = ProviderImplV;

    open spec fn view(&self) -> ProviderImplV {
        ProviderImplV {
            index_name: self.index_name@,
            primary_key: crate::model::opt_view(self.primary_key),
            settings: calls_view(self.settings@),
        }
    }
}

/// The provider implementation a descriptor demands.
pub open spec fn provider_of(d: ConfigDescriptorV) -> ProviderImplV {
    ProviderImplV {
        index_name: d.index_name,
        primary_key: d.primary_key_field,
        settings: settings_of(d),
    }
}

/// Consumes a validated descriptor and emits the provider implementation.
pub fn emit_provider(d: ConfigDescriptor) -> (r: ProviderImpl)
    ensures
        r@ == provider_of(d@),
{
    let ghost dv = d@;
    let ConfigDescriptor {
        index_name,
        primary_key_field,
        distinct_field,
        displayed_fields,
        searchable_fields,
        filterable_fields,
        sortable_fields,
        pagination_limit,
    } = d;
    let mut settings: Vec<SettingsCall> = Vec::new();
    settings.push(SettingsCall::DisplayedAttributes { names: displayed_fields });
    settings.push(SettingsCall::SortableAttributes { names: sortable_fields });
    settings.push(SettingsCall::FilterableAttributes { names: filterable_fields });
    settings.push(SettingsCall::SearchableAttributes { names: searchable_fields });
    if let Some(name) = distinct_field {
        settings.push(SettingsCall::DistinctAttribute { name });
    }
    if let Some(max_total_hits) = pagination_limit {
        settings.push(SettingsCall::Pagination { max_total_hits });
    }
    proof {
        assert(calls_view(settings@) =~= settings_of(dv));
    }
    ProviderImpl { index_name, primary_key: primary_key_field, settings }
}

} // verus!
