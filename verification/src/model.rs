//! Data model: per-field role flags, raw annotation blocks, the shape of the
//! annotated item, and the validated configuration descriptor.

use vstd::prelude::*;

verus! {

/// The independent role flags a field may carry.
#[derive(Clone, Copy, Debug, PartialEq, Eq, Structural)]
pub struct FieldRoles {
    pub primary_key: bool,
    pub displayed: bool,
    pub searchable: bool,
    pub distinct: bool,
    pub filterable: bool,
    pub sortable: bool,
}

/// The flag set of a field that carries no recognized annotation block.
pub open spec fn no_roles() -> FieldRoles {
    FieldRoles {
        primary_key: false,
        displayed: false,
        searchable: false,
        distinct: false,
        filterable: false,
        sortable: false,
    }
}

impl Default for FieldRoles {
    /// All flags off.
    fn default() -> (r: Self)
        ensures
            r == no_roles(),
    {
        FieldRoles {
            primary_key: false,
            displayed: false,
            searchable: false,
            distinct: false,
            filterable: false,
            sortable: false,
        }
    }
}

/// An explicit index-name override: its literal value and the source
/// location of the annotation that carries it.
pub struct NameOverride {
    pub value: String,
    pub span: usize,
}

/// One successfully parsed type-level annotation block.
pub struct StructBlock {
    pub index_name: Option<NameOverride>,
    pub max_total_hits: Option<String>,
}

/// The resolved type-level annotations of one type: for each key, the
/// value of the last annotation block that set it, if any did.
pub struct StructAnnotations {
    pub index_name: Option<NameOverride>,
    pub max_total_hits: Option<String>,
}

/// One field of the annotated type: its identifier, its source location,
/// and the parse outcome of each of its recognized annotation blocks, in
/// source order (`None` marks a block that failed to parse).
pub struct FieldInput {
    pub name: String,
    pub span: usize,
    pub blocks: Vec<Option<FieldRoles>>,
}

/// The shape of the annotated item. Only a struct with named fields is a
/// record-like aggregate the pipeline accepts.
#[derive(Clone, Copy, Debug, PartialEq, Eq, Structural)]
pub enum ItemShape {
    NamedFields,
    UnnamedFields,
    Unit,
    NotAStruct,
}

/// Everything the pipeline reads of one annotated type: its identifier and
/// location, its shape, its recognized type-level annotation blocks in
/// source order, and its fields in declaration order.
pub struct TypeInput {
    pub ident: String,
    pub ident_span: usize,
    pub shape: ItemShape,
    pub struct_blocks: Vec<StructBlock>,
    pub fields: Vec<FieldInput>,
}

/// Which unique role a duplicate claimed.
#[derive(Clone, Copy, Debug, PartialEq, Eq, Structural)]
pub enum DupRole {
    PrimaryKey,
    Distinct,
}

/// A build-time diagnostic. Each variant carries the source location the
/// diagnostic is attached to.
#[derive(Clone, Copy, Debug, PartialEq, Eq, Structural)]
pub enum ConfigError {
    /// The annotated item is not a struct with named fields.
    WrongShape { span: usize },
    /// The resolved index name is empty or holds a character outside the
    /// accepted charset.
    InvalidName { span: usize },
    /// A second field claimed a role at most one field may carry.
    DuplicateRole { role: DupRole, span: usize },
}

impl ConfigError {
    /// The diagnostic text of this error.
    pub fn message(&self) -> (m: &'static str)
        ensures
            m@ == message_of(*self),
    {
        match self {
            ConfigError::WrongShape { .. } => "Applicable only to struct",
            ConfigError::InvalidName { .. } => "Index must follow the naming guidelines.",
            ConfigError::DuplicateRole { role: DupRole::PrimaryKey, .. } => "Only one field can be marked as primary key",
            ConfigError::DuplicateRole { role: DupRole::Distinct, .. } => "Only one field can be marked as distinct",
        }
    }

    /// The source location the diagnostic is attached to.
    pub fn span(&self) -> (s: usize)
        ensures
            s == span_of(*self),
    {
        match self {
            ConfigError::WrongShape { span } => *span,
            ConfigError::InvalidName { span } => *span,
            ConfigError::DuplicateRole { span, .. } => *span,
        }
    }
}

/// The diagnostic text of each error.
pub open spec fn message_of(e: ConfigError) -> Seq<char> {
    match e {
        ConfigError::WrongShape { .. } => "Applicable only to struct"@,
        ConfigError::InvalidName { .. } => "Index must follow the naming guidelines."@,
        ConfigError::DuplicateRole { role: DupRole::PrimaryKey, .. } => "Only one field can be marked as primary key"@,
        ConfigError::DuplicateRole { role: DupRole::Distinct, .. } => "Only one field can be marked as distinct"@,
    }
}

/// The source location of each error.
pub open spec fn span_of(e: ConfigError) -> usize {
    match e {
        ConfigError::WrongShape { span } => span,
        ConfigError::InvalidName { span } => span,
        ConfigError::DuplicateRole { span, .. } => span,
    }
}

/// The validated, immutable summary of a type's index configuration.
#[derive(Debug, PartialEq, Eq)]
pub struct ConfigDescriptor {
    pub index_name: String,
    pub primary_key_field: Option<String>,
    pub distinct_field: Option<String>,
    pub displayed_fields: Vec<String>,
    pub searchable_fields: Vec<String>,
    pub filterable_fields: Vec<String>,
    pub sortable_fields: Vec<String>,
    pub pagination_limit: Option<String>,
}

/// The mathematical value of a descriptor: every string as its character
/// sequence.
pub struct ConfigDescriptorV {
    pub index_name: Seq<char>,
    pub primary_key_field: Option<Seq<char>>,
    pub distinct_field: Option<Seq<char>>,
    pub displayed_fields: Seq<Seq<char>>,
    pub searchable_fields: Seq<Seq<char>>,
    pub filterable_fields: Seq<Seq<char>>,
    pub sortable_fields: Seq<Seq<char>>,
    pub pagination_limit: Option<Seq<char>>,
}

/// The character sequence of an optional string.
pub open spec fn opt_view(o: Option<String>) -> Option<Seq<char>> {
    match o {
        Some(s) => Some(s@),
        None => None,
    }
}

impl View for ConfigDescriptor {
    type V = ConfigDescriptorV;

    open spec fn view(&self) -> ConfigDescriptorV {
        ConfigDescriptorV {
            index_name: self.index_name@,
            primary_key_field: opt_view(self.primary_key_field),
            distinct_field: opt_view(self.distinct_field),
            displayed_fields: self.displayed_fields.deep_view(),
            searchable_fields: self.searchable_fields.deep_view(),
            filterable_fields: self.filterable_fields.deep_view(),
            sortable_fields: self.sortable_fields.deep_view(),
            pagination_limit: opt_view(self.pagination_limit),
        }
    }
}

} // verus!
