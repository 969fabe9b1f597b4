//! The catalog's tree nodes, and how a node is read from the catalog's JSON.
//!
//! Reading fails closed: a node whose `structure_family` is not one of
//! `container`, `array`, `table`, or whose structure does not have the shape
//! that its family calls for, is rejected as a whole, and so is a document
//! with any such node.

use vstd::prelude::*;

use crate::json::{
    array_member, field, get_field, get_optional_string, get_string, int_value, is_object, items,
    optional_array_member, optional_string_member, same_text, string_member, Json,
};

verus! {

/// How the catalog manages a data source's bytes; informational only.
#[derive(PartialEq, Eq, Structural, Debug, Clone, Copy)]
pub enum Management {
    External,
    Immutable,
    Locked,
    Writable,
}

pub open spec fn management_of(s: Seq<char>) -> Option<Management> {
    if s == "external"@ {
        Some(Management::External)
    } else if s == "immutable"@ {
        Some(Management::Immutable)
    } else if s == "locked"@ {
        Some(Management::Locked)
    } else if s == "writable"@ {
        Some(Management::Writable)
    } else {
        None
    }
}

/// One stored blob of a data source. An asset without an id cannot be
/// downloaded on its own.
#[derive(Debug, Clone, PartialEq, Eq)]
pub struct Asset {
    pub data_uri: String,
    pub id: Option<u64>,
}

/// Where the bytes of an array or a table live.
#[derive(Debug, Clone, PartialEq, Eq)]
pub struct DataSource {
    pub assets: Vec<Asset>,
    pub management: Management,
}

pub struct DataSourceView {
    pub assets: Seq<Asset>,
    pub management: Management,
}

impl View for DataSource {
    type V = DataSourceView;

    open spec fn view(&self) -> DataSourceView {
        DataSourceView { assets: self.assets@, management: self.management }
    }
}

/// A tag naming the semantic type of a node, such as `BlueskyEventStream`.
#[derive(Debug, Clone, PartialEq, Eq)]
pub struct NodeSpec {
    pub name: String,
    pub version: Option<String>,
}

#[derive(PartialEq, Eq, Structural, Debug, Clone, Copy)]
pub enum SortingDirection {
    Ascending,
    Descending,
}

/// A sort key of a container's children.
#[derive(Debug, Clone, PartialEq, Eq)]
pub struct Sorting {
    pub key: String,
    pub direction: SortingDirection,
}

/// What every node carries, whatever its family.
#[derive(Debug, Clone, PartialEq, Eq)]
pub struct Attributes {
    /// The ids from the root down to the node's parent.
    pub ancestors: Vec<String>,
    pub specs: Vec<NodeSpec>,
    pub sorting: Option<Vec<Sorting>>,
    /// Present where the request asked for data sources.
    pub data_sources: Option<Vec<DataSource>>,
}

pub struct AttributesView {
    pub ancestors: Seq<String>,
    pub specs: Seq<NodeSpec>,
    pub sorting: Option<Seq<Sorting>>,
    pub data_sources: Option<Seq<DataSourceView>>,
}

pub open spec fn data_sources_view(d: Option<Vec<DataSource>>) -> Option<Seq<DataSourceView>> {
    match d {
        Some(v) => Some(v@.map_values(|s: DataSource| s@)),
        None => None,
    }
}

pub open spec fn sorting_view(s: Option<Vec<Sorting>>) -> Option<Seq<Sorting>> {
    match s {
        Some(v) => Some(v@),
        None => None,
    }
}

impl View for Attributes {
    type V = AttributesView;

    open spec fn view(&self) -> AttributesView {
        AttributesView {
            ancestors: self.ancestors@,
            specs: self.specs@,
            sorting: sorting_view(self.sorting),
            data_sources: data_sources_view(self.data_sources),
        }
    }
}

/// The kind of an array's elements, as NumPy codes it in one character.
#[derive(PartialEq, Eq, Structural, Debug, Clone, Copy)]
pub enum Kind {
    BitField,
    Boolean,
    Integer,
    UnsignedInteger,
    FloatingPoint,
    ComplexFloatingPoint,
    Timedelta,
    Datetime,
    String,
    Unicode,
    Other,
}

pub open spec fn kind_of(c: char) -> Option<Kind> {
    if c == 't' {
        Some(Kind::BitField)
    } else if c == 'b' {
        Some(Kind::Boolean)
    } else if c == 'i' {
        Some(Kind::Integer)
    } else if c == 'u' {
        Some(Kind::UnsignedInteger)
    } else if c == 'f' {
        Some(Kind::FloatingPoint)
    } else if c == 'c' {
        Some(Kind::ComplexFloatingPoint)
    } else if c == 'm' {
        Some(Kind::Timedelta)
    } else if c == 'M' {
        Some(Kind::Datetime)
    } else if c == 'S' {
        Some(Kind::String)
    } else if c == 'U' {
        Some(Kind::Unicode)
    } else if c == 'V' {
        Some(Kind::Other)
    } else {
        None
    }
}

impl Kind {
    /// The kind of a one-character code; `None` for an unknown code.
    pub fn from_code(c: char) -> (r: Option<Kind>)
        ensures
            r == kind_of(c),
    {
        match c {
            't' => Some(Kind::BitField),
            'b' => Some(Kind::Boolean),
            'i' => Some(Kind::Integer),
            'u' => Some(Kind::UnsignedInteger),
            'f' => Some(Kind::FloatingPoint),
            'c' => Some(Kind::ComplexFloatingPoint),
            'm' => Some(Kind::Timedelta),
            'M' => Some(Kind::Datetime),
            'S' => Some(Kind::String),
            'U' => Some(Kind::Unicode),
            'V' => Some(Kind::Other),
            _ => None,
        }
    }
}

/// A node's attributes, by structure family.
#[derive(Debug, Clone, PartialEq, Eq)]
pub enum NodeAttributes {
    Container(Attributes),
    /// An array, with the kind of its elements where its data type is a
    /// built-in one.
    Array { attributes: Attributes, kind: Option<Kind> },
    Table { attributes: Attributes, columns: Vec<String> },
}

pub enum NodeAttributesView {
    Container(AttributesView),
    Array(AttributesView, Option<Kind>),
    Table(AttributesView, Seq<String>),
}

impl View for NodeAttributes {
    type V = NodeAttributesView;

    open spec fn view(&self) -> NodeAttributesView {
        match self {
            NodeAttributes::Container(a) => NodeAttributesView::Container(a@),
            NodeAttributes::Array { attributes, kind } => NodeAttributesView::Array(attributes@, *kind),
            NodeAttributes::Table { attributes, columns } => NodeAttributesView::Table(attributes@, columns@),
        }
    }
}

/// The addresses at which the catalog serves a node and its parts.
#[derive(Debug, Clone, PartialEq, Eq)]
pub struct Links {
    pub self_field: String,
    pub documentation: Option<String>,
    pub first: Option<String>,
    pub last: Option<String>,
    pub next: Option<String>,
    pub prev: Option<String>,
    pub search: Option<String>,
    pub full: Option<String>,
    pub block: Option<String>,
    pub partition: Option<String>,
}

/// One node of the catalog's tree. Its id is unique among its siblings.
#[derive(Debug, Clone, PartialEq, Eq)]
pub struct Node {
    pub id: String,
    pub attributes: NodeAttributes,
    pub links: Option<Links>,
}

pub struct NodeView {
    pub id: String,
    pub attributes: NodeAttributesView,
    pub links: Option<Links>,
}

impl View for Node {
    type V = NodeView;

    open spec fn view(&self) -> NodeView {
        NodeView { id: self.id, attributes: self.attributes@, links: self.links }
    }
}

pub open spec fn nodes_view(v: Seq<Node>) -> Seq<NodeView> {
    v.map_values(|n: Node| n@)
}

// What a document says, read as the model; `None` where it does not fit.

pub open spec fn asset_id_member(j: Json) -> Option<Option<u64>> {
    match field(j, "id"@) {
        None => Some(None),
        Some(Json::Null) => Some(None),
        Some(v) => match int_value(v) {
            Some(n) => if n >= 0 {
                Some(Some(n as u64))
            } else {
                None
            },
            None => None,
        },
    }
}

pub open spec fn asset_of(j: Json) -> Option<Asset> {
    match (string_member(j, "data_uri"@), asset_id_member(j)) {
        (Some(data_uri), Some(id)) => Some(Asset { data_uri, id }),
        _ => None,
    }
}

pub open spec fn all_assets(xs: Seq<Json>) -> Option<Seq<Asset>> {
    if forall|i: int| 0 <= i < xs.len() ==> (#[trigger] asset_of(xs[i])) is Some {
        Some(xs.map_values(|x: Json| asset_of(x).unwrap()))
    } else {
        None
    }
}

pub open spec fn data_source_of(j: Json) -> Option<DataSourceView> {
    match (array_member(j, "assets"@), string_member(j, "management"@)) {
        (Some(xs), Some(m)) => match (all_assets(xs), management_of(m@)) {
            (Some(assets), Some(management)) => Some(DataSourceView { assets, management }),
            _ => None,
        },
        _ => None,
    }
}

pub open spec fn all_data_sources(xs: Seq<Json>) -> Option<Seq<DataSourceView>> {
    if forall|i: int| 0 <= i < xs.len() ==> (#[trigger] data_source_of(xs[i])) is Some {
        Some(xs.map_values(|x: Json| data_source_of(x).unwrap()))
    } else {
        None
    }
}

pub open spec fn node_spec_of(j: Json) -> Option<NodeSpec> {
    match (string_member(j, "name"@), optional_string_member(j, "version"@)) {
        (Some(name), Some(version)) => Some(NodeSpec { name, version }),
        _ => None,
    }
}

pub open spec fn all_node_specs(xs: Seq<Json>) -> Option<Seq<NodeSpec>> {
    if forall|i: int| 0 <= i < xs.len() ==> (#[trigger] node_spec_of(xs[i])) is Some {
        Some(xs.map_values(|x: Json| node_spec_of(x).unwrap()))
    } else {
        None
    }
}

/// A sort direction is written `1` or `"ASCENDING"`, `-1` or `"DESCENDING"`.
pub open spec fn direction_of(j: Json) -> Option<SortingDirection> {
    match j {
        Json::Str(s) => if s@ == "ASCENDING"@ {
            Some(SortingDirection::Ascending)
        } else if s@ == "DESCENDING"@ {
            Some(SortingDirection::Descending)
        } else {
            None
        },
        _ => match int_value(j) {
            Some(n) => if n == 1 {
                Some(SortingDirection::Ascending)
            } else if n == -1 {
                Some(SortingDirection::Descending)
            } else {
                None
            },
            None => None,
        },
    }
}

pub open spec fn sorting_of(j: Json) -> Option<Sorting> {
    match (string_member(j, "key"@), field(j, "direction"@)) {
        (Some(key), Some(d)) => match direction_of(d) {
            Some(direction) => Some(Sorting { key, direction }),
            None => None,
        },
        _ => None,
    }
}

pub open spec fn all_sortings(xs: Seq<Json>) -> Option<Seq<Sorting>> {
    if forall|i: int| 0 <= i < xs.len() ==> (#[trigger] sorting_of(xs[i])) is Some {
        Some(xs.map_values(|x: Json| sorting_of(x).unwrap()))
    } else {
        None
    }
}

pub open spec fn string_of(j: Json) -> Option<String> {
    match j {
        Json::Str(s) => Some(s),
        _ => None,
    }
}

pub open spec fn all_strings(xs: Seq<Json>) -> Option<Seq<String>> {
    if forall|i: int| 0 <= i < xs.len() ==> (#[trigger] string_of(xs[i])) is Some {
        Some(xs.map_values(|x: Json| string_of(x).unwrap()))
    } else {
        None
    }
}

pub open spec fn optional_sortings(o: Option<Seq<Json>>) -> Option<Option<Seq<Sorting>>> {
    match o {
        None => Some(None),
        Some(xs) => match all_sortings(xs) {
            Some(v) => Some(Some(v)),
            None => None,
        },
    }
}

pub open spec fn optional_data_sources(o: Option<Seq<Json>>) -> Option<Option<Seq<DataSourceView>>> {
    match o {
        None => Some(None),
        Some(xs) => match all_data_sources(xs) {
            Some(v) => Some(Some(v)),
            None => None,
        },
    }
}

pub open spec fn attributes_of(j: Json) -> Option<AttributesView> {
    match (
        array_member(j, "ancestors"@),
        array_member(j, "specs"@),
        optional_array_member(j, "sorting"@),
        optional_array_member(j, "data_sources"@),
    ) {
        (Some(a), Some(s), Some(so), Some(ds)) => match (
            all_strings(a),
            all_node_specs(s),
            optional_sortings(so),
            optional_data_sources(ds),
        ) {
            (Some(ancestors), Some(specs), Some(sorting), Some(data_sources)) => Some(
                AttributesView { ancestors, specs, sorting, data_sources },
            ),
            _ => None,
        },
        _ => None,
    }
}

/// The element kind of an array's data type: `Some(None)` where the data
/// type has no `kind` (a structured type), `None` for a code that is not one
/// known character.
pub open spec fn kind_member(data_type: Json) -> Option<Option<Kind>> {
    match field(data_type, "kind"@) {
        None => Some(None),
        Some(Json::Null) => Some(None),
        Some(Json::Str(code)) => if code@.len() == 1 {
            match kind_of(code@[0]) {
                Some(k) => Some(Some(k)),
                None => None,
            }
        } else {
            None
        },
        Some(_) => None,
    }
}

/// The family-specific reading of a node's `attributes`: the family tag must
/// be known and the structure must have that family's shape.
pub open spec fn node_attributes_of(j: Json) -> Option<NodeAttributesView> {
    match (attributes_of(j), string_member(j, "structure_family"@), field(j, "structure"@)) {
        (Some(a), Some(family), Some(st)) => if !is_object(st) {
            None
        } else if family@ == "container"@ {
            if field(st, "count"@) is Some {
                Some(NodeAttributesView::Container(a))
            } else {
                None
            }
        } else if family@ == "array"@ {
            match (field(st, "data_type"@), field(st, "shape"@)) {
                (Some(dt), Some(_)) => match kind_member(dt) {
                    Some(kind) => Some(NodeAttributesView::Array(a, kind)),
                    None => None,
                },
                _ => None,
            }
        } else if family@ == "table"@ {
            match array_member(st, "columns"@) {
                Some(cs) => match all_strings(cs) {
                    Some(columns) => Some(NodeAttributesView::Table(a, columns)),
                    None => None,
                },
                None => None,
            }
        } else {
            None
        },
        _ => None,
    }
}

pub open spec fn links_of(j: Json) -> Option<Links> {
    match (
        string_member(j, "self"@),
        optional_string_member(j, "documentation"@),
        optional_string_member(j, "first"@),
        optional_string_member(j, "last"@),
        optional_string_member(j, "next"@),
        optional_string_member(j, "prev"@),
        optional_string_member(j, "search"@),
        optional_string_member(j, "full"@),
        optional_string_member(j, "block"@),
        optional_string_member(j, "partition"@),
    ) {
        (
            Some(self_field),
            Some(documentation),
            Some(first),
            Some(last),
            Some(next),
            Some(prev),
            Some(search),
            Some(full),
            Some(block),
            Some(partition),
        ) => Some(Links { self_field, documentation, first, last, next, prev, search, full, block, partition }),
        _ => None,
    }
}

/// A node's `links`: `Some(None)` where absent or `null`.
pub open spec fn optional_links_of(j: Json) -> Option<Option<Links>> {
    match field(j, "links"@) {
        None => Some(None),
        Some(Json::Null) => Some(None),
        Some(l) => match links_of(l) {
            Some(links) => Some(Some(links)),
            None => None,
        },
    }
}

pub open spec fn node_of(j: Json) -> Option<NodeView> {
    match (string_member(j, "id"@), field(j, "attributes"@), optional_links_of(j)) {
        (Some(id), Some(at), Some(links)) => match node_attributes_of(at) {
            Some(attributes) => Some(NodeView { id, attributes, links }),
            None => None,
        },
        _ => None,
    }
}

pub open spec fn all_nodes(xs: Seq<Json>) -> Option<Seq<NodeView>> {
    if forall|i: int| 0 <= i < xs.len() ==> (#[trigger] node_of(xs[i])) is Some {
        Some(xs.map_values(|x: Json| node_of(x).unwrap()))
    } else {
        None
    }
}

/// The nodes that the `data` of a search document lists.
pub open spec fn listed_nodes_of(data: Json) -> Option<Seq<NodeView>> {
    match items(data) {
        Some(xs) => all_nodes(xs),
        None => None,
    }
}

fn decode_management(s: &String) -> (r: Option<Management>)
    ensures
        r == management_of(s@),
{
    if same_text(s, "external") {
        Some(Management::External)
    } else if same_text(s, "immutable") {
        Some(Management::Immutable)
    } else if same_text(s, "locked") {
        Some(Management::Locked)
    } else if same_text(s, "writable") {
        Some(Management::Writable)
    } else {
        None
    }
}

fn decode_asset(j: &Json) -> (r: Option<Asset>)
    ensures
        r == asset_of(*j),
{
    let data_uri = get_string(j, "data_uri");
    let id: Option<Option<u64>> = match get_field(j, "id") {
        None => Some(None),
        Some(Json::Null) => Some(None),
        Some(Json::Number(n)) => match n.int {
            Some(k) => if k >= 0 {
                Some(Some(k as u64))
            } else {
                None
            },
            None => None,
        },
        Some(_) => None,
    };
    match (data_uri, id) {
        (Some(data_uri), Some(id)) => Some(Asset { data_uri, id }),
        _ => None,
    }
}

fn decode_assets(xs: &Vec<Json>) -> (r: Option<Vec<Asset>>)
    ensures
        r matches Some(v) ==> all_assets(xs@) == Some(v@),
        r is None ==> all_assets(xs@) is None,
{
    let mut v: Vec<Asset> = Vec::new();
    let mut i: usize = 0;
    while i < xs.len()
        invariant
            i <= xs.len(),
            v@.len() == i,
            forall|k: int| 0 <= k < i ==> #[trigger] asset_of(xs@[k]) == Some(v@[k]),
        decreases xs.len() - i,
    {
        match decode_asset(&xs[i]) {
            Some(a) => v.push(a),
            None => {
                return None;
            },
        }
        i = i + 1;
    }
    assert(v@ =~= xs@.map_values(|x: Json| asset_of(x).unwrap()));
    Some(v)
}

fn decode_data_source(j: &Json) -> (r: Option<DataSource>)
    ensures
        r matches Some(d) ==> data_source_of(*j) == Some(d@),
        r is None ==> data_source_of(*j) is None,
{
    let management = match get_string(j, "management") {
        Some(m) => m,
        None => {
            return None;
        },
    };
    match get_field(j, "assets") {
        Some(Json::Array(xs)) => match (decode_assets(xs), decode_management(&management)) {
            (Some(assets), Some(management)) => Some(DataSource { assets, management }),
            _ => None,
        },
        _ => None,
    }
}

fn decode_data_sources(xs: &Vec<Json>) -> (r: Option<Vec<DataSource>>)
    ensures
        r matches Some(v) ==> all_data_sources(xs@) == Some(v@.map_values(|d: DataSource| d@)),
        r is None ==> all_data_sources(xs@) is None,
{
    let mut v: Vec<DataSource> = Vec::new();
    let mut i: usize = 0;
    while i < xs.len()
        invariant
            i <= xs.len(),
            v@.len() == i,
            forall|k: int| 0 <= k < i ==> #[trigger] data_source_of(xs@[k]) == Some(v@[k]@),
        decreases xs.len() - i,
    {
        match decode_data_source(&xs[i]) {
            Some(d) => v.push(d),
            None => {
                return None;
            },
        }
        i = i + 1;
    }
    assert(v@.map_values(|d: DataSource| d@) =~= xs@.map_values(|x: Json| data_source_of(x).unwrap()));
    Some(v)
}

fn decode_node_spec(j: &Json) -> (r: Option<NodeSpec>)
    ensures
        r == node_spec_of(*j),
{
    match (get_string(j, "name"), get_optional_string(j, "version")) {
        (Some(name), Some(version)) => Some(NodeSpec { name, version }),
        _ => None,
    }
}

fn decode_node_specs(xs: &Vec<Json>) -> (r: Option<Vec<NodeSpec>>)
    ensures
        r matches Some(v) ==> all_node_specs(xs@) == Some(v@),
        r is None ==> all_node_specs(xs@) is None,
{
    let mut v: Vec<NodeSpec> = Vec::new();
    let mut i: usize = 0;
    while i < xs.len()
        invariant
            i <= xs.len(),
            v@.len() == i,
            forall|k: int| 0 <= k < i ==> #[trigger] node_spec_of(xs@[k]) == Some(v@[k]),
        decreases xs.len() - i,
    {
        match decode_node_spec(&xs[i]) {
            Some(t) => v.push(t),
            None => {
                return None;
            },
        }
        i = i + 1;
    }
    assert(v@ =~= xs@.map_values(|x: Json| node_spec_of(x).unwrap()));
    Some(v)
}

/// Reads a sort direction, written `1` or `"ASCENDING"`, `-1` or
/// `"DESCENDING"`.
pub fn parse_direction(j: &Json) -> (r: Option<SortingDirection>)
    ensures
        r == direction_of(*j),
{
    match j {
        Json::Str(s) => if same_text(s, "ASCENDING") {
            Some(SortingDirection::Ascending)
        } else if same_text(s, "DESCENDING") {
            Some(SortingDirection::Descending)
        } else {
            None
        },
        Json::Number(n) => match n.int {
            Some(k) => if k == 1 {
                Some(SortingDirection::Ascending)
            } else if k == -1 {
                Some(SortingDirection::Descending)
            } else {
                None
            },
            None => None,
        },
        _ => None,
    }
}

fn decode_sorting(j: &Json) -> (r: Option<Sorting>)
    ensures
        r == sorting_of(*j),
{
    match (get_string(j, "key"), get_field(j, "direction")) {
        (Some(key), Some(d)) => match parse_direction(d) {
            Some(direction) => Some(Sorting { key, direction }),
            None => None,
        },
        _ => None,
    }
}

fn decode_sortings(xs: &Vec<Json>) -> (r: Option<Vec<Sorting>>)
    ensures
        r matches Some(v) ==> all_sortings(xs@) == Some(v@),
        r is None ==> all_sortings(xs@) is None,
{
    let mut v: Vec<Sorting> = Vec::new();
    let mut i: usize = 0;
    while i < xs.len()
        invariant
            i <= xs.len(),
            v@.len() == i,
            forall|k: int| 0 <= k < i ==> #[trigger] sorting_of(xs@[k]) == Some(v@[k]),
        decreases xs.len() - i,
    {
        match decode_sorting(&xs[i]) {
            Some(t) => v.push(t),
            None => {
                return None;
            },
        }
        i = i + 1;
    }
    assert(v@ =~= xs@.map_values(|x: Json| sorting_of(x).unwrap()));
    Some(v)
}

/// Reads an array of strings.
pub fn decode_strings(xs: &Vec<Json>) -> (r: Option<Vec<String>>)
    ensures
        r matches Some(v) ==> all_strings(xs@) == Some(v@),
        r is None ==> all_strings(xs@) is None,
{
    let mut v: Vec<String> = Vec::new();
    let mut i: usize = 0;
    while i < xs.len()
        invariant
            i <= xs.len(),
            v@.len() == i,
            forall|k: int| 0 <= k < i ==> #[trigger] string_of(xs@[k]) == Some(v@[k]),
        decreases xs.len() - i,
    {
        match &xs[i] {
            Json::Str(s) => v.push(s.clone()),
            _ => {
                assert(string_of(xs@[i as int]) is None);
                return None;
            },
        }
        i = i + 1;
    }
    assert(v@ =~= xs@.map_values(|x: Json| string_of(x).unwrap()));
    Some(v)
}

fn decode_attributes(j: &Json) -> (r: Option<Attributes>)
    ensures
        r matches Some(a) ==> attributes_of(*j) == Some(a@),
        r is None ==> attributes_of(*j) is None,
{
    let ancestors = match get_field(j, "ancestors") {
        Some(Json::Array(xs)) => match decode_strings(xs) {
            Some(v) => v,
            None => {
                return None;
            },
        },
        _ => {
            return None;
        },
    };
    let specs = match get_field(j, "specs") {
        Some(Json::Array(xs)) => match decode_node_specs(xs) {
            Some(v) => v,
            None => {
                return None;
            },
        },
        _ => {
            return None;
        },
    };
    let sorting = match get_field(j, "sorting") {
        None => None,
        Some(Json::Null) => None,
        Some(Json::Array(xs)) => match decode_sortings(xs) {
            Some(v) => Some(v),
            None => {
                return None;
            },
        },
        Some(_) => {
            return None;
        },
    };
    let data_sources = match get_field(j, "data_sources") {
        None => None,
        Some(Json::Null) => None,
        Some(Json::Array(xs)) => match decode_data_sources(xs) {
            Some(v) => Some(v),
            None => {
                return None;
            },
        },
        Some(_) => {
            return None;
        },
    };
    Some(Attributes { ancestors, specs, sorting, data_sources })
}

fn decode_kind(data_type: &Json) -> (r: Option<Option<Kind>>)
    ensures
        r == kind_member(*data_type),
{
    match get_field(data_type, "kind") {
        None => Some(None),
        Some(Json::Null) => Some(None),
        Some(Json::Str(code)) => {
            if code.as_str().unicode_len() != 1 {
                return None;
            }
            match Kind::from_code(code.as_str().get_char(0)) {
                Some(k) => Some(Some(k)),
                None => None,
            }
        },
        Some(_) => None,
    }
}

fn decode_node_attributes(j: &Json) -> (r: Option<NodeAttributes>)
    ensures
        r matches Some(a) ==> node_attributes_of(*j) == Some(a@),
        r is None ==> node_attributes_of(*j) is None,
{
    let attributes = match decode_attributes(j) {
        Some(a) => a,
        None => {
            return None;
        },
    };
    let family = match get_string(j, "structure_family") {
        Some(f) => f,
        None => {
            return None;
        },
    };
    let st = match get_field(j, "structure") {
        Some(st) => st,
        None => {
            return None;
        },
    };
    match st {
        Json::Object(_) => {},
        _ => {
            return None;
        },
    }
    if same_text(&family, "container") {
        if get_field(st, "count").is_some() {
            Some(NodeAttributes::Container(attributes))
        } else {
            None
        }
    } else if same_text(&family, "array") {
        match (get_field(st, "data_type"), get_field(st, "shape")) {
            (Some(dt), Some(_)) => match decode_kind(dt) {
                Some(kind) => Some(NodeAttributes::Array { attributes, kind }),
                None => None,
            },
            _ => None,
        }
    } else if same_text(&family, "table") {
        match get_field(st, "columns") {
            Some(Json::Array(cs)) => match decode_strings(cs) {
                Some(columns) => Some(NodeAttributes::Table { attributes, columns }),
                None => None,
            },
            _ => None,
        }
    } else {
        None
    }
}

fn decode_links(j: &Json) -> (r: Option<Links>)
    ensures
        r == links_of(*j),
{
    match (
        get_string(j, "self"),
        get_optional_string(j, "documentation"),
        get_optional_string(j, "first"),
        get_optional_string(j, "last"),
        get_optional_string(j, "next"),
        get_optional_string(j, "prev"),
        get_optional_string(j, "search"),
        get_optional_string(j, "full"),
        get_optional_string(j, "block"),
        get_optional_string(j, "partition"),
    ) {
        (
            Some(self_field),
            Some(documentation),
            Some(first),
            Some(last),
            Some(next),
            Some(prev),
            Some(search),
            Some(full),
            Some(block),
            Some(partition),
        ) => Some(Links { self_field, documentation, first, last, next, prev, search, full, block, partition }),
        _ => None,
    }
}

/// Reads one node.
pub fn decode_node(j: &Json) -> (r: Option<Node>)
    ensures
        r matches Some(n) ==> node_of(*j) == Some(n@),
        r is None ==> node_of(*j) is None,
{
    let links = match get_field(j, "links") {
        None => None,
        Some(Json::Null) => None,
        Some(l) => match decode_links(l) {
            Some(links) => Some(links),
            None => {
                return None;
            },
        },
    };
    match (get_string(j, "id"), get_field(j, "attributes")) {
        (Some(id), Some(at)) => match decode_node_attributes(at) {
            Some(attributes) => Some(Node { id, attributes, links }),
            None => None,
        },
        _ => None,
    }
}

/// Reads an array of nodes; all of them or nothing.
pub fn decode_nodes(xs: &Vec<Json>) -> (r: Option<Vec<Node>>)
    ensures
        r matches Some(v) ==> all_nodes(xs@) == Some(nodes_view(v@)),
        r is None ==> all_nodes(xs@) is None,
{
    let mut v: Vec<Node> = Vec::new();
    let mut i: usize = 0;
    while i < xs.len()
        invariant
            i <= xs.len(),
            v@.len() == i,
            forall|k: int| 0 <= k < i ==> #[trigger] node_of(xs@[k]) == Some(v@[k]@),
        decreases xs.len() - i,
    {
        match decode_node(&xs[i]) {
            Some(n) => v.push(n),
            None => {
                return None;
            },
        }
        i = i + 1;
    }
    assert(nodes_view(v@) =~= xs@.map_values(|x: Json| node_of(x).unwrap()));
    Some(v)
}

/// Reads the nodes that the `data` of a search document lists.
pub fn decode_listed_nodes(data: &Json) -> (r: Option<Vec<Node>>)
    ensures
        r matches Some(v) ==> listed_nodes_of(*data) == Some(nodes_view(v@)),
        r is None ==> listed_nodes_of(*data) is None,
{
    match data {
        Json::Array(xs) => decode_nodes(xs),
        _ => None,
    }
}

} // verus!
