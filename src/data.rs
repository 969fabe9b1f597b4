//! What a run's datasets become for the client: array datasets as download
//! entries, one for each asset that has an id, and table datasets as their
//! columns and the path under which their rows are fetched.

use vstd::prelude::*;

use crate::node::{Asset, DataSource, DataSourceView, Management, Node, NodeAttributes, NodeAttributesView, NodeView, nodes_view};
use crate::text::{copy_strings, join_path, join_segments, strings_view};

verus! {

/// The address of one downloadable asset: the run, the stream and the
/// dataset it belongs to, and its id within the dataset.
#[derive(Debug, Clone, PartialEq, Eq)]
pub struct AssetReference {
    pub run: String,
    pub stream: String,
    pub dataset: String,
    pub asset_id: u64,
}

/// One file of an array dataset: where it is stored, and how to download it.
#[derive(Debug, Clone, PartialEq, Eq)]
pub struct DataFile {
    pub file: String,
    pub download: AssetReference,
}

/// An array dataset and the files it is stored in.
#[derive(Debug, Clone, PartialEq, Eq)]
pub struct ArrayData {
    pub name: String,
    pub stream: String,
    pub files: Vec<DataFile>,
}

/// A table dataset: its columns, and the path of its rows below the root.
#[derive(Debug, Clone, PartialEq, Eq)]
pub struct TableData {
    pub name: String,
    pub columns: Vec<String>,
    pub path: String,
}

/// One dataset of a run, as the client sees it.
#[derive(Debug, Clone, PartialEq, Eq)]
pub enum Data {
    Array(ArrayData),
    Table(TableData),
}

pub struct ArrayDataView {
    pub name: String,
    pub stream: String,
    pub files: Seq<DataFile>,
}

pub struct TableDataView {
    pub name: String,
    pub columns: Seq<String>,
    pub path: Seq<char>,
}

pub enum DataView {
    Array(ArrayDataView),
    Table(TableDataView),
}

impl View for Data {
    type V = DataView;

    open spec fn view(&self) -> DataView {
        match self {
            Data::Array(a) => DataView::Array(ArrayDataView { name: a.name, stream: a.stream, files: a.files@ }),
            Data::Table(t) => DataView::Table(TableDataView { name: t.name, columns: t.columns@, path: t.path@ }),
        }
    }
}

pub open spec fn data_view(v: Seq<Data>) -> Seq<DataView> {
    v.map_values(|d: Data| d@)
}

/// The entries of a dataset's assets, in order: one for each asset that has
/// an id; an asset without one is skipped.
pub open spec fn asset_files(run: String, stream: String, dataset: String, assets: Seq<Asset>) -> Seq<DataFile>
    decreases assets.len(),
{
    if assets.len() == 0 {
        Seq::empty()
    } else {
        let rest = asset_files(run, stream, dataset, assets.drop_last());
        match assets.last().id {
            Some(id) => rest.push(
                DataFile {
                    file: assets.last().data_uri,
                    download: AssetReference { run, stream, dataset, asset_id: id },
                },
            ),
            None => rest,
        }
    }
}

/// The entries of all of a dataset's data sources, source by source.
pub open spec fn source_files(run: String, stream: String, dataset: String, sources: Seq<DataSourceView>) -> Seq<DataFile>
    decreases sources.len(),
{
    if sources.len() == 0 {
        Seq::empty()
    } else {
        source_files(run, stream, dataset, sources.drop_last()) + asset_files(run, stream, dataset, sources.last().assets)
    }
}

pub open spec fn array_files(run: String, stream: String, dataset: String, sources: Option<Seq<DataSourceView>>) -> Seq<DataFile> {
    match sources {
        Some(s) => source_files(run, stream, dataset, s),
        None => Seq::empty(),
    }
}

/// What a dataset node of a stream of a run becomes; containers are not
/// expanded and become nothing.
pub open spec fn project(run: String, stream: String, node: NodeView) -> Option<DataView> {
    match node.attributes {
        NodeAttributesView::Container(_) => None,
        NodeAttributesView::Array(a, _) => Some(
            DataView::Array(ArrayDataView { name: node.id, stream, files: array_files(run, stream, node.id, a.data_sources) }),
        ),
        NodeAttributesView::Table(a, columns) => Some(
            DataView::Table(TableDataView { name: node.id, columns, path: join_path(strings_view(a.ancestors.push(node.id))) }),
        ),
    }
}

/// What the dataset nodes of one stream become, in their order.
pub open spec fn project_stream(run: String, stream: String, nodes: Seq<NodeView>) -> Seq<DataView>
    decreases nodes.len(),
{
    if nodes.len() == 0 {
        Seq::empty()
    } else {
        let rest = project_stream(run, stream, nodes.drop_last());
        match project(run, stream, nodes.last()) {
            Some(d) => rest.push(d),
            None => rest,
        }
    }
}

fn push_asset_files(run: &String, stream: &String, dataset: &String, assets: &Vec<Asset>, out: &mut Vec<DataFile>)
    ensures
        final(out)@ == old(out)@ + asset_files(*run, *stream, *dataset, assets@),
{
    let ghost start = out@;
    let mut i: usize = 0;
    assert(start + asset_files(*run, *stream, *dataset, assets@.take(0)) =~= start);
    while i < assets.len()
        invariant
            i <= assets.len(),
            out@ == start + asset_files(*run, *stream, *dataset, assets@.take(i as int)),
        decreases assets.len() - i,
    {
        assert(assets@.take(i + 1).drop_last() =~= assets@.take(i as int));
        match assets[i].id {
            Some(id) => {
                let reference = AssetReference { run: run.clone(), stream: stream.clone(), dataset: dataset.clone(), asset_id: id };
                out.push(DataFile { file: assets[i].data_uri.clone(), download: reference });
                assert(out@ =~= start + asset_files(*run, *stream, *dataset, assets@.take(i + 1)));
            },
            None => {},
        }
        i = i + 1;
    }
    assert(assets@.take(assets@.len() as int) =~= assets@);
}

fn push_source_files(run: &String, stream: &String, dataset: &String, sources: &Vec<DataSource>, out: &mut Vec<DataFile>)
    ensures
        final(out)@ == old(out)@ + source_files(*run, *stream, *dataset, sources@.map_values(|d: DataSource| d@)),
{
    let ghost start = out@;
    let ghost sv = sources@.map_values(|d: DataSource| d@);
    let mut i: usize = 0;
    assert(start + source_files(*run, *stream, *dataset, sv.take(0)) =~= start);
    while i < sources.len()
        invariant
            i <= sources.len(),
            sv == sources@.map_values(|d: DataSource| d@),
            out@ == start + source_files(*run, *stream, *dataset, sv.take(i as int)),
        decreases sources.len() - i,
    {
        assert(sv.take(i + 1).drop_last() =~= sv.take(i as int));
        assert(sv.take(i + 1).last() == sources@[i as int]@);
        push_asset_files(run, stream, dataset, &sources[i].assets, out);
        assert(out@ =~= start + source_files(*run, *stream, *dataset, sv.take(i + 1)));
        i = i + 1;
    }
    assert(sv.take(sv.len() as int) =~= sv);
}

/// What one dataset node of a stream of a run becomes; `None` for a
/// container.
pub fn project_dataset(run: &String, stream: &String, node: &Node) -> (r: Option<Data>)
    ensures
        r matches Some(d) ==> project(*run, *stream, node@) == Some(d@),
        r is None ==> project(*run, *stream, node@) is None,
{
    match &node.attributes {
        NodeAttributes::Container(_) => None,
        NodeAttributes::Array { attributes: a, .. } => {
            let mut files: Vec<DataFile> = Vec::new();
            match &a.data_sources {
                Some(sources) => push_source_files(run, stream, &node.id, sources, &mut files),
                None => {},
            }
            assert(files@ =~= array_files(*run, *stream, node.id, a@.data_sources));
            Some(Data::Array(ArrayData { name: node.id.clone(), stream: stream.clone(), files }))
        },
        NodeAttributes::Table { attributes, columns } => {
            let mut segments = copy_strings(&attributes.ancestors);
            segments.push(node.id.clone());
            let path = join_segments(&segments);
            Some(Data::Table(TableData { name: node.id.clone(), columns: copy_strings(columns), path }))
        },
    }
}

/// Appends what the dataset nodes of one stream become, in their order.
pub fn push_stream_data(run: &String, stream: &String, nodes: &Vec<Node>, out: &mut Vec<Data>)
    ensures
        data_view(final(out)@) == data_view(old(out)@) + project_stream(*run, *stream, nodes_view(nodes@)),
{
    let ghost start = data_view(out@);
    let ghost nv = nodes_view(nodes@);
    let mut i: usize = 0;
    assert(start + project_stream(*run, *stream, nv.take(0)) =~= start);
    while i < nodes.len()
        invariant
            i <= nodes.len(),
            nv == nodes_view(nodes@),
            data_view(out@) == start + project_stream(*run, *stream, nv.take(i as int)),
        decreases nodes.len() - i,
    {
        assert(nv.take(i + 1).drop_last() =~= nv.take(i as int));
        assert(nv.take(i + 1).last() == nodes@[i as int]@);
        match project_dataset(run, stream, &nodes[i]) {
            Some(d) => {
                let ghost before = out@;
                let ghost dv = d@;
                out.push(d);
                assert(data_view(out@) =~= data_view(before).push(dv));
                assert(data_view(out@) =~= start + project_stream(*run, *stream, nv.take(i + 1)));
            },
            None => {},
        }
        i = i + 1;
    }
    assert(nv.take(nv.len() as int) =~= nv);
}

/// An array dataset with one data source of two assets, only one of which
/// has an id, yields exactly one download entry: the one for that asset.
pub proof fn one_entry_for_one_addressable_asset(
    run: String,
    stream: String,
    dataset: String,
    a: Asset,
    b: Asset,
    management: Management,
)
    requires
        a.id is Some <==> b.id is None,
    ensures
        ({
            let files = array_files(run, stream, dataset, Some(seq![DataSourceView { assets: seq![a, b], management }]));
            let with_id = if a.id is Some { a } else { b };
            &&& files.len() == 1
            &&& files[0] == DataFile {
                file: with_id.data_uri,
                download: AssetReference { run, stream, dataset, asset_id: with_id.id.unwrap() },
            }
        }),
{
    let sources = seq![DataSourceView { assets: seq![a, b], management }];
    assert(sources.drop_last() =~= Seq::<DataSourceView>::empty());
    assert(seq![a, b].drop_last() =~= seq![a]);
    assert(seq![a].drop_last() =~= Seq::<Asset>::empty());
    let files = asset_files(run, stream, dataset, seq![a, b]);
    let first = asset_files(run, stream, dataset, seq![a]);
    assert(asset_files(run, stream, dataset, Seq::<Asset>::empty()) == Seq::<DataFile>::empty());
    assert(source_files(run, stream, dataset, Seq::<DataSourceView>::empty()) == Seq::<DataFile>::empty());
    assert(sources.last().assets == seq![a, b]);
    assert(seq![a, b].last() == b);
    assert(seq![a].last() == a);
    if a.id is Some {
        assert(first.len() == 1);
        assert(files == first);
    } else {
        assert(first.len() == 0);
        assert(files.len() == 1);
    }
    assert(source_files(run, stream, dataset, sources) =~= Seq::<DataFile>::empty() + files);
    assert(Seq::<DataFile>::empty() + files =~= files);
}

} // verus!
