use vstd::prelude::*;
use crate::materialization::Materialization;
use crate::path_matcher::IncludeExcludable;
use crate::targets::{target_singular, RuleTarget};
use crate::text::str_equal;

verus! {

/// A documented column of a manifest object.
#[derive(Debug, Clone, PartialEq, Eq)]
pub struct ManifestColumn {
    pub name: String,
    pub description: String,
}

/// What a test object says about the test it runs.
#[derive(Debug, Clone, PartialEq, Eq)]
pub struct TestMetadata {
    /// The identifier of the object the test is attached to.
    pub attached_node: Option<String>,
    /// The kind of test, such as `unique`.
    pub name: String,
    /// The package that defines the test kind, if any.
    pub namespace: Option<String>,
}

/// One auditable object of the manifest.
#[derive(Debug, Clone, PartialEq, Eq)]
pub struct ManifestObject {
    pub unique_id: String,
    pub name: String,
    pub target: RuleTarget,
    pub relative_path: String,
    pub description: Option<String>,
    pub tags: Vec<String>,
    /// The keys of the metadata map, if the object has one.
    pub meta: Option<Vec<String>>,
    pub columns: Vec<ManifestColumn>,
    pub materialization: Option<Materialization>,
    pub test_metadata: Option<TestMetadata>,
}

/// The names of manifest columns.
pub open spec fn manifest_column_names(cs: Seq<ManifestColumn>) -> Seq<Seq<char>> {
    cs.map_values(|c: ManifestColumn| c.name@)
}

impl ManifestObject {
    /// A new object with no description, tags, metadata, columns,
    /// materialization or test metadata.
    pub fn new(unique_id: &str, name: &str, target: RuleTarget, relative_path: &str) -> (r: ManifestObject)
        ensures
            r.unique_id@ == unique_id@,
            r.name@ == name@,
            r.target == target,
            r.relative_path@ == relative_path@,
            r.description is None,
            r.tags@.len() == 0,
            r.meta is None,
            r.columns@.len() == 0,
            r.materialization is None,
            r.test_metadata is None,
    {
        ManifestObject {
            unique_id: String::from_str(unique_id),
            name: String::from_str(name),
            target,
            relative_path: String::from_str(relative_path),
            description: None,
            tags: Vec::new(),
            meta: None,
            columns: Vec::new(),
            materialization: None,
            test_metadata: None,
        }
    }

    pub fn get_name(&self) -> (r: &str)
        ensures
            r@ == self.name@,
    {
        self.name.as_str()
    }

    pub fn get_unique_id(&self) -> (r: &str)
        ensures
            r@ == self.unique_id@,
    {
        self.unique_id.as_str()
    }

    /// The object type shown in findings: the singular of its target.
    pub fn get_object_type(&self) -> (r: &'static str)
        ensures
            r@ == target_singular(self.target),
    {
        self.target.as_str()
    }

    pub fn get_materialization(&self) -> (r: Option<&Materialization>)
        ensures
            match self.materialization {
                Some(m) => r == Some(&m),
                None => r is None,
            },
    {
        match &self.materialization {
            Some(m) => Some(m),
            None => None,
        }
    }
}

impl IncludeExcludable for ManifestObject {
    fn get_relative_path(&self) -> &String {
        &self.relative_path
    }
}

/// The manifest: its auditable objects, identified by `unique_id`.
#[derive(Debug, Clone, PartialEq, Eq)]
pub struct Manifest {
    pub objects: Vec<ManifestObject>,
}

/// The first object with the given identifier, if any.
pub open spec fn find_object(objs: Seq<ManifestObject>, id: Seq<char>) -> Option<int>
    decreases objs.len(),
{
    if objs.len() == 0 {
        None
    } else if objs[0].unique_id@ == id {
        Some(0)
    } else {
        match find_object(objs.skip(1), id) {
            Some(i) => Some(i + 1),
            None => None,
        }
    }
}

proof fn lemma_find_object_bounds(objs: Seq<ManifestObject>, id: Seq<char>)
    ensures
        find_object(objs, id) matches Some(i) ==> 0 <= i < objs.len() && objs[i].unique_id@ == id,
        find_object(objs, id) is None ==> forall|j: int| 0 <= j < objs.len() ==> objs[j].unique_id@ != id,
    decreases objs.len(),
{
    if objs.len() > 0 {
        lemma_find_object_bounds(objs.skip(1), id);
        if objs[0].unique_id@ != id {
            assert forall|j: int| 1 <= j < objs.len() implies objs[j].unique_id@ == objs.skip(1)[j - 1].unique_id@ by {}
        }
    }
}

impl Manifest {
    /// The object with identifier `unique_id`; the first one where several share it.
    pub fn get_node(&self, unique_id: &str) -> (r: Option<&ManifestObject>)
        ensures
            match find_object(self.objects@, unique_id@) {
                Some(i) => r == Some(&self.objects@[i]),
                None => r is None,
            },
    {
        let mut i: usize = 0;
        proof {
            assert(self.objects@.skip(0) =~= self.objects@);
        }
        while i < self.objects.len()
            invariant
                i <= self.objects@.len(),
                find_object(self.objects@, unique_id@) == match find_object(self.objects@.skip(i as int), unique_id@) {
                    Some(j) => Some(j + i),
                    None => None::<int>,
                },
            decreases self.objects@.len() - i,
        {
            if str_equal(self.objects[i].unique_id.as_str(), unique_id) {
                return Some(&self.objects[i]);
            }
            proof {
                assert(self.objects@.skip(i as int).skip(1) =~= self.objects@.skip(i + 1));
            }
            i += 1;
        }
        None
    }
}

/// A column of a materialized table, with its warehouse type.
#[derive(Debug, Clone, PartialEq, Eq)]
pub struct CatalogColumn {
    pub name: String,
    pub data_type: String,
}

/// The names of catalog columns.
pub open spec fn catalog_column_names(cs: Seq<CatalogColumn>) -> Seq<Seq<char>> {
    cs.map_values(|c: CatalogColumn| c.name@)
}

/// What every catalog record holds.
#[derive(Debug, Clone, PartialEq, Eq)]
pub struct CatalogNodeBase {
    pub unique_id: String,
    pub name: String,
    pub columns: Vec<CatalogColumn>,
}

/// A catalog record of a node, classified by the prefix of its identifier.
#[derive(Debug, Clone, PartialEq, Eq)]
pub enum CatalogNode {
    Model(CatalogModel),
    Seed(CatalogSeed),
    Snapshot(CatalogSnapshot),
    Test(CatalogTest),
    Analysis(CatalogAnalysis),
    Operation(CatalogOperation),
    SqlOperation(CatalogSqlOperation),
}

#[derive(Debug, Clone, PartialEq, Eq)]
pub struct CatalogModel {
    pub base: CatalogNodeBase,
}

#[derive(Debug, Clone, PartialEq, Eq)]
pub struct CatalogSeed {
    pub base: CatalogNodeBase,
}

#[derive(Debug, Clone, PartialEq, Eq)]
pub struct CatalogSnapshot {
    pub base: CatalogNodeBase,
}

#[derive(Debug, Clone, PartialEq, Eq)]
pub struct CatalogTest {
    pub base: CatalogNodeBase,
}

#[derive(Debug, Clone, PartialEq, Eq)]
pub struct CatalogAnalysis {
    pub base: CatalogNodeBase,
}

#[derive(Debug, Clone, PartialEq, Eq)]
pub struct CatalogOperation {
    pub base: CatalogNodeBase,
}

#[derive(Debug, Clone, PartialEq, Eq)]
pub struct CatalogSqlOperation {
    pub base: CatalogNodeBase,
}

/// The part of an identifier before its first `.`.
pub open spec fn id_prefix(s: Seq<char>) -> Seq<char>
    decreases s.len(),
{
    if s.len() == 0 {
        s
    } else if s[0] == '.' {
        seq![]
    } else {
        seq![s[0]] + id_prefix(s.skip(1))
    }
}

/// The record kind that an identifier prefix names.
pub open spec fn catalog_kind(prefix: Seq<char>) -> Option<int> {
    if prefix == "model"@ { Some(0) }
    else if prefix == "seed"@ { Some(1) }
    else if prefix == "snapshot"@ { Some(2) }
    else if prefix == "test"@ { Some(3) }
    else if prefix == "analysis"@ { Some(4) }
    else if prefix == "operation"@ { Some(5) }
    else if prefix == "sql_operation"@ { Some(6) }
    else { None }
}

pub open spec fn catalog_node_kind(n: CatalogNode) -> int {
    match n {
        CatalogNode::Model(_) => 0,
        CatalogNode::Seed(_) => 1,
        CatalogNode::Snapshot(_) => 2,
        CatalogNode::Test(_) => 3,
        CatalogNode::Analysis(_) => 4,
        CatalogNode::Operation(_) => 5,
        CatalogNode::SqlOperation(_) => 6,
    }
}

pub open spec fn catalog_node_base(n: CatalogNode) -> CatalogNodeBase {
    match n {
        CatalogNode::Model(n) => n.base,
        CatalogNode::Seed(n) => n.base,
        CatalogNode::Snapshot(n) => n.base,
        CatalogNode::Test(n) => n.base,
        CatalogNode::Analysis(n) => n.base,
        CatalogNode::Operation(n) => n.base,
        CatalogNode::SqlOperation(n) => n.base,
    }
}

/// The part of `s` before its first `.`.
pub fn prefix_before_dot(s: &str) -> (r: &str)
    ensures
        r@ == id_prefix(s@),
{
    let n = s.unicode_len();
    let mut i: usize = 0;
    let mut found = false;
    proof {
        assert(s@.skip(0) =~= s@);
        assert(s@.subrange(0, 0) + id_prefix(s@) =~= id_prefix(s@));
    }
    while i < n && !found
        invariant
            i <= n == s@.len(),
            found ==> i < n && s@[i as int] == '.',
            id_prefix(s@) == s@.subrange(0, i as int) + id_prefix(s@.skip(i as int)),
        decreases n - i + (if found { 0int } else { 1int }),
    {
        if s.get_char(i) == '.' {
            found = true;
        } else {
            proof {
                let rest = s@.skip(i as int);
                assert(rest.skip(1) =~= s@.skip(i + 1));
                assert(s@.subrange(0, i + 1) =~= s@.subrange(0, i as int) + seq![rest[0]]);
            }
            i += 1;
        }
    }
    proof {
        if found {
            assert(s@.skip(i as int)[0] == '.');
            assert(id_prefix(s@.skip(i as int)) =~= seq![]);
        } else {
            assert(s@.skip(i as int) =~= seq![]);
        }
        assert(s@.subrange(0, i as int) + seq![] =~= s@.subrange(0, i as int));
    }
    s.substring_char(0, i)
}

/// The kind of a catalog node, as shown to users.
pub open spec fn catalog_node_label(n: CatalogNode) -> Seq<char> {
    match n {
        CatalogNode::Model(_) => "Model"@,
        CatalogNode::Seed(_) => "Seed"@,
        CatalogNode::Snapshot(_) => "Snapshot"@,
        CatalogNode::Test(_) => "Test"@,
        CatalogNode::Analysis(_) => "Analysis"@,
        CatalogNode::Operation(_) => "Operation"@,
        CatalogNode::SqlOperation(_) => "SqlOperation"@,
    }
}

impl CatalogNode {
    /// Classifies a record by the prefix of its identifier (`model.` and so
    /// on); an unknown prefix is an error that names it.
    pub fn from_base(base: CatalogNodeBase) -> (r: Result<CatalogNode, String>)
        ensures
            match catalog_kind(id_prefix(base.unique_id@)) {
                Some(k) => r matches Ok(n) && catalog_node_kind(n) == k && catalog_node_base(n) == base,
                None => r matches Err(m) && m@ == "Unknown resource type: "@ + id_prefix(base.unique_id@),
            },
    {
        let prefix = String::from_str(prefix_before_dot(base.unique_id.as_str()));
        let p = prefix.as_str();
        if str_equal(p, "model") {
            Ok(CatalogNode::Model(CatalogModel { base }))
        } else if str_equal(p, "seed") {
            Ok(CatalogNode::Seed(CatalogSeed { base }))
        } else if str_equal(p, "snapshot") {
            Ok(CatalogNode::Snapshot(CatalogSnapshot { base }))
        } else if str_equal(p, "test") {
            Ok(CatalogNode::Test(CatalogTest { base }))
        } else if str_equal(p, "analysis") {
            Ok(CatalogNode::Analysis(CatalogAnalysis { base }))
        } else if str_equal(p, "operation") {
            Ok(CatalogNode::Operation(CatalogOperation { base }))
        } else if str_equal(p, "sql_operation") {
            Ok(CatalogNode::SqlOperation(CatalogSqlOperation { base }))
        } else {
            let mut m = String::from_str("Unknown resource type: ");
            m.append(p);
            Err(m)
        }
    }

    pub fn get_base(&self) -> (r: &CatalogNodeBase)
        ensures
            *r == catalog_node_base(*self),
    {
        match self {
            CatalogNode::Model(n) => &n.base,
            CatalogNode::Seed(n) => &n.base,
            CatalogNode::Snapshot(n) => &n.base,
            CatalogNode::Test(n) => &n.base,
            CatalogNode::Analysis(n) => &n.base,
            CatalogNode::Operation(n) => &n.base,
            CatalogNode::SqlOperation(n) => &n.base,
        }
    }

    pub fn get_name(&self) -> (r: &str)
        ensures
            r@ == catalog_node_base(*self).name@,
    {
        self.get_base().name.as_str()
    }

    pub fn get_unique_id(&self) -> (r: &str)
        ensures
            r@ == catalog_node_base(*self).unique_id@,
    {
        self.get_base().unique_id.as_str()
    }

    /// The type shown in findings: the kind of record.
    pub fn get_object_type(&self) -> (r: &'static str)
        ensures
            r@ == catalog_node_label(*self),
    {
        self.as_str()
    }

    /// The string that names the record in messages: its name.
    pub fn get_object_string(&self) -> (r: &str)
        ensures
            r@ == catalog_node_base(*self).name@,
    {
        self.get_name()
    }

    /// The kind of record, as shown to users.
    pub fn as_str(&self) -> (r: &'static str)
        ensures
            r@ == catalog_node_label(*self),
    {
        match self {
            CatalogNode::Model(_) => "Model",
            CatalogNode::Seed(_) => "Seed",
            CatalogNode::Snapshot(_) => "Snapshot",
            CatalogNode::Test(_) => "Test",
            CatalogNode::Analysis(_) => "Analysis",
            CatalogNode::Operation(_) => "Operation",
            CatalogNode::SqlOperation(_) => "SqlOperation",
        }
    }
}

/// A catalog record of a source table.
#[derive(Debug, Clone, PartialEq, Eq)]
pub struct CatalogSource {
    pub unique_id: String,
    pub name: String,
    pub columns: Vec<CatalogColumn>,
}

impl CatalogSource {
    pub fn get_name(&self) -> (r: &str)
        ensures
            r@ == self.name@,
    {
        self.name.as_str()
    }

    pub fn get_unique_id(&self) -> (r: &str)
        ensures
            r@ == self.unique_id@,
    {
        self.unique_id.as_str()
    }

    pub fn get_object_type() -> (r: &'static str)
        ensures
            r@ == "Source"@,
    {
        "Source"
    }
}

/// The catalog: the materialized nodes and sources with their columns.
#[derive(Debug, Clone, PartialEq, Eq)]
pub struct Catalog {
    pub nodes: Vec<CatalogNode>,
    pub sources: Vec<CatalogSource>,
}

} // verus!
