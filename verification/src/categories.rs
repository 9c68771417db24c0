//! Category trees: filing, and counting what is filed.
//!
//! A node's path is its parent's path and its own slug, which is what makes the descendant filter and the rollup
//! work. A retired category takes no new assets. Counts run through the caller's plan, because counts disclose.

use crate::commands::{as_text, Command, Given, Value};
use crate::query_sql::{push_where, Planned};
use crate::sql::{push, push_bind_id, query, Bind, Query, Statement};
use crate::text::{same, uuid_chars, uuid_text, wrapped};
use crate::{count, counted, Instant, Uuid};
use vstd::prelude::*;

verus! {

/// Why a category operation was refused.
#[derive(Debug, Clone, PartialEq, Eq)]
pub enum CategoryRefusal {
    NotACategoryTree(Uuid),
    UnknownCategory(Uuid),
    Retired(Uuid),
    DuplicatePath(String),
}

impl CategoryRefusal {
    /// The text of this refusal.
    pub open spec fn message_chars(self) -> Seq<char> {
        match self {
            CategoryRefusal::NotACategoryTree(given) => "taxonomy "@ + uuid_chars(given) + " is not a category tree"@,
            CategoryRefusal::UnknownCategory(given) => "no category "@ + uuid_chars(given) + " exists"@,
            CategoryRefusal::Retired(given) => "category "@ + uuid_chars(given) + " is retired and cannot take new assets"@,
            CategoryRefusal::DuplicatePath(given) => "a category `"@ + given@ + "` already exists under that parent"@,
        }
    }

    /// The sentence whoever was refused reads.
    pub fn message(&self) -> (out: String)
        ensures
            out@ == self.message_chars(),
    {
        match self {
            CategoryRefusal::NotACategoryTree(given) => {
                let mut out = "taxonomy ".to_owned();
                out.append(uuid_text(*given).as_str());
                out.append(" is not a category tree");
                out
            },
            CategoryRefusal::UnknownCategory(given) => {
                let mut out = "no category ".to_owned();
                out.append(uuid_text(*given).as_str());
                out.append(" exists");
                out
            },
            CategoryRefusal::Retired(given) => {
                let mut out = "category ".to_owned();
                out.append(uuid_text(*given).as_str());
                out.append(" is retired and cannot take new assets");
                out
            },
            CategoryRefusal::DuplicatePath(given) => {
                let mut out = "a category `".to_owned();
                out.append(given.as_str());
                out.append("` already exists under that parent");
                out
            },
        }
    }
}

/// A category tree.
#[derive(Debug, Clone, PartialEq, Eq)]
pub struct CategoryTree {
    pub id: Uuid,
    pub key: String,
    pub label: String,
}

/// One node of a tree.
#[derive(Debug, Clone, PartialEq, Eq)]
pub struct CategoryNode {
    pub id: Uuid,
    pub parent_id: Option<Uuid>,
    pub path: String,
    pub slug: String,
    pub label: String,
    /// How deep, so that a client indents without parsing `path`.
    pub depth: usize,
    pub retired: bool,
}

/// A node with the count of assets the caller can see beneath it.
#[derive(Debug, Clone, PartialEq, Eq)]
pub struct CountedCategory {
    pub id: Uuid,
    pub parent_id: Option<Uuid>,
    pub path: String,
    pub slug: String,
    pub label: String,
    pub depth: usize,
    pub retired: bool,
    /// Distinct visible assets in this category or any beneath it.
    pub assets: i64,
}

/// A category to create.
#[derive(Debug, Clone, PartialEq, Eq)]
pub struct NewCategory {
    pub taxonomy_id: Uuid,
    /// `None` makes it a root.
    pub parent_id: Option<Uuid>,
    /// The label for this level of the path.
    pub slug: String,
    pub label: String,
}

/// A node's row.
#[derive(Debug, Clone, PartialEq, Eq)]
pub struct CategoryRow {
    pub id: Uuid,
    pub parent_id: Option<Uuid>,
    pub path: String,
    pub slug: String,
    pub label: String,
    pub deprecated_at: Option<Instant>,
}

/// How many dots a path has.
pub open spec fn dots(path: Seq<char>) -> nat
    decreases path.len(),
{
    if path.len() == 0 {
        0
    } else {
        dots(path.drop_last()) + if path.last() == '.' {
            1nat
        } else {
            0nat
        }
    }
}

/// Depth from a path: `exterior` is 0, `exterior.yellow` is 1.
pub fn depth_of(path: &str) -> (depth: usize)
    ensures
        depth == dots(path@),
{
    let mut depth: usize = 0;
    let len: usize = path.unicode_len();
    let mut i: usize = 0;
    proof {
        assert(path@.take(0) =~= Seq::<char>::empty());
    }
    while i < len
        invariant
            i <= len,
            len == path@.len(),
            depth <= i,
            depth == dots(path@.take(i as int)),
        decreases len - i,
    {
        proof {
            assert(path@.take(i + 1).drop_last() =~= path@.take(i as int));
            assert(path@.take(i + 1).last() == path@[i as int]);
        }
        if path.get_char(i) == '.' {
            depth += 1;
        }
        i += 1;
    }
    proof {
        assert(path@.take(i as int) =~= path@);
    }
    depth
}

/// Whether a node is what its row says.
pub open spec fn reads_row(node: CategoryNode, row: CategoryRow) -> bool {
    node == (CategoryNode {
        id: row.id,
        parent_id: row.parent_id,
        path: row.path,
        slug: row.slug,
        label: row.label,
        depth: dots(row.path@) as usize,
        retired: row.deprecated_at is Some,
    })
}

/// One selected row as a node.
pub fn node(row: CategoryRow) -> (node: CategoryNode)
    ensures
        reads_row(node, row),
{
    let depth: usize = depth_of(row.path.as_str());
    CategoryNode {
        id: row.id,
        parent_id: row.parent_id,
        depth,
        path: row.path,
        slug: row.slug,
        label: row.label,
        retired: row.deprecated_at.is_some(),
    }
}

/// Selected rows as nodes, in their order.
pub fn tree(rows: Vec<CategoryRow>) -> (nodes: Vec<CategoryNode>)
    ensures
        nodes@.len() == rows@.len(),
        forall|i: int| 0 <= i < rows@.len() ==> reads_row(#[trigger] nodes@[i], rows@[i]),
{
    let ghost all = rows@;
    let mut nodes: Vec<CategoryNode> = Vec::new();
    for row in each: rows
        invariant
            each.seq() == all,
            nodes@.len() == each.index(),
            forall|i: int| 0 <= i < each.index() ==> reads_row(#[trigger] nodes@[i], all[i]),
    {
        nodes.push(node(row));
    }
    nodes
}

/// Refuses a taxonomy that is not a category tree. "No such taxonomy" and "a vocabulary" answer alike.
pub fn require_tree(taxonomy_id: Uuid, kind: &Option<String>) -> (checked: Result<(), CategoryRefusal>)
    ensures
        checked == if crate::text::opt_chars(*kind) == Some("category"@) {
            Ok::<(), CategoryRefusal>(())
        } else {
            Err(CategoryRefusal::NotACategoryTree(taxonomy_id))
        },
{
    match kind {
        Some(word) => if same(word.as_str(), "category") {
            Ok(())
        } else {
            Err(CategoryRefusal::NotACategoryTree(taxonomy_id))
        },
        None => Err(CategoryRefusal::NotACategoryTree(taxonomy_id)),
    }
}

/// A parent as it was found: its path, and the tree it is in.
#[derive(Debug, Clone, PartialEq, Eq)]
pub struct Parent {
    pub path: String,
    pub taxonomy_id: Uuid,
}

/// The path of a category under `parent`, or at the root.
pub open spec fn path_chars(parent: Option<Seq<char>>, slug: Seq<char>) -> Seq<char> {
    match parent {
        Some(above) => above + "."@ + slug,
        None => slug,
    }
}

/// The path of a new category. A parent that does not exist, or is in another tree, is unknown: re-parenting
/// across trees would produce a path that no longer describes where the node lives.
pub fn new_path(spec: &NewCategory, parent: Option<Parent>) -> (path: Result<String, CategoryRefusal>)
    ensures
        match spec.parent_id {
            None => path matches Ok(text) && text@ == spec.slug@,
            Some(id) => match parent {
                Some(found) => if found.taxonomy_id == spec.taxonomy_id {
                    path matches Ok(text) && text@ == path_chars(Some(found.path@), spec.slug@)
                } else {
                    path == Err::<String, CategoryRefusal>(CategoryRefusal::UnknownCategory(id))
                },
                None => path == Err::<String, CategoryRefusal>(CategoryRefusal::UnknownCategory(id)),
            },
        },
{
    match spec.parent_id {
        None => Ok(spec.slug.clone()),
        Some(id) => match parent {
            Some(found) => if found.taxonomy_id == spec.taxonomy_id {
                Ok(wrapped(found.path.as_str(), ".", spec.slug.as_str()))
            } else {
                Err(CategoryRefusal::UnknownCategory(id))
            },
            None => Err(CategoryRefusal::UnknownCategory(id)),
        },
    }
}

/// Refuses a path that another category has. `clash` is whether one does.
pub fn check_path(path: String, clash: bool) -> (checked: Result<String, CategoryRefusal>)
    ensures
        checked == if clash {
            Err::<String, CategoryRefusal>(CategoryRefusal::DuplicatePath(path))
        } else {
            Ok(path)
        },
{
    if clash {
        Err(CategoryRefusal::DuplicatePath(path))
    } else {
        Ok(path)
    }
}

pub const FILE: &'static str =
    "INSERT INTO asset_tags (asset_id, term_id, state, source, reviewed_by, reviewed_at) VALUES ($1, $2, \
     'confirmed', 'human', $3, now()) ON CONFLICT (asset_id, term_id) DO UPDATE SET state = 'confirmed', \
     source = 'human', reviewed_by = $3, reviewed_at = now()";

/// Files an asset in a category, confirmed by a person whatever was said before. `deprecated_at` is the category's
/// row, where there is one: nothing is filed in a retired category.
pub fn file(
    asset_id: Uuid,
    category_id: Uuid,
    deprecated_at: Option<Option<Instant>>,
    filed_by: Option<Uuid>,
) -> (filed: Result<Command, CategoryRefusal>)
    ensures
        match filed {
            Ok(command) => {
                &&& deprecated_at == Some(None::<Instant>)
                &&& command.says(
                    "INSERT INTO asset_tags (asset_id, term_id, state, source, reviewed_by, reviewed_at) VALUES ($1, $2, \
                     'confirmed', 'human', $3, now()) ON CONFLICT (asset_id, term_id) DO UPDATE SET state = 'confirmed', \
                     source = 'human', reviewed_by = $3, reviewed_at = now()"@,
                    seq![Given::Id(asset_id), Given::Id(category_id), Given::MaybeId(filed_by)],
                )
            },
            Err(refusal) => match deprecated_at {
                None => refusal == CategoryRefusal::UnknownCategory(category_id),
                Some(retired) => retired is Some && refusal == CategoryRefusal::Retired(category_id),
            },
        },
{
    match deprecated_at {
        None => Err(CategoryRefusal::UnknownCategory(category_id)),
        Some(retired) => match retired {
            Some(_) => Err(CategoryRefusal::Retired(category_id)),
            None => Ok(
                Command::new(
                    FILE,
                    vec![Value::Id(asset_id), Value::Id(category_id), Value::MaybeId(filed_by)],
                ),
            ),
        },
    }
}

pub const VISIBLE: &'static str =
    "WITH visible AS (SELECT assets.id FROM assets \
     LEFT JOIN asset_metadata ON asset_metadata.asset_id = assets.id WHERE ";

pub const ROLLUP: &'static str =
    ") SELECT ancestor.id, count(DISTINCT visible.id) AS n \
     FROM taxonomy_terms ancestor \
     LEFT JOIN taxonomy_terms tagged \
          ON tagged.path <@ ancestor.path AND tagged.taxonomy_id = ancestor.taxonomy_id \
     LEFT JOIN asset_tags at ON at.term_id = tagged.id AND at.state = 'confirmed' \
     LEFT JOIN visible ON visible.id = at.asset_id \
     WHERE ancestor.taxonomy_id = ";

/// The statement that counts, for each node, the distinct assets the caller can see at or beneath it. An asset
/// filed under two leaves of one branch counts once for that branch.
pub fn counts(taxonomy_id: Uuid, planned: &Planned) -> (statement: Statement)
    requires
        planned.fits(),
    ensures
        query(statement) == planned.after(Query::new(
            "WITH visible AS (SELECT assets.id FROM assets \
             LEFT JOIN asset_metadata ON asset_metadata.asset_id = assets.id WHERE "@,
        )).push(
            ") SELECT ancestor.id, count(DISTINCT visible.id) AS n \
             FROM taxonomy_terms ancestor \
             LEFT JOIN taxonomy_terms tagged \
             ON tagged.path <@ ancestor.path AND tagged.taxonomy_id = ancestor.taxonomy_id \
             LEFT JOIN asset_tags at ON at.term_id = tagged.id AND at.state = 'confirmed' \
             LEFT JOIN visible ON visible.id = at.asset_id \
             WHERE ancestor.taxonomy_id = "@,
        ).bind(
            Bind::Id(taxonomy_id),
        ).push(" GROUP BY ancestor.id"@),
{
    let mut statement = Statement::new(VISIBLE);
    push_where(&mut statement, planned);
    push(&mut statement, ROLLUP);
    push_bind_id(&mut statement, taxonomy_id);
    push(&mut statement, " GROUP BY ancestor.id");
    statement
}

/// The count for `id` among `counts`: the first there is, or nothing.
pub open spec fn count_for(counts: Seq<(Uuid, i64)>, id: Uuid) -> i64
    decreases counts.len(),
{
    if counts.len() == 0 {
        0
    } else if counts[0].0 == id {
        counts[0].1
    } else {
        count_for(counts.drop_first(), id)
    }
}

fn lookup(counts: &Vec<(Uuid, i64)>, id: Uuid) -> (assets: i64)
    ensures
        assets == count_for(counts@, id),
{
    let mut i: usize = 0;
    proof {
        assert(counts@.skip(0) =~= counts@);
    }
    while i < counts.len()
        invariant
            i <= counts@.len(),
            count_for(counts@, id) == count_for(counts@.skip(i as int), id),
        decreases counts@.len() - i,
    {
        proof {
            let rest = counts@.skip(i as int);
            assert(rest[0] == counts@[i as int]);
            assert(rest.drop_first() =~= counts@.skip(i + 1));
        }
        if counts[i].0 == id {
            return counts[i].1;
        }
        i += 1;
    }
    0
}

/// Whether a counted node is a node with its count.
pub open spec fn counts_node(node: CountedCategory, of: CategoryNode, assets: i64) -> bool {
    node == (CountedCategory {
        id: of.id,
        parent_id: of.parent_id,
        path: of.path,
        slug: of.slug,
        label: of.label,
        depth: of.depth,
        retired: of.retired,
        assets,
    })
}

/// The tree with each node's count; a node nothing was counted for has none.
pub fn tree_with_counts(
    nodes: Vec<CategoryNode>,
    counts: &Vec<(Uuid, i64)>,
) -> (tree: Vec<CountedCategory>)
    ensures
        tree@.len() == nodes@.len(),
        forall|i: int|
            0 <= i < nodes@.len() ==> counts_node(
                #[trigger] tree@[i],
                nodes@[i],
                count_for(counts@, nodes@[i].id),
            ),
{
    let ghost all = nodes@;
    let mut tree: Vec<CountedCategory> = Vec::new();
    for node in each: nodes
        invariant
            each.seq() == all,
            tree@.len() == each.index(),
            forall|i: int|
                0 <= i < each.index() ==> counts_node(
                    #[trigger] tree@[i],
                    all[i],
                    count_for(counts@, all[i].id),
                ),
    {
        let assets: i64 = lookup(counts, node.id);
        tree.push(
            CountedCategory {
                id: node.id,
                parent_id: node.parent_id,
                path: node.path,
                slug: node.slug,
                label: node.label,
                depth: node.depth,
                retired: node.retired,
                assets,
            },
        );
    }
    tree
}

pub const FILED: &'static str =
    "), filed AS (SELECT DISTINCT at.asset_id FROM asset_tags at \
         JOIN taxonomy_terms t ON t.id = at.term_id \
         WHERE t.taxonomy_id = ";

pub const UNFILED: &'static str =
    " AND at.state = 'confirmed') \
     SELECT visible.id FROM visible \
     LEFT JOIN filed ON filed.asset_id = visible.id \
     WHERE filed.asset_id IS NULL ORDER BY visible.id";

/// The statement that lists the visible assets in no category of a tree.
pub fn uncategorised(taxonomy_id: Uuid, planned: &Planned) -> (statement: Statement)
    requires
        planned.fits(),
    ensures
        query(statement) == planned.after(Query::new(VISIBLE@)).push(
            "), filed AS (SELECT DISTINCT at.asset_id FROM asset_tags at \
             JOIN taxonomy_terms t ON t.id = at.term_id \
             WHERE t.taxonomy_id = "@,
        ).bind(
            Bind::Id(taxonomy_id),
        ).push(
            " AND at.state = 'confirmed') \
             SELECT visible.id FROM visible \
             LEFT JOIN filed ON filed.asset_id = visible.id \
             WHERE filed.asset_id IS NULL ORDER BY visible.id"@,
        ),
{
    let mut statement = Statement::new(VISIBLE);
    push_where(&mut statement, planned);
    push(&mut statement, FILED);
    push_bind_id(&mut statement, taxonomy_id);
    push(&mut statement, UNFILED);
    statement
}

/// How many uncategorised assets there are, and a sample of them. Both come from one list, so that they agree.
pub fn worklist(ids: Vec<Uuid>, sample: i64) -> (list: (i64, Vec<Uuid>))
    ensures
        list.0 == counted(ids@.len()),
        list.1@ == ids@.take(
            if sample < 0 {
                0
            } else if sample > ids@.len() {
                ids@.len() as int
            } else {
                sample as int
            },
        ),
{
    let total: i64 = count(ids.len());
    let ghost given = ids@;
    let mut ids = ids;
    if sample < 0 {
        ids.truncate(0);
    } else if (sample as u128) < ids.len() as u128 {
        ids.truncate(sample as usize);
    } else {
        proof {
            assert(given.take(given.len() as int) =~= given);
        }
    }
    (total, ids)
}

proof fn lemma_dots_add(a: Seq<char>, b: Seq<char>)
    ensures
        dots(a + b) == dots(a) + dots(b),
    decreases b.len(),
{
    if b.len() == 0 {
        assert(a + b =~= a);
    } else {
        assert((a + b).drop_last() =~= a + b.drop_last());
        lemma_dots_add(a, b.drop_last());
    }
}

/// A child is one level below its parent, whenever its slug is one label.
pub proof fn a_child_is_one_level_deeper(parent: Seq<char>, slug: Seq<char>)
    requires
        dots(slug) == 0,
    ensures
        dots(path_chars(Some(parent), slug)) == dots(parent) + 1,
{
    reveal_strlit(".");
    lemma_dots_add(parent + "."@, slug);
    lemma_dots_add(parent, "."@);
    assert("."@.drop_last() =~= Seq::<char>::empty());
    assert(dots("."@) == 1) by {
        assert(dots(Seq::<char>::empty()) == 0);
        assert("."@.last() == '.');
    }
}

/// A category is as deep as its path has dots.
pub proof fn depth_counts_the_dots(path: Seq<char>)
    ensures
        dots(path) == path.filter(|c: char| c == '.').len(),
    decreases path.len(),
{
    reveal(Seq::filter);
    if path.len() > 0 {
        depth_counts_the_dots(path.drop_last());
    }
}

/// A category is read as its row says, field by field; it is retired exactly where the row says since when.
pub proof fn a_category_reads_as_its_row(
    node: CategoryNode,
    row: CategoryRow,
    shown: CountedCategory,
    assets: i64,
)
    ensures
        reads_row(node, row) ==> {
            &&& node.id == row.id
            &&& node.parent_id == row.parent_id
            &&& node.path == row.path
            &&& node.slug == row.slug
            &&& node.label == row.label
            &&& node.retired <==> row.deprecated_at is Some
        },
        counts_node(shown, node, assets) ==> {
            &&& shown.id == node.id
            &&& shown.parent_id == node.parent_id
            &&& shown.path == node.path
            &&& shown.slug == node.slug
            &&& shown.label == node.label
            &&& shown.depth == node.depth
            &&& shown.retired == node.retired
            &&& shown.assets == assets
        },
{
}

/// A category below another is at the other's path, a dot and its own name; one at the top is at its own name.
pub proof fn a_path_goes_through_the_parent(parent: Seq<char>, slug: Seq<char>)
    ensures
        path_chars(None, slug) == slug,
        path_chars(Some(parent), slug).len() == parent.len() + 1 + slug.len(),
        parent.is_prefix_of(path_chars(Some(parent), slug)),
        path_chars(Some(parent), slug)[parent.len() as int] == '.',
        path_chars(Some(parent), slug).skip(parent.len() as int + 1) == slug,
{
    reveal_strlit(".");
    let path = path_chars(Some(parent), slug);
    assert("."@.len() == 1);
    assert(path.take(parent.len() as int) =~= parent);
    assert(path.skip(parent.len() as int + 1) =~= slug);
}

/// A category that was counted has its count, one that was not has none.
pub proof fn a_count_belongs_to_its_category(counts: Seq<(Uuid, i64)>, id: Uuid, place: int)
    ensures
        (forall|i: int| 0 <= i < counts.len() ==> (#[trigger] counts[i]).0 != id) ==> count_for(counts, id) == 0,
        0 <= place < counts.len() && counts[place].0 == id && (forall|i: int|
            0 <= i < place ==> (#[trigger] counts[i]).0 != id) ==> count_for(counts, id) == counts[place].1,
    decreases counts.len(),
{
    if counts.len() > 0 && counts[0].0 != id {
        let rest = counts.drop_first();
        a_count_belongs_to_its_category(rest, id, place - 1);
        assert forall|i: int| 0 <= i < rest.len() implies #[trigger] rest[i] == counts[i + 1] by {}
        if forall|i: int| 0 <= i < counts.len() ==> (#[trigger] counts[i]).0 != id {
            assert forall|i: int| 0 <= i < rest.len() implies (#[trigger] rest[i]).0 != id by {
                assert(counts[i + 1].0 != id);
            }
        }
        if 0 < place < counts.len() && forall|i: int| 0 <= i < place ==> (#[trigger] counts[i]).0 != id {
            assert forall|i: int| 0 <= i < place - 1 implies (#[trigger] rest[i]).0 != id by {
                assert(counts[i + 1].0 != id);
            }
        }
    }
}

// ----------------------------------------------------------------------------------------------------
// Commands
// ----------------------------------------------------------------------------------------------------

pub const CREATE_TREE: &'static str =
    "INSERT INTO taxonomies (id, key, label, kind) VALUES (gen_random_uuid(), $1, $2, 'category') RETURNING \
     id";

/// A new category tree.
pub fn create_tree(key: &str, label: &str) -> (command: Command)
    ensures
        command.says(
            "INSERT INTO taxonomies (id, key, label, kind) VALUES (gen_random_uuid(), $1, $2, 'category') RETURNING \
             id"@,
            seq![Given::Text(key@), Given::Text(label@)],
        ),
{
    Command::new(CREATE_TREE, vec![as_text(key), as_text(label)])
}

pub const TREES: &'static str =
    "SELECT id, key, label FROM taxonomies WHERE kind = 'category' ORDER BY key";

/// Every category tree, by key.
pub fn trees() -> (command: Command)
    ensures
        command.says("SELECT id, key, label FROM taxonomies WHERE kind = 'category' ORDER BY key"@, Seq::empty()),
{
    Command::new(TREES, Vec::new())
}

pub const KIND_OF: &'static str = "SELECT kind FROM taxonomies WHERE id = $1";

/// What kind of vocabulary this is.
pub fn kind_of(taxonomy_id: Uuid) -> (command: Command)
    ensures
        command.says("SELECT kind FROM taxonomies WHERE id = $1"@, seq![Given::Id(taxonomy_id)]),
{
    Command::new(KIND_OF, vec![Value::Id(taxonomy_id)])
}

pub const PARENT_OF: &'static str = "SELECT path::text, taxonomy_id FROM taxonomy_terms WHERE id = $1";

/// Where a new category's parent stands.
pub fn parent_of(parent_id: Option<Uuid>) -> (command: Command)
    ensures
        command.says(
            "SELECT path::text, taxonomy_id FROM taxonomy_terms WHERE id = $1"@,
            seq![Given::MaybeId(parent_id)],
        ),
{
    Command::new(PARENT_OF, vec![Value::MaybeId(parent_id)])
}

pub const PATH_TAKEN: &'static str =
    "SELECT 1 FROM taxonomy_terms WHERE taxonomy_id = $1 AND path = text2ltree($2)";

/// Whether a path is taken.
pub fn path_taken(taxonomy_id: Uuid, path: &str) -> (command: Command)
    ensures
        command.says(
            "SELECT 1 FROM taxonomy_terms WHERE taxonomy_id = $1 AND path = text2ltree($2)"@,
            seq![Given::Id(taxonomy_id), Given::Text(path@)],
        ),
{
    Command::new(PATH_TAKEN, vec![Value::Id(taxonomy_id), as_text(path)])
}

pub const INSERT: &'static str =
    "INSERT INTO taxonomy_terms (id, taxonomy_id, parent_id, path, slug, label) VALUES (gen_random_uuid(), \
     $1, $2, text2ltree($3), $4, $5) RETURNING id";

/// A new category, at a path.
pub fn insert(spec: &NewCategory, path: &str) -> (command: Command)
    ensures
        command.says(
            "INSERT INTO taxonomy_terms (id, taxonomy_id, parent_id, path, slug, label) VALUES (gen_random_uuid(), \
             $1, $2, text2ltree($3), $4, $5) RETURNING id"@,
            seq![
                Given::Id(spec.taxonomy_id), Given::MaybeId(spec.parent_id), Given::Text(path@),
                Given::Text(spec.slug@), Given::Text(spec.label@),
            ],
        ),
{
    Command::new(
        INSERT,
        vec![
            Value::Id(spec.taxonomy_id), Value::MaybeId(spec.parent_id), as_text(path),
            as_text(spec.slug.as_str()), as_text(spec.label.as_str()),
        ],
    )
}

pub const NODES: &'static str =
    "SELECT id, parent_id, path::text, slug, label, deprecated_at FROM taxonomy_terms WHERE taxonomy_id = \
     $1 ORDER BY path";

/// A tree's categories, depth first with siblings in order.
pub fn nodes(taxonomy_id: Uuid) -> (command: Command)
    ensures
        command.says(
            "SELECT id, parent_id, path::text, slug, label, deprecated_at FROM taxonomy_terms WHERE taxonomy_id = \
             $1 ORDER BY path"@,
            seq![Given::Id(taxonomy_id)],
        ),
{
    Command::new(NODES, vec![Value::Id(taxonomy_id)])
}

pub const BY_PATH: &'static str =
    "SELECT id, parent_id, path::text, slug, label, deprecated_at FROM taxonomy_terms WHERE taxonomy_id = \
     $1 AND path = text2ltree($2)";

/// One category by its path within a tree.
pub fn by_path(taxonomy_id: Uuid, path: &str) -> (command: Command)
    ensures
        command.says(
            "SELECT id, parent_id, path::text, slug, label, deprecated_at FROM taxonomy_terms WHERE taxonomy_id = \
             $1 AND path = text2ltree($2)"@,
            seq![Given::Id(taxonomy_id), Given::Text(path@)],
        ),
{
    Command::new(BY_PATH, vec![Value::Id(taxonomy_id), as_text(path)])
}

pub const BY_ID: &'static str =
    "SELECT id, parent_id, path::text, slug, label, deprecated_at FROM taxonomy_terms WHERE id = $1";

/// One category.
pub fn by_id(id: Uuid) -> (command: Command)
    ensures
        command.says(
            "SELECT id, parent_id, path::text, slug, label, deprecated_at FROM taxonomy_terms WHERE id = $1"@,
            seq![Given::Id(id)],
        ),
{
    Command::new(BY_ID, vec![Value::Id(id)])
}

pub const DEPRECATION: &'static str = "SELECT deprecated_at FROM taxonomy_terms WHERE id = $1";

/// Whether a category is deprecated.
pub fn deprecation(category_id: Uuid) -> (command: Command)
    ensures
        command.says("SELECT deprecated_at FROM taxonomy_terms WHERE id = $1"@, seq![Given::Id(category_id)]),
{
    Command::new(DEPRECATION, vec![Value::Id(category_id)])
}

pub const UNFILE: &'static str = "DELETE FROM asset_tags WHERE asset_id = $1 AND term_id = $2";

/// An asset, out of a category.
pub fn unfile(asset_id: Uuid, category_id: Uuid) -> (command: Command)
    ensures
        command.says(
            "DELETE FROM asset_tags WHERE asset_id = $1 AND term_id = $2"@,
            seq![Given::Id(asset_id), Given::Id(category_id)],
        ),
{
    Command::new(UNFILE, vec![Value::Id(asset_id), Value::Id(category_id)])
}

pub const OF_ASSET: &'static str =
    "SELECT t.id, t.parent_id, t.path::text, t.slug, t.label, t.deprecated_at FROM asset_tags at JOIN \
     taxonomy_terms t ON t.id = at.term_id JOIN taxonomies x ON x.id = t.taxonomy_id AND x.kind = \
     'category' WHERE at.asset_id = $1 AND at.state = 'confirmed' ORDER BY nlevel(t.path) DESC, t.path";

/// The categories an asset is filed in, deepest first.
pub fn of_asset(asset_id: Uuid) -> (command: Command)
    ensures
        command.says(
            "SELECT t.id, t.parent_id, t.path::text, t.slug, t.label, t.deprecated_at FROM asset_tags at JOIN \
             taxonomy_terms t ON t.id = at.term_id JOIN taxonomies x ON x.id = t.taxonomy_id AND x.kind = \
             'category' WHERE at.asset_id = $1 AND at.state = 'confirmed' ORDER BY nlevel(t.path) DESC, t.path"@,
            seq![Given::Id(asset_id)],
        ),
{
    Command::new(OF_ASSET, vec![Value::Id(asset_id)])
}

pub const ASSETS_IN: &'static str =
    "SELECT at.asset_id FROM asset_tags at JOIN assets a ON a.id = at.asset_id AND a.deleted_at IS NULL \
     WHERE at.term_id = $1 AND at.state = 'confirmed' ORDER BY a.created_at";

/// The assets filed directly in one category.
pub fn assets_in(category_id: Uuid) -> (command: Command)
    ensures
        command.says(
            "SELECT at.asset_id FROM asset_tags at JOIN assets a ON a.id = at.asset_id AND a.deleted_at IS NULL \
             WHERE at.term_id = $1 AND at.state = 'confirmed' ORDER BY a.created_at"@,
            seq![Given::Id(category_id)],
        ),
{
    Command::new(ASSETS_IN, vec![Value::Id(category_id)])
}

} // verus!
