use vstd::prelude::*;

use crate::actions_engine::{lemma_title_le_total, lemma_title_le_trans, title_le, title_le_str};
use crate::text::{copy_str, same_text};

verus! {

#[derive(Debug, Clone, PartialEq, Eq)]
pub struct ColumnSchema {
    pub name: String,
    pub data_type: String,
    pub nullable: bool,
    pub default_value: Option<String>,
}

#[derive(Debug, Clone, PartialEq, Eq)]
pub struct ForeignKeySchema {
    pub constraint_name: String,
    pub column_name: String,
    pub referenced_database: String,
    pub referenced_table: String,
    pub referenced_column: String,
}

#[derive(Debug, Clone, PartialEq, Eq)]
pub struct TableSchema {
    pub name: String,
    pub columns: Vec<ColumnSchema>,
    pub foreign_keys: Vec<ForeignKeySchema>,
}

#[derive(Debug, Clone, PartialEq, Eq)]
pub struct DatabaseSchema {
    pub name: String,
    pub tables: Vec<TableSchema>,
}

/// Databases, their tables, columns and foreign keys, in server order.
#[derive(Debug, Clone, PartialEq, Eq, Default)]
pub struct SchemaCatalog {
    pub databases: Vec<DatabaseSchema>,
}

#[derive(Debug, Clone, Copy, PartialEq, Eq, PartialOrd, Ord, Structural)]
pub enum RelationshipDirection {
    Outbound,
    Inbound,
}

#[derive(Debug, Clone, PartialEq, Eq)]
pub struct TableRelationship {
    pub direction: RelationshipDirection,
    pub constraint_name: String,
    pub source_column: String,
    pub related_database: String,
    pub related_table: String,
    pub related_column: String,
}

/// A failure reported by the schema backend, with its text kept as it was.
#[derive(Debug, Clone, PartialEq, Eq)]
pub struct SchemaBackendError {
    message: String,
}

impl SchemaBackendError {
    pub closed spec fn text(&self) -> Seq<char> {
        self.message@
    }

    pub fn new(message: &str) -> (r: Self)
        ensures
            r.text() == message@,
    {
        SchemaBackendError { message: copy_str(message) }
    }

    pub fn message(&self) -> (r: &str)
        ensures
            r@ == self.text(),
    {
        self.message.as_str()
    }
}

#[derive(Debug, Clone, PartialEq, Eq)]
pub enum SchemaCacheError {
    Backend(SchemaBackendError),
}

/// Index of the first database named `name`, from `i` on; -1 if none.
pub open spec fn database_index(dbs: Seq<DatabaseSchema>, name: Seq<char>, i: int) -> int
    decreases dbs.len() - i,
{
    if i < 0 || i >= dbs.len() {
        -1
    } else if dbs[i].name@ == name {
        i
    } else {
        database_index(dbs, name, i + 1)
    }
}

/// Index of the first table named `name`, from `i` on; -1 if none.
pub open spec fn table_index(tables: Seq<TableSchema>, name: Seq<char>, i: int) -> int
    decreases tables.len() - i,
{
    if i < 0 || i >= tables.len() {
        -1
    } else if tables[i].name@ == name {
        i
    } else {
        table_index(tables, name, i + 1)
    }
}

fn find_database(dbs: &Vec<DatabaseSchema>, name: &str) -> (r: Option<usize>)
    ensures
        match r {
            Some(i) => i == database_index(dbs@, name@, 0) && i < dbs@.len(),
            None => database_index(dbs@, name@, 0) == -1,
        },
{
    let mut i: usize = 0;
    while i < dbs.len()
        invariant
            i <= dbs@.len(),
            database_index(dbs@, name@, 0) == database_index(dbs@, name@, i as int),
        decreases dbs.len() - i,
    {
        if same_text(&dbs[i].name, name) {
            return Some(i);
        }
        i = i + 1;
    }
    None
}

fn find_table(tables: &Vec<TableSchema>, name: &str) -> (r: Option<usize>)
    ensures
        match r {
            Some(i) => i == table_index(tables@, name@, 0) && i < tables@.len(),
            None => table_index(tables@, name@, 0) == -1,
        },
{
    let mut i: usize = 0;
    while i < tables.len()
        invariant
            i <= tables@.len(),
            table_index(tables@, name@, 0) == table_index(tables@, name@, i as int),
        decreases tables.len() - i,
    {
        if same_text(&tables[i].name, name) {
            return Some(i);
        }
        i = i + 1;
    }
    None
}

pub open spec fn names_of(v: Seq<String>) -> Seq<Seq<char>> {
    v.map_values(|x: String| x@)
}

/// Database names of a catalog, in order.
pub open spec fn database_names(c: SchemaCatalog) -> Seq<Seq<char>> {
    c.databases@.map_values(|d: DatabaseSchema| d.name@)
}

/// Table names of the first database named `db`; empty if there is none.
pub open spec fn table_names(c: SchemaCatalog, db: Seq<char>) -> Seq<Seq<char>> {
    let d = database_index(c.databases@, db, 0);
    if d < 0 {
        seq![]
    } else {
        c.databases@[d].tables@.map_values(|t: TableSchema| t.name@)
    }
}

/// Column names of the first table named `table` in the first database named `db`;
/// empty if either is missing.
pub open spec fn column_names(c: SchemaCatalog, db: Seq<char>, table: Seq<char>) -> Seq<Seq<char>> {
    let d = database_index(c.databases@, db, 0);
    if d < 0 {
        seq![]
    } else {
        let t = table_index(c.databases@[d].tables@, table, 0);
        if t < 0 {
            seq![]
        } else {
            c.databases@[d].tables@[t].columns@.map_values(|col: ColumnSchema| col.name@)
        }
    }
}

/// A relationship as plain values: direction, constraint, source column, related
/// database, related table, related column.
pub type RelationshipView = (RelationshipDirection, Seq<char>, Seq<char>, Seq<char>, Seq<char>, Seq<char>);

pub open spec fn rel_view(r: TableRelationship) -> RelationshipView {
    (
        r.direction,
        r.constraint_name@,
        r.source_column@,
        r.related_database@,
        r.related_table@,
        r.related_column@,
    )
}

pub open spec fn rels_view(v: Seq<TableRelationship>) -> Seq<RelationshipView> {
    v.map_values(|r: TableRelationship| rel_view(r))
}

/// One outbound relationship for each foreign key of the table.
pub open spec fn outbound(fks: Seq<ForeignKeySchema>) -> Seq<RelationshipView>
    decreases fks.len(),
{
    if fks.len() == 0 {
        seq![]
    } else {
        let fk = fks.last();
        outbound(fks.drop_last()).push(
            (
                RelationshipDirection::Outbound,
                fk.constraint_name@,
                fk.column_name@,
                fk.referenced_database@,
                fk.referenced_table@,
                fk.referenced_column@,
            ),
        )
    }
}

/// One inbound relationship for each foreign key of `source` that references
/// `db`.`table`.
pub open spec fn inbound_from(
    fks: Seq<ForeignKeySchema>,
    source: Seq<char>,
    db: Seq<char>,
    table: Seq<char>,
) -> Seq<RelationshipView>
    decreases fks.len(),
{
    if fks.len() == 0 {
        seq![]
    } else {
        let fk = fks.last();
        let prev = inbound_from(fks.drop_last(), source, db, table);
        if fk.referenced_table@ == table && fk.referenced_database@ == db {
            prev.push(
                (
                    RelationshipDirection::Inbound,
                    fk.constraint_name@,
                    fk.referenced_column@,
                    db,
                    source,
                    fk.column_name@,
                ),
            )
        } else {
            prev
        }
    }
}

/// Inbound relationships from every table of the database, in table order.
pub open spec fn inbound(tables: Seq<TableSchema>, db: Seq<char>, table: Seq<char>) -> Seq<RelationshipView>
    decreases tables.len(),
{
    if tables.len() == 0 {
        seq![]
    } else {
        inbound(tables.drop_last(), db, table) + inbound_from(
            tables.last().foreign_keys@,
            tables.last().name@,
            db,
            table,
        )
    }
}

/// The relationships of `db`.`table` before sorting: outbound first, then inbound.
pub open spec fn relationships_of(c: SchemaCatalog, db: Seq<char>, table: Seq<char>) -> Seq<RelationshipView> {
    let d = database_index(c.databases@, db, 0);
    if d < 0 {
        seq![]
    } else {
        let tables = c.databases@[d].tables@;
        let t = table_index(tables, table, 0);
        let out = if t < 0 {
            seq![]
        } else {
            outbound(tables[t].foreign_keys@)
        };
        out + inbound(tables, db, table)
    }
}

pub open spec fn dir_rank(d: RelationshipDirection) -> int {
    match d {
        RelationshipDirection::Outbound => 0,
        RelationshipDirection::Inbound => 1,
    }
}

/// Order by related database, table, column, then constraint, then direction (outbound
/// first).
pub open spec fn rel_le(a: RelationshipView, b: RelationshipView) -> bool {
    if a.3 != b.3 {
        title_le(a.3, b.3)
    } else if a.4 != b.4 {
        title_le(a.4, b.4)
    } else if a.5 != b.5 {
        title_le(a.5, b.5)
    } else if a.1 != b.1 {
        title_le(a.1, b.1)
    } else {
        dir_rank(a.0) <= dir_rank(b.0)
    }
}

pub open spec fn rels_sorted(v: Seq<RelationshipView>) -> bool {
    forall|i: int, j: int| 0 <= i < j < v.len() ==> rel_le(#[trigger] v[i], #[trigger] v[j])
}

proof fn lemma_component(a: Seq<char>, b: Seq<char>, c: Seq<char>)
    ensures
        title_le(a, b) || title_le(b, a),
        title_le(a, b) && title_le(b, c) ==> title_le(a, c),
        title_le(a, b) && title_le(b, a) ==> a == b,
{
    lemma_title_le_total(a, b);
    if title_le(a, b) && title_le(b, c) {
        lemma_title_le_trans(a, b, c);
    }
    if title_le(a, b) && title_le(b, a) {
        crate::actions_engine::lemma_title_le_antisym(a, b);
    }
}

proof fn lemma_rel_order(a: RelationshipView, b: RelationshipView, c: RelationshipView)
    ensures
        rel_le(a, b) || rel_le(b, a),
        rel_le(a, b) && rel_le(b, c) ==> rel_le(a, c),
{
    lemma_component(a.3, b.3, c.3);
    lemma_component(b.3, c.3, a.3);
    lemma_component(a.3, c.3, b.3);
    lemma_component(a.4, b.4, c.4);
    lemma_component(b.4, c.4, a.4);
    lemma_component(a.4, c.4, b.4);
    lemma_component(a.5, b.5, c.5);
    lemma_component(b.5, c.5, a.5);
    lemma_component(a.5, c.5, b.5);
    lemma_component(a.1, b.1, c.1);
    lemma_component(b.1, c.1, a.1);
    lemma_component(a.1, c.1, b.1);
}

fn rel_le_exec(a: &TableRelationship, b: &TableRelationship) -> (r: bool)
    ensures
        r == rel_le(rel_view(*a), rel_view(*b)),
{
    if !same_text(&a.related_database, b.related_database.as_str()) {
        return title_le_str(a.related_database.as_str(), b.related_database.as_str());
    }
    if !same_text(&a.related_table, b.related_table.as_str()) {
        return title_le_str(a.related_table.as_str(), b.related_table.as_str());
    }
    if !same_text(&a.related_column, b.related_column.as_str()) {
        return title_le_str(a.related_column.as_str(), b.related_column.as_str());
    }
    if !same_text(&a.constraint_name, b.constraint_name.as_str()) {
        return title_le_str(a.constraint_name.as_str(), b.constraint_name.as_str());
    }
    let ra: u8 = match a.direction {
        RelationshipDirection::Outbound => 0,
        RelationshipDirection::Inbound => 1,
    };
    let rb: u8 = match b.direction {
        RelationshipDirection::Outbound => 0,
        RelationshipDirection::Inbound => 1,
    };
    ra <= rb
}

/// Sorts relationships by `rel_le`, keeping each one.
fn sort_relationships(v: Vec<TableRelationship>) -> (r: Vec<TableRelationship>)
    ensures
        rels_sorted(rels_view(r@)),
        rels_view(r@).to_multiset() == rels_view(v@).to_multiset(),
{
    let mut out: Vec<TableRelationship> = Vec::new();
    let mut i: usize = 0;
    let ghost src = rels_view(v@);
    assert(rels_view(out@) =~= src.take(0));
    while i < v.len()
        invariant
            i <= v@.len(),
            src == rels_view(v@),
            rels_sorted(rels_view(out@)),
            rels_view(out@).to_multiset() == src.take(i as int).to_multiset(),
        decreases v.len() - i,
    {
        let item = TableRelationship {
            direction: v[i].direction,
            constraint_name: copy_str(v[i].constraint_name.as_str()),
            source_column: copy_str(v[i].source_column.as_str()),
            related_database: copy_str(v[i].related_database.as_str()),
            related_table: copy_str(v[i].related_table.as_str()),
            related_column: copy_str(v[i].related_column.as_str()),
        };
        let ghost xv = rel_view(item);
        assert(xv == src[i as int]);
        let mut pos: usize = 0;
        while pos < out.len() && rel_le_exec(&out[pos], &item)
            invariant
                pos <= out@.len(),
                xv == rel_view(item),
                forall|k: int| 0 <= k < pos ==> rel_le(#[trigger] rels_view(out@)[k], xv),
            decreases out.len() - pos,
        {
            pos = pos + 1;
        }
        let ghost before = rels_view(out@);
        out.insert(pos, item);
        proof {
            let now = rels_view(out@);
            assert(now =~= before.insert(pos as int, xv));
            assert(src.take(i + 1) =~= src.take(i as int).push(xv));
            vstd::seq_lib::to_multiset_insert(before, pos as int, xv);
            vstd::seq_lib::to_multiset_build(src.take(i as int), xv);
            if pos < before.len() {
                lemma_rel_order(before[pos as int], xv, xv);
            }
            assert forall|a: int, b: int| 0 <= a < b < now.len() implies rel_le(#[trigger] now[a], #[trigger] now[b]) by {
                if b < pos {
                    assert(now[a] == before[a] && now[b] == before[b]);
                } else if b == pos {
                    assert(now[a] == before[a]);
                } else if a == pos {
                    assert(now[b] == before[b - 1]);
                    lemma_rel_order(xv, before[pos as int], before[b - 1]);
                    lemma_rel_order(before[pos as int], xv, xv);
                } else if a < pos {
                    assert(now[a] == before[a] && now[b] == before[b - 1]);
                    assert(rel_le(before[a], xv));
                    lemma_rel_order(before[a], xv, before[b - 1]);
                    lemma_rel_order(xv, before[pos as int], before[b - 1]);
                    lemma_rel_order(before[pos as int], xv, xv);
                    if b - 1 > pos {
                        assert(rel_le(before[pos as int], before[b - 1]));
                    }
                    lemma_rel_order(before[a], before[pos as int], before[b - 1]);
                } else {
                    assert(now[a] == before[a - 1] && now[b] == before[b - 1]);
                }
            }
        }
        i = i + 1;
    }
    assert(src.take(v@.len() as int) =~= src);
    out
}

impl SchemaCatalog {
    /// The first database with this name.
    pub fn database(&self, name: &str) -> (r: Option<&DatabaseSchema>)
        ensures
            database_index(self.databases@, name@, 0) < 0 ==> r is None,
            database_index(self.databases@, name@, 0) >= 0 ==> r is Some && *r->0 == self.databases@[database_index(self.databases@, name@, 0)],
    {
        match find_database(&self.databases, name) {
            Some(i) => Some(&self.databases[i]),
            None => None,
        }
    }

    /// Database names, in catalog order.
    pub fn list_databases(&self) -> (r: Vec<String>)
        ensures
            names_of(r@) == database_names(*self),
            r@.len() == self.databases@.len(),
            forall|i: int| 0 <= i < r@.len() ==> (#[trigger] r@[i])@ == self.databases@[i].name@,
    {
        let mut r: Vec<String> = Vec::new();
        let mut i: usize = 0;
        while i < self.databases.len()
            invariant
                i <= self.databases@.len(),
                r@.len() == i,
                forall|k: int| 0 <= k < i ==> (#[trigger] r@[k])@ == self.databases@[k].name@,
            decreases self.databases.len() - i,
        {
            r.push(copy_str(self.databases[i].name.as_str()));
            i = i + 1;
        }
        assert(names_of(r@) =~= database_names(*self));
        r
    }

    /// Table names of a database; empty when there is no such database.
    pub fn list_tables(&self, database_name: &str) -> (r: Vec<String>)
        ensures
            names_of(r@) == table_names(*self, database_name@),
            database_index(self.databases@, database_name@, 0) < 0 ==> r@.len() == 0,
            database_index(self.databases@, database_name@, 0) >= 0 ==> ({
                let tables = self.databases@[database_index(self.databases@, database_name@, 0)].tables@;
                &&& r@.len() == tables.len()
                &&& forall|i: int| 0 <= i < r@.len() ==> (#[trigger] r@[i])@ == tables[i].name@
            }),
    {
        let mut r: Vec<String> = Vec::new();
        let d = match find_database(&self.databases, database_name) {
            Some(d) => d,
            None => {
                assert(names_of(r@) =~= table_names(*self, database_name@));
                return r;
            },
        };
        let tables = &self.databases[d].tables;
        let mut i: usize = 0;
        while i < tables.len()
            invariant
                i <= tables@.len(),
                r@.len() == i,
                forall|k: int| 0 <= k < i ==> (#[trigger] r@[k])@ == tables@[k].name@,
            decreases tables.len() - i,
        {
            r.push(copy_str(tables[i].name.as_str()));
            i = i + 1;
        }
        assert(names_of(r@) =~= table_names(*self, database_name@));
        r
    }

    /// Column names of a table; empty when there is no such database or table.
    pub fn list_columns(&self, database_name: &str, table_name: &str) -> (r: Vec<String>)
        ensures
            names_of(r@) == column_names(*self, database_name@, table_name@),
            ({
                let d = database_index(self.databases@, database_name@, 0);
                let t = if d >= 0 { table_index(self.databases@[d].tables@, table_name@, 0) } else { -1 };
                &&& (d < 0 || t < 0) ==> r@.len() == 0
                &&& (d >= 0 && t >= 0) ==> ({
                    let cols = self.databases@[d].tables@[t].columns@;
                    &&& r@.len() == cols.len()
                    &&& forall|i: int| 0 <= i < r@.len() ==> (#[trigger] r@[i])@ == cols[i].name@
                })
            }),
    {
        let mut r: Vec<String> = Vec::new();
        let d = match find_database(&self.databases, database_name) {
            Some(d) => d,
            None => {
                assert(names_of(r@) =~= column_names(*self, database_name@, table_name@));
                return r;
            },
        };
        let t = match find_table(&self.databases[d].tables, table_name) {
            Some(t) => t,
            None => {
                assert(names_of(r@) =~= column_names(*self, database_name@, table_name@));
                return r;
            },
        };
        let cols = &self.databases[d].tables[t].columns;
        let mut i: usize = 0;
        while i < cols.len()
            invariant
                i <= cols@.len(),
                r@.len() == i,
                forall|k: int| 0 <= k < i ==> (#[trigger] r@[k])@ == cols@[k].name@,
            decreases cols.len() - i,
        {
            r.push(copy_str(cols[i].name.as_str()));
            i = i + 1;
        }
        assert(names_of(r@) =~= column_names(*self, database_name@, table_name@));
        r
    }

    /// Foreign-key relationships of a table, both ways, sorted by `rel_le`.
    pub fn list_related_tables(&self, database_name: &str, table_name: &str) -> (r: Vec<TableRelationship>)
        ensures
            rels_sorted(rels_view(r@)),
            rels_view(r@).to_multiset() == relationships_of(*self, database_name@, table_name@).to_multiset(),
    {
        let mut rels: Vec<TableRelationship> = Vec::new();
        let d = match find_database(&self.databases, database_name) {
            Some(d) => d,
            None => {
                assert(rels_view(rels@) =~= relationships_of(*self, database_name@, table_name@));
                return rels;
            },
        };
        let tables = &self.databases[d].tables;
        match find_table(tables, table_name) {
            Some(t) => {
                let fks = &tables[t].foreign_keys;
                let mut k: usize = 0;
                while k < fks.len()
                    invariant
                        k <= fks@.len(),
                        rels_view(rels@) == outbound(fks@.take(k as int)),
                    decreases fks.len() - k,
                {
                    let fk = &fks[k];
                    rels.push(
                        TableRelationship {
                            direction: RelationshipDirection::Outbound,
                            constraint_name: copy_str(fk.constraint_name.as_str()),
                            source_column: copy_str(fk.column_name.as_str()),
                            related_database: copy_str(fk.referenced_database.as_str()),
                            related_table: copy_str(fk.referenced_table.as_str()),
                            related_column: copy_str(fk.referenced_column.as_str()),
                        },
                    );
                    assert(fks@.take(k + 1).drop_last() =~= fks@.take(k as int));
                    assert(rels_view(rels@) =~= outbound(fks@.take(k + 1)));
                    k = k + 1;
                }
                assert(fks@.take(fks@.len() as int) =~= fks@);
            },
            None => {
                assert(rels_view(rels@) =~= Seq::<RelationshipView>::empty());
            },
        }
        let ghost out_part = rels_view(rels@);
        let mut ti: usize = 0;
        assert(tables@.take(0) =~= Seq::<TableSchema>::empty());
        assert(rels_view(rels@) =~= out_part + inbound(tables@.take(0), database_name@, table_name@));
        while ti < tables.len()
            invariant
                ti <= tables@.len(),
                rels_view(rels@) == out_part + inbound(tables@.take(ti as int), database_name@, table_name@),
            decreases tables.len() - ti,
        {
            let candidate = &tables[ti];
            let fks = &candidate.foreign_keys;
            let ghost base = rels_view(rels@);
            let mut k: usize = 0;
            assert(base =~= base + inbound_from(fks@.take(0), candidate.name@, database_name@, table_name@));
            while k < fks.len()
                invariant
                    k <= fks@.len(),
                    rels_view(rels@) == base + inbound_from(fks@.take(k as int), candidate.name@, database_name@, table_name@),
                decreases fks.len() - k,
            {
                let fk = &fks[k];
                assert(fks@.take(k + 1).drop_last() =~= fks@.take(k as int));
                assert(fks@.take(k + 1).last() == fks@[k as int]);
                let ghost prev = rels_view(rels@);
                if same_text(&fk.referenced_table, table_name) && same_text(&fk.referenced_database, database_name) {
                    rels.push(
                        TableRelationship {
                            direction: RelationshipDirection::Inbound,
                            constraint_name: copy_str(fk.constraint_name.as_str()),
                            source_column: copy_str(fk.referenced_column.as_str()),
                            related_database: copy_str(database_name),
                            related_table: copy_str(candidate.name.as_str()),
                            related_column: copy_str(fk.column_name.as_str()),
                        },
                    );
                    assert(rels_view(rels@) =~= prev.push(rel_view(rels@[rels@.len() - 1])));
                }
                assert(rels_view(rels@) =~= base + inbound_from(fks@.take(k + 1), candidate.name@, database_name@, table_name@));
                k = k + 1;
            }
            assert(fks@.take(fks@.len() as int) =~= fks@);
            assert(tables@.take(ti + 1).drop_last() =~= tables@.take(ti as int));
            assert(rels_view(rels@) =~= out_part + inbound(tables@.take(ti + 1), database_name@, table_name@));
            ti = ti + 1;
        }
        assert(tables@.take(tables@.len() as int) =~= tables@);
        assert(rels_view(rels@) == relationships_of(*self, database_name@, table_name@));
        sort_relationships(rels)
    }
}

/// A catalog together with when it was fetched.
#[derive(Debug, Clone)]
pub struct CachedSchema {
    pub fetched_at_ms: u64,
    pub catalog: SchemaCatalog,
}

/// Holds at most one catalog, valid while no more than the time to live has passed since
/// it was fetched. Fetching is the caller's: `schema` says whether the cached catalog
/// serves (the listings answer `None` when it does not), `refresh` keeps a fresh one.
#[derive(Debug, Clone)]
pub struct SchemaCacheService {
    ttl_ms: u64,
    cache: Option<CachedSchema>,
}

/// The cached entry serves at `now`.
pub open spec fn entry_valid(fetched_at: u64, ttl: u64, now: u64) -> bool {
    now < fetched_at || now - fetched_at <= ttl
}

impl SchemaCacheService {
    pub closed spec fn ttl_view(&self) -> u64 {
        self.ttl_ms
    }

    pub closed spec fn entry(&self) -> Option<CachedSchema> {
        self.cache
    }

    pub fn new(ttl_ms: u64) -> (r: Self)
        ensures
            r.ttl_view() == ttl_ms,
            r.entry() is None,
    {
        SchemaCacheService { ttl_ms, cache: None }
    }

    pub fn ttl(&self) -> (r: u64)
        ensures
            r == self.ttl_view(),
    {
        self.ttl_ms
    }

    pub fn invalidate(&mut self)
        ensures
            final(self).entry() is None,
            final(self).ttl_view() == old(self).ttl_view(),
    {
        self.cache = None;
    }

    /// The cached catalog, when one is held and still valid at `now_ms`.
    pub fn schema(&self, now_ms: u64) -> (r: Option<&SchemaCatalog>)
        ensures
            match self.entry() {
                Some(e) => if entry_valid(e.fetched_at_ms, self.ttl_view(), now_ms) {
                    r is Some && *r->0 == e.catalog
                } else {
                    r is None
                },
                None => r is None,
            },
    {
        match &self.cache {
            Some(entry) => {
                if now_ms < entry.fetched_at_ms || now_ms - entry.fetched_at_ms <= self.ttl_ms {
                    Some(&entry.catalog)
                } else {
                    None
                }
            },
            None => None,
        }
    }

    /// Replaces the entry with a catalog fetched at `now_ms`.
    pub fn refresh(&mut self, now_ms: u64, catalog: SchemaCatalog)
        ensures
            final(self).entry() == Some(CachedSchema { fetched_at_ms: now_ms, catalog }),
            final(self).ttl_view() == old(self).ttl_view(),
    {
        self.cache = Some(CachedSchema { fetched_at_ms: now_ms, catalog });
    }

    /// Whether the cached catalog serves at `now_ms`.
    pub open spec fn serves(&self, now_ms: u64) -> bool {
        self.entry() is Some && entry_valid(self.entry()->0.fetched_at_ms, self.ttl_view(), now_ms)
    }

    /// Database names from the cached catalog; `None` when it must be fetched first.
    pub fn list_databases(&self, now_ms: u64) -> (r: Option<Vec<String>>)
        ensures
            !self.serves(now_ms) ==> r is None,
            self.serves(now_ms) ==> r is Some && names_of(r->0@) == database_names(self.entry()->0.catalog),
    {
        match self.schema(now_ms) {
            Some(catalog) => Some(catalog.list_databases()),
            None => None,
        }
    }

    /// Table names of a database from the cached catalog; `None` when it must be fetched.
    pub fn list_tables(&self, now_ms: u64, database_name: &str) -> (r: Option<Vec<String>>)
        ensures
            !self.serves(now_ms) ==> r is None,
            self.serves(now_ms) ==> r is Some && names_of(r->0@) == table_names(self.entry()->0.catalog, database_name@),
    {
        match self.schema(now_ms) {
            Some(catalog) => Some(catalog.list_tables(database_name)),
            None => None,
        }
    }

    /// Column names of a table from the cached catalog; `None` when it must be fetched.
    pub fn list_columns(&self, now_ms: u64, database_name: &str, table_name: &str) -> (r: Option<Vec<String>>)
        ensures
            !self.serves(now_ms) ==> r is None,
            self.serves(now_ms) ==> r is Some && names_of(r->0@) == column_names(self.entry()->0.catalog, database_name@, table_name@),
    {
        match self.schema(now_ms) {
            Some(catalog) => Some(catalog.list_columns(database_name, table_name)),
            None => None,
        }
    }

    /// Relationships of a table from the cached catalog; `None` when it must be fetched.
    pub fn list_related_tables(&self, now_ms: u64, database_name: &str, table_name: &str) -> (r: Option<Vec<TableRelationship>>)
        ensures
            !self.serves(now_ms) ==> r is None,
            self.serves(now_ms) ==> r is Some && rels_sorted(rels_view(r->0@))
                && rels_view(r->0@).to_multiset() == relationships_of(self.entry()->0.catalog, database_name@, table_name@).to_multiset(),
    {
        match self.schema(now_ms) {
            Some(catalog) => Some(catalog.list_related_tables(database_name, table_name)),
            None => None,
        }
    }
}

} // verus!
