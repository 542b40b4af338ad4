//! What a struct's fields say of its table: the key, the columns and how each
//! value is bound.

use crate::search::{
    first_where, lemma_first_where_found, lemma_first_where_missing, lemma_positions, positions,
};
use crate::syntax::{
    Attribute, Field, Fields, GenericArg, ItemStruct, Path, Segment, SegmentArgs, TypeExpr,
    Visibility,
};
use crate::statements::{statements_of, Statements, StatementsView};
use crate::text::{str_eq, texts};
use crate::{DEFAULT_CREATE_TIME_NAME, DEFAULT_ID_NAME, DEFAULT_UPDATE_TIME_NAME};
use vstd::prelude::*;
use vstd::utf8::encode_utf8;

verus! {

/// The attributes whose path is the bare identifier `name`.
pub open spec fn attr_named(name: Seq<char>) -> spec_fn(Attribute) -> bool {
    |attr: Attribute| attr.path.ident() == Some(name)
}

/// The position of the field's first attribute named `name`.
pub open spec fn attr_position(field: &Field, name: Seq<char>) -> Option<int> {
    first_where(field.attrs@, attr_named(name))
}

/// Whether the field has an attribute named `name`.
pub open spec fn has_attr(field: &Field, name: Seq<char>) -> bool {
    attr_position(field, name) is Some
}

/// Whether a field is visible outside its module: `pub` or `crate`.
pub fn is_vis_public_crate(vis: &Visibility) -> (open: bool)
    ensures
        open == (vis is Public || vis is Crate),
{
    match vis {
        Visibility::Public | Visibility::Crate => true,
        _ => false,
    }
}

/// Whether a field is named and has a path for its type.
pub fn is_base_type(field: &Field) -> (base: bool)
    ensures
        base == (field.ty is Path && field.ident is Some),
{
    match (&field.ty, &field.ident) {
        (TypeExpr::Path { .. }, Some(_)) => true,
        _ => false,
    }
}

/// The field's first attribute named `attr_name`, with the field.
pub fn get_field_attr<'a>(field: &'a Field, attr_name: &str) -> (found: Option<
    (&'a Field, &'a Attribute),
>)
    ensures
        found == match attr_position(field, attr_name@) {
            Some(i) => Some((field, &field.attrs@[i])),
            None => None,
        },
{
    let mut i: usize = 0;
    while i < field.attrs.len()
        invariant
            i <= field.attrs.len(),
            forall|j: int| 0 <= j < i ==> !attr_named(attr_name@)(#[trigger] field.attrs@[j]),
        decreases field.attrs.len() - i,
    {
        if field.attrs[i].path.is_ident(attr_name) {
            proof {
                lemma_first_where_found(field.attrs@, attr_named(attr_name@), i as int);
            }
            return Some((field, &field.attrs[i]));
        }
        i += 1;
    }
    proof {
        lemma_first_where_missing(field.attrs@, attr_named(attr_name@));
    }
    None
}

/// Whether the field has an attribute named `attr_name`.
pub fn field_attr_exists(field: &Field, attr_name: &str) -> (present: bool)
    ensures
        present == has_attr(field, attr_name@),
{
    get_field_attr(field, attr_name).is_some()
}

/// The fields that carry an attribute named `name`.
pub open spec fn marked(name: Seq<char>) -> spec_fn(Field) -> bool {
    |field: Field| has_attr(&field, name)
}

/// The identifier of the first field marked `name`; `name` itself where no
/// field is marked or that field has no identifier.
pub open spec fn marked_ident(fields: Seq<Field>, name: Seq<char>) -> Seq<char> {
    match first_where(fields, marked(name)) {
        Some(i) => match fields[i].ident {
            Some(ident) => ident@,
            None => name,
        },
        None => name,
    }
}

/// The identifier of the first field that carries the attribute `ident_name`,
/// or `ident_name` as the default.
pub fn get_ident(fields: &Fields, ident_name: &str) -> (ident: String)
    ensures
        ident@ == marked_ident(fields.list(), ident_name@),
{
    let n = fields.len();
    let mut i: usize = 0;
    while i < n
        invariant
            i <= n,
            n == fields.list().len(),
            forall|j: int| 0 <= j < i ==> !marked(ident_name@)(#[trigger] fields.list()[j]),
        decreases n - i,
    {
        let field = fields.get(i);
        if field_attr_exists(field, ident_name) {
            proof {
                lemma_first_where_found(fields.list(), marked(ident_name@), i as int);
            }
            return match &field.ident {
                Some(ident) => ident.clone(),
                None => String::from_str(ident_name),
            };
        }
        i += 1;
    }
    proof {
        lemma_first_where_missing(fields.list(), marked(ident_name@));
    }
    String::from_str(ident_name)
}

/// The string of the field's first `field_name` attribute, if that attribute
/// is there and holds one.
pub open spec fn column_override(field: &Field) -> Option<Seq<char>> {
    match attr_position(field, "field_name"@) {
        Some(i) => match field.attrs@[i].lit_str {
            Some(name) => Some(name@),
            None => None,
        },
        None => None,
    }
}

/// The column that a field is stored in: the string of its `field_name`
/// attribute, else its identifier.
pub open spec fn column_name(field: &Field) -> Seq<char> {
    match column_override(field) {
        Some(name) => name,
        None => field.ident->0@,
    }
}

/// The name of the column that the field is stored in.
pub fn get_table_field_name(field: &Field) -> (name: String)
    requires
        column_override(field) is Some || field.ident is Some,
    ensures
        name@ == column_name(field),
{
    if let Some((_, attr)) = get_field_attr(field, "field_name") {
        if let Some(s) = &attr.lit_str {
            return s.clone();
        }
    }
    match &field.ident {
        Some(ident) => ident.clone(),
        None => vstd::pervasive::unreached(),
    }
}

/// The identifiers of the segments, each followed by `|`.
pub open spec fn path_key(segments: Seq<Segment>) -> Seq<char>
    decreases segments.len(),
{
    if segments.len() == 0 {
        Seq::empty()
    } else {
        path_key(segments.drop_last()) + segments.last().ident@ + "|"@
    }
}

/// Whether the key is that of `Option`, `std::option::Option` or
/// `core::option::Option`.
pub open spec fn is_option_key(key: Seq<char>) -> bool {
    key == "Option|"@ || key == "std|option|Option|"@ || key == "core|option|Option|"@
}

/// The first generic argument of the path's last segment, where it is a type.
pub open spec fn first_type_argument(path: &Path) -> Option<&TypeExpr> {
    if path.segments@.len() == 0 {
        None
    } else {
        match path.segments@.last().arguments {
            SegmentArgs::AngleBracketed(args) => if args@.len() == 0 {
                None
            } else {
                match args@[0] {
                    GenericArg::Type(inner) => Some(&inner),
                    GenericArg::Other => None,
                }
            },
            _ => None,
        }
    }
}

/// The type inside an `Option`: the first type argument of a path without a
/// qualified self type whose segments name `Option`.
pub open spec fn option_inner(ty: &TypeExpr) -> Option<&TypeExpr> {
    match ty {
        TypeExpr::Path { qself, path } => if !*qself && is_option_key(path_key(path.segments@)) {
            first_type_argument(path)
        } else {
            None
        },
        TypeExpr::Other => None,
    }
}

fn path_key_of(path: &Path) -> (key: String)
    ensures
        key@ == path_key(path.segments@),
{
    let mut key = String::new();
    let mut i: usize = 0;
    while i < path.segments.len()
        invariant
            i <= path.segments.len(),
            key@ == path_key(path.segments@.take(i as int)),
        decreases path.segments.len() - i,
    {
        assert(path.segments@.take(i as int + 1).drop_last() =~= path.segments@.take(i as int));
        key.append(path.segments[i].ident.as_str());
        key.append("|");
        i += 1;
    }
    assert(path.segments@.take(i as int) =~= path.segments@);
    key
}

/// The type that an `Option` type wraps; `None` for any other type.
pub fn extract_type_from_option(ty: &TypeExpr) -> (inner: Option<&TypeExpr>)
    ensures
        inner == option_inner(ty),
{
    match ty {
        TypeExpr::Path { qself, path } => {
            if *qself {
                return None;
            }
            let key = path_key_of(path);
            if !(str_eq(key.as_str(), "Option|") || str_eq(key.as_str(), "std|option|Option|")
                || str_eq(key.as_str(), "core|option|Option|")) {
                return None;
            }
            if path.segments.len() == 0 {
                return None;
            }
            match &path.segments[path.segments.len() - 1].arguments {
                SegmentArgs::AngleBracketed(args) => {
                    if args.len() == 0 {
                        return None;
                    }
                    match &args[0] {
                        GenericArg::Type(inner) => Some(inner),
                        GenericArg::Other => None,
                    }
                },
                _ => None,
            }
        },
        TypeExpr::Other => None,
    }
}

/// How a field's value is handed to the statement that stores it.
#[derive(Clone, Copy, Debug, PartialEq, Eq)]
pub enum BindForm {
    /// The field is not bound at all.
    Skipped,
    /// A binding without a value: the type's path is more than one
    /// identifier.
    Empty,
    /// `as_ref()` of the field: the type is an `Option`.
    AsRef,
    /// A reference to the field: the type is `String` or `Decimal`.
    Borrowed,
    /// The field itself.
    Owned,
}

/// How the field is bound.
pub open spec fn bind_form(field: &Field) -> BindForm {
    match field.ty {
        TypeExpr::Path { qself, path } => if field.ident is None {
            BindForm::Skipped
        } else if option_inner(&field.ty) is Some {
            BindForm::AsRef
        } else {
            match path.ident() {
                Some(ident) => if ident == "String"@ || ident == "Decimal"@ {
                    BindForm::Borrowed
                } else {
                    BindForm::Owned
                },
                None => BindForm::Empty,
            }
        },
        TypeExpr::Other => BindForm::Skipped,
    }
}

/// How the field's value is bound, by the shape of its type.
pub fn field_bind_form(field: &Field) -> (form: BindForm)
    ensures
        form == bind_form(field),
{
    match &field.ty {
        TypeExpr::Path { qself, path } => {
            if field.ident.is_none() {
                return BindForm::Skipped;
            }
            if extract_type_from_option(&field.ty).is_some() {
                BindForm::AsRef
            } else {
                match path.get_ident() {
                    Some(ident) => {
                        if str_eq(ident.as_str(), "String") || str_eq(ident.as_str(), "Decimal") {
                            BindForm::Borrowed
                        } else {
                            BindForm::Owned
                        }
                    },
                    None => BindForm::Empty,
                }
            }
        },
        TypeExpr::Other => BindForm::Skipped,
    }
}

/// One stored field of the struct, other than the key.
#[derive(Debug, PartialEq, Eq)]
pub struct Column {
    /// The field's position among the struct's fields.
    pub field: usize,
    /// The field's identifier.
    pub ident: String,
    /// The column that the field is stored in.
    pub name: String,
    /// How the field's value is bound.
    pub bind: BindForm,
    /// Whether the constructor takes the field as a parameter.
    pub constructed: bool,
}

/// A column, with its texts as sequences.
pub struct ColumnView {
    pub field: int,
    pub ident: Seq<char>,
    pub name: Seq<char>,
    pub bind: BindForm,
    pub constructed: bool,
}

impl View for Column {
    type V = ColumnView;

    open spec fn view(&self) -> ColumnView {
        ColumnView {
            field: self.field as int,
            ident: self.ident@,
            name: self.name@,
            bind: self.bind,
            constructed: self.constructed,
        }
    }
}

/// The views of a sequence of columns.
pub open spec fn column_views(columns: Seq<Column>) -> Seq<ColumnView> {
    columns.map_values(|column: Column| column@)
}

/// The names of a sequence of columns.
pub open spec fn column_names(columns: Seq<ColumnView>) -> Seq<Seq<char>> {
    columns.map_values(|column: ColumnView| column.name)
}

/// Whether a field is stored as a column of its own: it is visible, named,
/// typed by a path, and neither marked nor named as the key.
pub open spec fn persisted(field: &Field) -> bool {
    &&& field.vis is Public || field.vis is Crate
    &&& field.ty is Path
    &&& field.ident is Some
    &&& !has_attr(field, DEFAULT_ID_NAME@)
    &&& field.name() != Some(DEFAULT_ID_NAME@)
}

/// Whether the constructor takes a stored field as a parameter: it is
/// neither marked nor named as one of the two times.
pub open spec fn constructed(field: &Field) -> bool {
    &&& !has_attr(field, DEFAULT_CREATE_TIME_NAME@)
    &&& !has_attr(field, DEFAULT_UPDATE_TIME_NAME@)
    &&& field.name() != Some(DEFAULT_CREATE_TIME_NAME@)
    &&& field.name() != Some(DEFAULT_UPDATE_TIME_NAME@)
}

/// The column of the stored field at position `i`.
pub open spec fn column_of(field: &Field, i: int) -> ColumnView {
    ColumnView {
        field: i,
        ident: field.ident->0@,
        name: column_name(field),
        bind: bind_form(field),
        constructed: constructed(field),
    }
}

/// The fields that are stored as columns.
pub open spec fn stored() -> spec_fn(Field) -> bool {
    |field: Field| persisted(&field)
}

/// The columns of the stored fields, in the order of the fields.
pub open spec fn columns_of(fields: Seq<Field>) -> Seq<ColumnView> {
    positions(fields, stored()).map_values(|i: int| column_of(&fields[i], i))
}

/// The columns of a sequence of fields are those of all but the last,
/// followed by the column of the last where it is stored.
pub proof fn lemma_columns_of_last(fields: Seq<Field>)
    requires
        fields.len() > 0,
    ensures
        columns_of(fields) == if persisted(&fields.last()) {
            columns_of(fields.drop_last()).push(column_of(&fields.last(), fields.len() - 1))
        } else {
            columns_of(fields.drop_last())
        },
{
    let front = fields.drop_last();
    let found = positions(front, stored());
    lemma_positions(front, stored());
    assert forall|k: int| 0 <= k < found.len() implies #[trigger] columns_of(front)[k]
        == column_of(&fields[found[k]], found[k]) by {
        assert(front[found[k]] == fields[found[k]]);
    }
    if persisted(&fields.last()) {
        assert(columns_of(fields) =~= columns_of(front).push(
            column_of(&fields.last(), fields.len() - 1),
        ));
    } else {
        assert(columns_of(fields) =~= columns_of(front));
    }
}

/// The columns of the stored fields.
pub fn stored_columns(fields: &Fields) -> (columns: Vec<Column>)
    ensures
        column_views(columns@) == columns_of(fields.list()),
{
    let n = fields.len();
    let mut columns: Vec<Column> = Vec::new();
    let mut i: usize = 0;
    assert(column_views(columns@) =~= columns_of(fields.list().take(0)));
    while i < n
        invariant
            i <= n,
            n == fields.list().len(),
            column_views(columns@) == columns_of(fields.list().take(i as int)),
        decreases n - i,
    {
        let field = fields.get(i);
        let ghost before = columns@;
        let ghost upto = fields.list().take(i as int);
        let ghost next = fields.list().take(i as int + 1);
        proof {
            assert(next.drop_last() =~= upto);
            assert(next.last() == *field);
            lemma_columns_of_last(next);
        }
        if is_vis_public_crate(&field.vis) && is_base_type(field) && !field_attr_exists(
            field,
            DEFAULT_ID_NAME,
        ) {
            if let Some(ident) = &field.ident {
                if !str_eq(ident.as_str(), DEFAULT_ID_NAME) {
                    let column = Column {
                        field: i,
                        ident: ident.clone(),
                        name: get_table_field_name(field),
                        bind: field_bind_form(field),
                        constructed: takes_part_in_constructor(field),
                    };
                    columns.push(column);
                    assert(column_views(columns@) =~= column_views(before).push(
                        column_of(field, i as int),
                    ));
                }
            }
        }
        i += 1;
    }
    assert(fields.list().take(i as int) =~= fields.list());
    columns
}

/// Whether the constructor takes the field as a parameter.
pub fn takes_part_in_constructor(field: &Field) -> (takes: bool)
    ensures
        takes == constructed(field),
{
    if field_attr_exists(field, DEFAULT_CREATE_TIME_NAME) || field_attr_exists(
        field,
        DEFAULT_UPDATE_TIME_NAME,
    ) {
        return false;
    }
    match &field.ident {
        Some(ident) => !str_eq(ident.as_str(), DEFAULT_CREATE_TIME_NAME) && !str_eq(
            ident.as_str(),
            DEFAULT_UPDATE_TIME_NAME,
        ),
        None => true,
    }
}

/// The fields that are set to the current time before a row is written:
/// the creation time, where one is given, then the update time.
pub open spec fn stamped(create_time: Option<Seq<char>>, update_time: Seq<char>) -> Seq<Seq<char>> {
    match create_time {
        Some(create_time) => seq![create_time, update_time],
        None => seq![update_time],
    }
}

/// The fields to set to the current time before a row is written.
pub fn auto_time_fields(create_time: Option<&str>, update_time: &str) -> (fields: Vec<String>)
    ensures
        texts(fields@) == stamped(
            match create_time {
                Some(create_time) => Some(create_time@),
                None => None,
            },
            update_time@,
        ),
{
    let mut fields: Vec<String> = Vec::new();
    if let Some(create_time) = create_time {
        fields.push(String::from_str(create_time));
    }
    fields.push(String::from_str(update_time));
    assert(texts(fields@) =~= stamped(
        match create_time {
            Some(create_time) => Some(create_time@),
            None => None,
        },
        update_time@,
    ));
    fields
}

/// What is generated for a struct: its table, its key and time fields, its
/// columns and the statements over them.
#[derive(Debug, PartialEq, Eq)]
pub struct SqlHelperPlan {
    /// The table's name.
    pub table: String,
    /// The key field.
    pub id: String,
    /// The field that holds the creation time.
    pub create_time: String,
    /// The field that holds the time of the last update.
    pub update_time: String,
    /// The stored fields other than the key.
    pub columns: Vec<Column>,
    /// The fields set to the current time before an insert.
    pub insert_stamps: Vec<String>,
    /// The fields set to the current time before an update.
    pub update_stamps: Vec<String>,
    /// The SQL text of each operation.
    pub statements: Statements,
}

/// A plan, with its texts as sequences.
pub struct SqlHelperPlanView {
    pub table: Seq<char>,
    pub id: Seq<char>,
    pub create_time: Seq<char>,
    pub update_time: Seq<char>,
    pub columns: Seq<ColumnView>,
    pub insert_stamps: Seq<Seq<char>>,
    pub update_stamps: Seq<Seq<char>>,
    pub statements: StatementsView,
}

impl View for SqlHelperPlan {
    type V = SqlHelperPlanView;

    open spec fn view(&self) -> SqlHelperPlanView {
        SqlHelperPlanView {
            table: self.table@,
            id: self.id@,
            create_time: self.create_time@,
            update_time: self.update_time@,
            columns: column_views(self.columns@),
            insert_stamps: texts(self.insert_stamps@),
            update_stamps: texts(self.update_stamps@),
            statements: self.statements@,
        }
    }
}

/// The plan of the struct `ast` stored in the table `table`.
pub open spec fn plan_of(ast: &ItemStruct, table: Seq<char>) -> SqlHelperPlanView {
    let fields = ast.fields.list();
    let id = marked_ident(fields, DEFAULT_ID_NAME@);
    let create_time = marked_ident(fields, DEFAULT_CREATE_TIME_NAME@);
    let update_time = marked_ident(fields, DEFAULT_UPDATE_TIME_NAME@);
    let columns = columns_of(fields);
    SqlHelperPlanView {
        table,
        id,
        create_time,
        update_time,
        columns,
        insert_stamps: stamped(Some(create_time), update_time),
        update_stamps: stamped(None, update_time),
        statements: statements_of(table, id, column_names(columns)),
    }
}

/// The plan of a struct whose table is `table`.
pub fn plan_for_table(ast: &ItemStruct, table: String) -> (plan: SqlHelperPlan)
    ensures
        plan@ == plan_of(ast, table@),
{
    let columns = stored_columns(&ast.fields);
    let mut names: Vec<String> = Vec::new();
    let mut i: usize = 0;
    while i < columns.len()
        invariant
            i <= columns.len(),
            names@.len() == i,
            forall|k: int| 0 <= k < i ==> (#[trigger] names@[k])@ == columns@[k].name@,
        decreases columns.len() - i,
    {
        names.push(columns[i].name.clone());
        i += 1;
    }
    assert(texts(names@) =~= column_names(column_views(columns@)));

    let id = get_ident(&ast.fields, DEFAULT_ID_NAME);
    let create_time = get_ident(&ast.fields, DEFAULT_CREATE_TIME_NAME);
    let update_time = get_ident(&ast.fields, DEFAULT_UPDATE_TIME_NAME);
    let statements = Statements::build(table.as_str(), id.as_str(), &names);
    let insert_stamps = auto_time_fields(Some(create_time.as_str()), update_time.as_str());
    let update_stamps = auto_time_fields(None, update_time.as_str());
    SqlHelperPlan {
        table,
        id,
        create_time,
        update_time,
        columns,
        insert_stamps,
        update_stamps,
        statements,
    }
}

/// The snake case of a text, as `inflector` writes it.
pub uninterp spec fn snake_case(text: Seq<char>) -> Seq<char>;

/// The number of bytes that a text takes in UTF-8.
pub open spec fn byte_len(text: Seq<char>) -> nat {
    encode_utf8(text).len()
}

/// Calls `inflector::cases::snakecase::to_snake_case`. The result is a
/// function of the text alone and is named `snake_case`. The call reserves
/// twice the text's length in bytes, which has to fit in a `String`.
#[verifier::external_body]
fn to_snake_case(text: &str) -> (snake: String)
    requires
        2 * byte_len(text@) <= isize::MAX,
    ensures
        snake@ == snake_case(text@),
{
    inflector::cases::snakecase::to_snake_case(text)
}

/// Whether the snake case of `ident` can be written: twice its length in
/// bytes fits in a `String`.
pub fn snake_case_fits(ident: &str) -> (fits: bool)
    ensures
        fits == (2 * byte_len(ident@) <= isize::MAX),
{
    ident.as_bytes().len() <= (isize::MAX as usize) / 2
}

/// The plan of a struct: its table is named by the snake case of the
/// struct's identifier.
pub fn impl_sql_helper(ast: &ItemStruct) -> (plan: SqlHelperPlan)
    requires
        2 * byte_len(ast.ident@) <= isize::MAX,
    ensures
        plan@ == plan_of(ast, snake_case(ast.ident@)),
{
    let table = to_snake_case(ast.ident.as_str());
    plan_for_table(ast, table)
}

} // verus!
