use sqlx_sqlhelper::sql_helper::{
    auto_time_fields, extract_type_from_option, field_attr_exists, field_bind_form,
    get_field_attr, get_ident, get_table_field_name, impl_sql_helper, is_base_type,
    is_vis_public_crate, plan_for_table, snake_case_fits, stored_columns,
    takes_part_in_constructor, BindForm,
};
use sqlx_sqlhelper::syntax::{
    Attribute, Field, Fields, GenericArg, ItemStruct, Path, Segment, SegmentArgs, Token, TypeExpr,
    Visibility,
};

fn path_of(idents: &[&str]) -> Path {
    Path {
        leading_colon: false,
        segments: idents
            .iter()
            .map(|ident| Segment { ident: ident.to_string(), arguments: SegmentArgs::Absent })
            .collect(),
    }
}

fn plain(ident: &str) -> TypeExpr {
    TypeExpr::Path { qself: false, path: Path::bare(ident) }
}

fn generic(idents: &[&str], args: Vec<GenericArg>) -> TypeExpr {
    let mut path = path_of(idents);
    let last = path.segments.len() - 1;
    path.segments[last].arguments = SegmentArgs::AngleBracketed(args);
    TypeExpr::Path { qself: false, path }
}

fn option_of(inner: TypeExpr) -> TypeExpr {
    generic(&["Option"], vec![GenericArg::Type(inner)])
}

fn marker(name: &str) -> Attribute {
    Attribute { path: Path::bare(name), tokens: Vec::new(), lit_str: None }
}

fn field_name(column: &str) -> Attribute {
    Attribute {
        path: Path::bare("field_name"),
        tokens: vec![Token::Group(vec![Token::Other])],
        lit_str: Some(column.to_string()),
    }
}

fn field(ident: &str, ty: TypeExpr, attrs: Vec<Attribute>) -> Field {
    Field { attrs, vis: Visibility::Public, ident: Some(ident.to_string()), ty }
}

fn person() -> ItemStruct {
    ItemStruct {
        attrs: Vec::new(),
        ident: "Person".to_string(),
        fields: Fields::Named(vec![
            field("id", plain("i32"), vec![marker("id")]),
            field("name", plain("String"), Vec::new()),
            field("age", plain("i32"), Vec::new()),
            field("weight", option_of(plain("i32")), Vec::new()),
            field("create_time", plain("NaiveDateTime"), vec![marker("create_time")]),
            field("update_time", plain("NaiveDateTime"), vec![marker("update_time")]),
        ]),
    }
}

#[test]
fn visibility_public_and_crate_are_open() {
    assert!(is_vis_public_crate(&Visibility::Public));
    assert!(is_vis_public_crate(&Visibility::Crate));
    assert!(!is_vis_public_crate(&Visibility::Restricted));
    assert!(!is_vis_public_crate(&Visibility::Inherited));
}

#[test]
fn base_type_needs_a_name_and_a_path() {
    assert!(is_base_type(&field("age", plain("i32"), Vec::new())));
    assert!(!is_base_type(&field("pair", TypeExpr::Other, Vec::new())));
    let unnamed =
        Field { attrs: Vec::new(), vis: Visibility::Public, ident: None, ty: plain("i32") };
    assert!(!is_base_type(&unnamed));
}

#[test]
fn path_ident_is_a_single_bare_segment() {
    assert!(Path::bare("id").is_ident("id"));
    assert!(!Path::bare("id").is_ident("ident"));
    assert_eq!(Path::bare("id").get_ident(), Some(&"id".to_string()));
    assert!(!path_of(&["serde", "rename"]).is_ident("rename"));
    assert_eq!(path_of(&["serde", "rename"]).get_ident(), None);
    assert_eq!(path_of(&[]).get_ident(), None);
    let mut rooted = Path::bare("id");
    rooted.leading_colon = true;
    assert!(!rooted.is_ident("id"));
    let with_args = match generic(&["id"], Vec::new()) {
        TypeExpr::Path { path, .. } => path,
        TypeExpr::Other => unreachable!(),
    };
    assert!(!with_args.is_ident("id"));
}

#[test]
fn field_attr_is_the_first_of_its_name() {
    let first = field_name("first");
    let second = field_name("second");
    let subject = field("name", plain("String"), vec![marker("id"), first, second]);
    let (owner, attr) = get_field_attr(&subject, "field_name").unwrap();
    assert_eq!(owner, &subject);
    assert_eq!(attr.lit_str, Some("first".to_string()));
    assert!(std::ptr::eq(attr, &subject.attrs[1]));
    assert!(get_field_attr(&subject, "create_time").is_none());
    assert!(field_attr_exists(&subject, "id"));
    assert!(field_attr_exists(&subject, "field_name"));
    assert!(!field_attr_exists(&subject, "update_time"));
}

#[test]
fn ident_of_the_marked_field() {
    let fields = Fields::Named(vec![
        field("name", plain("String"), Vec::new()),
        field("person_id", plain("i32"), vec![marker("id")]),
        field("other_id", plain("i32"), vec![marker("id")]),
    ]);
    assert_eq!(get_ident(&fields, "id"), "person_id");
    assert_eq!(get_ident(&fields, "create_time"), "create_time");
    assert_eq!(get_ident(&Fields::Unit, "id"), "id");
}

#[test]
fn ident_of_a_marked_field_without_a_name() {
    let unnamed =
        Field { attrs: vec![marker("id")], vis: Visibility::Public, ident: None, ty: plain("i32") };
    let named = field("key", plain("i32"), vec![marker("id")]);
    assert_eq!(get_ident(&Fields::Unnamed(vec![unnamed, named]), "id"), "id");
}

#[test]
fn table_field_name_prefers_the_attribute() {
    let renamed = field("name", plain("String"), vec![field_name("person_name")]);
    assert_eq!(get_table_field_name(&renamed), "person_name");
    let plain_field = field("name", plain("String"), Vec::new());
    assert_eq!(get_table_field_name(&plain_field), "name");
}

#[test]
fn table_field_name_without_a_string_is_the_ident() {
    let mut attr = marker("field_name");
    attr.tokens = vec![Token::Group(vec![Token::Ident("person_name".to_string())])];
    let second = field_name("late");
    let subject = field("name", plain("String"), vec![attr, second]);
    assert_eq!(get_table_field_name(&subject), "name");
}

#[test]
fn option_type_is_unwrapped() {
    let inner = plain("i32");
    assert_eq!(extract_type_from_option(&option_of(plain("i32"))), Some(&inner));
    let std_option = generic(&["std", "option", "Option"], vec![GenericArg::Type(plain("String"))]);
    assert_eq!(extract_type_from_option(&std_option), Some(&plain("String")));
    let core_option = generic(&["core", "option", "Option"], vec![GenericArg::Type(plain("u8"))]);
    assert_eq!(extract_type_from_option(&core_option), Some(&plain("u8")));
    let nested = option_of(option_of(plain("i64")));
    let once = extract_type_from_option(&nested).unwrap();
    assert_eq!(extract_type_from_option(once), Some(&plain("i64")));
}

#[test]
fn other_types_are_no_option() {
    assert_eq!(extract_type_from_option(&plain("i32")), None);
    assert_eq!(extract_type_from_option(&plain("Option")), None);
    assert_eq!(extract_type_from_option(&TypeExpr::Other), None);
    let other_module = generic(&["my", "Option"], vec![GenericArg::Type(plain("i32"))]);
    assert_eq!(extract_type_from_option(&other_module), None);
    let vec_type = generic(&["Vec"], vec![GenericArg::Type(plain("i32"))]);
    assert_eq!(extract_type_from_option(&vec_type), None);
    assert_eq!(extract_type_from_option(&generic(&["Option"], Vec::new())), None);
    let lifetime_first =
        generic(&["Option"], vec![GenericArg::Other, GenericArg::Type(plain("i32"))]);
    assert_eq!(extract_type_from_option(&lifetime_first), None);
    let qualified = match option_of(plain("i32")) {
        TypeExpr::Path { path, .. } => TypeExpr::Path { qself: true, path },
        TypeExpr::Other => unreachable!(),
    };
    assert_eq!(extract_type_from_option(&qualified), None);
    let parenthesized = TypeExpr::Path {
        qself: false,
        path: Path {
            leading_colon: false,
            segments: vec![Segment {
                ident: "Option".to_string(),
                arguments: SegmentArgs::Parenthesized,
            }],
        },
    };
    assert_eq!(extract_type_from_option(&parenthesized), None);
}

#[test]
fn option_with_a_leading_colon_is_unwrapped() {
    let rooted = match generic(&["std", "option", "Option"], vec![GenericArg::Type(plain("i32"))]) {
        TypeExpr::Path { mut path, qself } => {
            path.leading_colon = true;
            TypeExpr::Path { qself, path }
        },
        TypeExpr::Other => unreachable!(),
    };
    assert_eq!(extract_type_from_option(&rooted), Some(&plain("i32")));
}

#[test]
fn bind_form_follows_the_type() {
    assert_eq!(field_bind_form(&field("age", plain("i32"), Vec::new())), BindForm::Owned);
    assert_eq!(field_bind_form(&field("name", plain("String"), Vec::new())), BindForm::Borrowed);
    assert_eq!(field_bind_form(&field("price", plain("Decimal"), Vec::new())), BindForm::Borrowed);
    assert_eq!(
        field_bind_form(&field("weight", option_of(plain("i32")), Vec::new())),
        BindForm::AsRef
    );
    assert_eq!(
        field_bind_form(&field("note", option_of(plain("String")), Vec::new())),
        BindForm::AsRef
    );
    let full_path = TypeExpr::Path { qself: false, path: path_of(&["chrono", "NaiveDateTime"]) };
    assert_eq!(field_bind_form(&field("at", full_path, Vec::new())), BindForm::Empty);
    let vec_type = generic(&["Vec"], vec![GenericArg::Type(plain("u8"))]);
    assert_eq!(field_bind_form(&field("raw", vec_type, Vec::new())), BindForm::Empty);
}

#[test]
fn bind_form_skips_what_is_no_column() {
    assert_eq!(field_bind_form(&field("pair", TypeExpr::Other, Vec::new())), BindForm::Skipped);
    let unnamed =
        Field { attrs: Vec::new(), vis: Visibility::Public, ident: None, ty: plain("i32") };
    assert_eq!(field_bind_form(&unnamed), BindForm::Skipped);
}

#[test]
fn constructor_leaves_out_the_times() {
    assert!(takes_part_in_constructor(&field("name", plain("String"), Vec::new())));
    assert!(!takes_part_in_constructor(&field("create_time", plain("NaiveDateTime"), Vec::new())));
    assert!(!takes_part_in_constructor(&field("update_time", plain("NaiveDateTime"), Vec::new())));
    assert!(!takes_part_in_constructor(&field(
        "made",
        plain("NaiveDateTime"),
        vec![marker("create_time")]
    )));
    assert!(!takes_part_in_constructor(&field(
        "changed",
        plain("NaiveDateTime"),
        vec![marker("update_time")]
    )));
}

#[test]
fn auto_time_fields_for_insert_and_update() {
    assert_eq!(auto_time_fields(Some("made"), "changed"), vec!["made", "changed"]);
    assert_eq!(auto_time_fields(None, "changed"), vec!["changed"]);
}

#[test]
fn stored_columns_of_a_person() {
    let person = person();
    let columns = stored_columns(&person.fields);
    let seen: Vec<(usize, &str, &str, BindForm, bool)> = columns
        .iter()
        .map(|c| (c.field, c.ident.as_str(), c.name.as_str(), c.bind, c.constructed))
        .collect();
    assert_eq!(
        seen,
        vec![
            (1, "name", "name", BindForm::Borrowed, true),
            (2, "age", "age", BindForm::Owned, true),
            (3, "weight", "weight", BindForm::AsRef, true),
            (4, "create_time", "create_time", BindForm::Owned, false),
            (5, "update_time", "update_time", BindForm::Owned, false),
        ]
    );
}

#[test]
fn stored_columns_leave_out_hidden_and_key_fields() {
    let mut private = field("secret", plain("String"), Vec::new());
    private.vis = Visibility::Inherited;
    let mut restricted = field("inner", plain("String"), Vec::new());
    restricted.vis = Visibility::Restricted;
    let mut in_crate = field("shared", plain("i64"), Vec::new());
    in_crate.vis = Visibility::Crate;
    let fields = Fields::Named(vec![
        private,
        field("key", plain("i32"), vec![marker("id")]),
        field("id", plain("i32"), Vec::new()),
        restricted,
        field("tuple", TypeExpr::Other, Vec::new()),
        in_crate,
        field("title", plain("String"), vec![field_name("book_title")]),
    ]);
    let columns = stored_columns(&fields);
    assert_eq!(columns.len(), 2);
    assert_eq!(columns[0].field, 5);
    assert_eq!(columns[0].name, "shared");
    assert_eq!(columns[1].field, 6);
    assert_eq!(columns[1].ident, "title");
    assert_eq!(columns[1].name, "book_title");
    assert!(stored_columns(&Fields::Unit).is_empty());
}

#[test]
fn plan_of_a_person() {
    let person = person();
    assert!(snake_case_fits(&person.ident));
    let plan = impl_sql_helper(&person);
    assert_eq!(plan.table, "person");
    assert_eq!(plan.id, "id");
    assert_eq!(plan.create_time, "create_time");
    assert_eq!(plan.update_time, "update_time");
    assert_eq!(plan.columns.len(), 5);
    assert_eq!(plan.insert_stamps, vec!["create_time", "update_time"]);
    assert_eq!(plan.update_stamps, vec!["update_time"]);
    assert_eq!(
        plan.statements.select_base,
        "SELECT id, name, age, weight, create_time, update_time FROM person"
    );
    assert_eq!(
        plan.statements.insert,
        "INSERT INTO person (name, age, weight, create_time, update_time) VALUES(?, ?, ?, ?, ?)"
    );
    assert_eq!(
        plan.statements.update,
        "UPDATE person SET name = ?, age = ?, weight = ?, create_time = ?, update_time = ? WHERE id = ?"
    );
    assert_eq!(plan.statements.delete, "DELETE FROM person WHERE id = ?");
    assert_eq!(plan.statements.count_where, "SELECT count(1) FROM person WHERE {}");
}

#[test]
fn plan_names_the_table_in_snake_case() {
    let mut order = person();
    order.ident = "OrderLine".to_string();
    let plan = impl_sql_helper(&order);
    assert_eq!(plan.table, "order_line");
    assert_eq!(plan.statements.count_base, "SELECT count(1) FROM order_line");
    assert_eq!(plan.statements.delete, "DELETE FROM order_line WHERE id = ?");
    order.ident = "HTTPRequest".to_string();
    assert_eq!(impl_sql_helper(&order).table, "http_request");
}

#[test]
fn plan_with_marked_key_and_times() {
    let item = ItemStruct {
        attrs: Vec::new(),
        ident: "Book".to_string(),
        fields: Fields::Named(vec![
            field("isbn", plain("i32"), vec![marker("id")]),
            field("title", plain("String"), vec![field_name("book_title")]),
            field("added", plain("NaiveDateTime"), vec![marker("create_time")]),
            field("changed", plain("NaiveDateTime"), vec![marker("update_time")]),
        ]),
    };
    let plan = plan_for_table(&item, "books".to_string());
    assert_eq!(plan.table, "books");
    assert_eq!(plan.id, "isbn");
    assert_eq!(plan.create_time, "added");
    assert_eq!(plan.update_time, "changed");
    assert_eq!(plan.insert_stamps, vec!["added", "changed"]);
    assert_eq!(plan.update_stamps, vec!["changed"]);
    assert_eq!(plan.statements.find, "SELECT isbn, book_title, added, changed FROM books WHERE isbn = ?");
    assert_eq!(
        plan.statements.update,
        "UPDATE books SET book_title = ?, added = ?, changed = ? WHERE isbn = ?"
    );
    let constructed: Vec<&str> =
        plan.columns.iter().filter(|c| c.constructed).map(|c| c.ident.as_str()).collect();
    assert_eq!(constructed, vec!["title"]);
}

#[test]
fn plan_of_a_struct_without_fields() {
    let unit = ItemStruct { attrs: Vec::new(), ident: "Empty".to_string(), fields: Fields::Unit };
    let plan = impl_sql_helper(&unit);
    assert_eq!(plan.table, "empty");
    assert_eq!(plan.id, "id");
    assert!(plan.columns.is_empty());
    assert_eq!(plan.statements.select_base, "SELECT id,  FROM empty");
    assert_eq!(plan.statements.insert, "INSERT INTO empty () VALUES()");
}
