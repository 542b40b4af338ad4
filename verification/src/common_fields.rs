//! Adding the key and the two time fields to a struct.

use vstd::prelude::*;
use crate::search::{first_where, lemma_first_where_found, lemma_first_where_missing};
use crate::syntax::{Attribute, Field, Fields, ItemStruct, Path, Token, TypeExpr, Visibility};
use crate::text::str_eq;
use crate::{DEFAULT_CREATE_TIME_NAME, DEFAULT_ID_NAME, DEFAULT_UPDATE_TIME_NAME};

verus! {

/// Why the common fields cannot be added to a struct.
#[derive(Debug, PartialEq, Eq)]
pub enum CommonFieldsError {
    /// The field at position `field` already has the name `name` of a common
    /// field.
    AlreadyExists { field: usize, name: String },
    /// The struct does not derive `derive`.
    MissingDerive { derive: String },
    /// The struct has no named fields.
    Unsupported,
}

/// An error, with its texts as sequences.
pub enum CommonFieldsErrorView {
    AlreadyExists { field: int, name: Seq<char> },
    MissingDerive { derive: Seq<char> },
    Unsupported,
}

impl CommonFieldsErrorView {
    /// The message that the error is reported with.
    pub open spec fn message(self) -> Seq<char> {
        match self {
            CommonFieldsErrorView::AlreadyExists { field, name } => "`"@ + name
                + "` already exists [common_fields]"@,
            CommonFieldsErrorView::MissingDerive { derive } => "add "@ + derive
                + " derive [common_fields]"@,
            CommonFieldsErrorView::Unsupported => "only supports struct [common_fields]"@,
        }
    }
}

impl View for CommonFieldsError {
    type V = CommonFieldsErrorView;

    open spec fn view(&self) -> CommonFieldsErrorView {
        match self {
            CommonFieldsError::AlreadyExists { field, name } => CommonFieldsErrorView::AlreadyExists {
                field: *field as int,
                name: name@,
            },
            CommonFieldsError::MissingDerive { derive } => CommonFieldsErrorView::MissingDerive {
                derive: derive@,
            },
            CommonFieldsError::Unsupported => CommonFieldsErrorView::Unsupported,
        }
    }
}

impl CommonFieldsError {
    /// The message that the error is reported with.
    pub fn message(&self) -> (text: String)
        ensures
            text@ == self@.message(),
    {
        match self {
            CommonFieldsError::AlreadyExists { field, name } => {
                let mut text = String::from_str("`");
                text.append(name.as_str());
                text.append("` already exists [common_fields]");
                text
            },
            CommonFieldsError::MissingDerive { derive } => {
                let mut text = String::from_str("add ");
                text.append(derive.as_str());
                text.append(" derive [common_fields]");
                text
            },
            CommonFieldsError::Unsupported => String::from_str(
                "only supports struct [common_fields]",
            ),
        }
    }
}

/// Whether `name` is the name of one of the common fields.
pub open spec fn is_common_name(name: Seq<char>) -> bool {
    name == DEFAULT_ID_NAME@ || name == DEFAULT_CREATE_TIME_NAME@ || name
        == DEFAULT_UPDATE_TIME_NAME@
}

/// The fields that are named like a common field.
pub open spec fn common_named() -> spec_fn(Field) -> bool {
    |field: Field| field.ident is Some && is_common_name(field.ident->0@)
}

/// Refuses a struct that already has a field named like a common field, with
/// the first such field.
pub fn check_field_already_exists(fields: &Fields) -> (checked: Result<(), CommonFieldsError>)
    ensures
        match first_where(fields.list(), common_named()) {
            Some(i) => checked is Err && checked->Err_0@ == (CommonFieldsErrorView::AlreadyExists {
                field: i,
                name: fields.list()[i].ident->0@,
            }),
            None => checked is Ok,
        },
{
    let n = fields.len();
    let mut i: usize = 0;
    while i < n
        invariant
            i <= n,
            n == fields.list().len(),
            forall|j: int| 0 <= j < i ==> !common_named()(#[trigger] fields.list()[j]),
        decreases n - i,
    {
        if let Some(ident) = &fields.get(i).ident {
            if str_eq(ident.as_str(), DEFAULT_ID_NAME) || str_eq(
                ident.as_str(),
                DEFAULT_CREATE_TIME_NAME,
            ) || str_eq(ident.as_str(), DEFAULT_UPDATE_TIME_NAME) {
                proof {
                    lemma_first_where_found(fields.list(), common_named(), i as int);
                }
                return Err(CommonFieldsError::AlreadyExists { field: i, name: ident.clone() });
            }
        }
        i += 1;
    }
    proof {
        lemma_first_where_missing(fields.list(), common_named());
    }
    Ok(())
}

/// Whether one of the tokens is the identifier `name`.
pub open spec fn holds_ident(tokens: Seq<Token>, name: Seq<char>) -> bool {
    exists|k: int|
        0 <= k < tokens.len() && (#[trigger] tokens[k]) is Ident && tokens[k]->Ident_0@ == name
}

/// Whether one of the tokens is a group that holds the identifier `name`.
pub open spec fn group_holds_ident(tokens: Seq<Token>, name: Seq<char>) -> bool {
    exists|j: int|
        0 <= j < tokens.len() && (#[trigger] tokens[j]) is Group && holds_ident(
            tokens[j]->Group_0@,
            name,
        )
}

/// Whether one of the attributes is a `derive` that lists `name`.
pub open spec fn derives(attrs: Seq<Attribute>, name: Seq<char>) -> bool {
    exists|i: int|
        0 <= i < attrs.len() && (#[trigger] attrs[i]).path.ident() == Some("derive"@)
            && group_holds_ident(attrs[i].tokens@, name)
}

fn tokens_hold_ident(tokens: &Vec<Token>, name: &str) -> (holds: bool)
    ensures
        holds == holds_ident(tokens@, name@),
{
    let mut k: usize = 0;
    while k < tokens.len()
        invariant
            k <= tokens.len(),
            forall|m: int|
                0 <= m < k ==> !((#[trigger] tokens@[m]) is Ident && tokens@[m]->Ident_0@
                    == name@),
        decreases tokens.len() - k,
    {
        if let Token::Ident(ident) = &tokens[k] {
            if str_eq(ident.as_str(), name) {
                return true;
            }
        }
        k += 1;
    }
    false
}

fn tokens_hold_group_with_ident(tokens: &Vec<Token>, name: &str) -> (holds: bool)
    ensures
        holds == group_holds_ident(tokens@, name@),
{
    let mut j: usize = 0;
    while j < tokens.len()
        invariant
            j <= tokens.len(),
            forall|m: int|
                0 <= m < j ==> !((#[trigger] tokens@[m]) is Group && holds_ident(
                    tokens@[m]->Group_0@,
                    name@,
                )),
        decreases tokens.len() - j,
    {
        if let Token::Group(inner) = &tokens[j] {
            if tokens_hold_ident(inner, name) {
                return true;
            }
        }
        j += 1;
    }
    false
}

/// Whether the attributes derive `derive_name`.
pub fn check_derive(attrs: &Vec<Attribute>, derive_name: &str) -> (derived: bool)
    ensures
        derived == derives(attrs@, derive_name@),
{
    let mut i: usize = 0;
    while i < attrs.len()
        invariant
            i <= attrs.len(),
            forall|m: int|
                0 <= m < i ==> !((#[trigger] attrs@[m]).path.ident() == Some("derive"@)
                    && group_holds_ident(attrs@[m].tokens@, derive_name@)),
        decreases attrs.len() - i,
    {
        if attrs[i].path.is_ident("derive") && tokens_hold_group_with_ident(
            &attrs[i].tokens,
            derive_name,
        ) {
            return true;
        }
        i += 1;
    }
    false
}

/// Whether `attr` is the bare marker `#[name]`.
pub open spec fn is_marker(attr: &Attribute, name: Seq<char>) -> bool {
    &&& attr.path.ident() == Some(name)
    &&& attr.tokens@.len() == 0
    &&& attr.lit_str is None
}

/// Whether `attr` is `#[oai(read_only)]`.
pub open spec fn is_read_only(attr: &Attribute) -> bool {
    &&& attr.path.ident() == Some("oai"@)
    &&& attr.tokens@.len() == 1
    &&& attr.tokens@[0] is Group
    &&& attr.tokens@[0]->Group_0@.len() == 1
    &&& attr.tokens@[0]->Group_0@[0] is Ident
    &&& attr.tokens@[0]->Group_0@[0]->Ident_0@ == "read_only"@
    &&& attr.lit_str is None
}

/// Whether `field` is the common field `name` of the type `ty`: public, read
/// only and marked with its own name.
pub open spec fn is_common_field(field: &Field, name: Seq<char>, ty: Seq<char>) -> bool {
    &&& field.vis is Public
    &&& field.name() == Some(name)
    &&& field.attrs@.len() == 2
    &&& is_marker(&field.attrs@[0], name)
    &&& is_read_only(&field.attrs@[1])
    &&& field.ty is Path
    &&& !field.ty->qself
    &&& field.ty->path.ident() == Some(ty)
}

/// Whether `after` is `before` followed by the three common fields.
pub open spec fn with_common_fields(before: Seq<Field>, after: Seq<Field>) -> bool {
    let n = before.len() as int;
    &&& after.len() == n + 3
    &&& after.take(n) == before
    &&& is_common_field(&after[n], DEFAULT_ID_NAME@, "i32"@)
    &&& is_common_field(&after[n + 1], DEFAULT_CREATE_TIME_NAME@, "NaiveDateTime"@)
    &&& is_common_field(&after[n + 2], DEFAULT_UPDATE_TIME_NAME@, "NaiveDateTime"@)
}

/// Why the common fields cannot be added to `ast`, if they cannot: a field
/// is named like one of them, a derive is missing (`Object` is asked for
/// before `SqlHelper`), or the fields are not named.
pub open spec fn refusal(ast: &ItemStruct) -> Option<CommonFieldsErrorView> {
    match first_where(ast.fields.list(), common_named()) {
        Some(i) => Some(
            CommonFieldsErrorView::AlreadyExists {
                field: i,
                name: ast.fields.list()[i].ident->0@,
            },
        ),
        None => if !derives(ast.attrs@, "Object"@) {
            Some(CommonFieldsErrorView::MissingDerive { derive: "Object"@ })
        } else if !derives(ast.attrs@, "SqlHelper"@) {
            Some(CommonFieldsErrorView::MissingDerive { derive: "SqlHelper"@ })
        } else if !(ast.fields is Named) {
            Some(CommonFieldsErrorView::Unsupported)
        } else {
            None
        },
    }
}

fn common_field(name: &str, ty: &str) -> (field: Field)
    ensures
        is_common_field(&field, name@, ty@),
{
    let mut inner: Vec<Token> = Vec::new();
    inner.push(Token::Ident(String::from_str("read_only")));
    let mut tokens: Vec<Token> = Vec::new();
    tokens.push(Token::Group(inner));
    let mut attrs: Vec<Attribute> = Vec::new();
    attrs.push(Attribute { path: Path::bare(name), tokens: Vec::new(), lit_str: None });
    attrs.push(Attribute { path: Path::bare("oai"), tokens, lit_str: None });
    Field {
        attrs,
        vis: Visibility::Public,
        ident: Some(String::from_str(name)),
        ty: TypeExpr::Path { qself: false, path: Path::bare(ty) },
    }
}

/// Adds the key `id: i32` and the times `create_time` and `update_time`, of
/// the type `NaiveDateTime`, at the end of a struct's named fields. A struct
/// that is refused stays as it is.
pub fn impl_common_fields(ast: &mut ItemStruct) -> (added: Result<(), CommonFieldsError>)
    ensures
        match added {
            Ok(()) => {
                &&& refusal(old(ast)) is None
                &&& final(ast).ident == old(ast).ident
                &&& final(ast).attrs == old(ast).attrs
                &&& final(ast).fields is Named
                &&& with_common_fields(old(ast).fields.list(), final(ast).fields.list())
            },
            Err(error) => {
                &&& refusal(old(ast)) == Some(error@)
                &&& *final(ast) == *old(ast)
            },
        },
{
    if let Err(error) = check_field_already_exists(&ast.fields) {
        return Err(error);
    }
    if !check_derive(&ast.attrs, "Object") {
        return Err(CommonFieldsError::MissingDerive { derive: String::from_str("Object") });
    }
    if !check_derive(&ast.attrs, "SqlHelper") {
        return Err(CommonFieldsError::MissingDerive { derive: String::from_str("SqlHelper") });
    }
    match &mut ast.fields {
        Fields::Named(fields) => {
            let ghost before = fields@;
            fields.push(common_field(DEFAULT_ID_NAME, "i32"));
            fields.push(common_field(DEFAULT_CREATE_TIME_NAME, "NaiveDateTime"));
            fields.push(common_field(DEFAULT_UPDATE_TIME_NAME, "NaiveDateTime"));
            assert(fields@.take(before.len() as int) =~= before);
            Ok(())
        },
        _ => Err(CommonFieldsError::Unsupported),
    }
}

} // verus!
