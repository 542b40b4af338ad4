//! A struct declaration as plain data: what the planning reads of it.

use vstd::prelude::*;
use crate::text::str_eq;

verus! {

/// How far a field can be seen.
#[derive(Clone, Copy, Debug, PartialEq, Eq)]
pub enum Visibility {
    /// `pub`
    Public,
    /// `crate`
    Crate,
    /// `pub(..)` with a path
    Restricted,
    /// no qualifier
    Inherited,
}

/// One token of an attribute's arguments.
#[derive(Debug, PartialEq, Eq)]
pub enum Token {
    /// An identifier, by its text.
    Ident(String),
    /// A delimited group and the tokens inside it.
    Group(Vec<Token>),
    /// Punctuation or a literal.
    Other,
}

/// One generic argument of a path segment.
#[derive(Debug, PartialEq, Eq)]
pub enum GenericArg {
    /// A type.
    Type(TypeExpr),
    /// A lifetime, a constant, a binding or a constraint.
    Other,
}

/// The arguments that follow a path segment's identifier.
#[derive(Debug, PartialEq, Eq)]
pub enum SegmentArgs {
    /// No arguments.
    Absent,
    /// `<A, B>`
    AngleBracketed(Vec<GenericArg>),
    /// `(A, B) -> C`
    Parenthesized,
}

/// One segment of a path.
#[derive(Debug, PartialEq, Eq)]
pub struct Segment {
    pub ident: String,
    pub arguments: SegmentArgs,
}

/// A path: segments separated by `::`, possibly after a leading `::`.
#[derive(Debug, PartialEq, Eq)]
pub struct Path {
    pub leading_colon: bool,
    pub segments: Vec<Segment>,
}

/// The type of a field.
#[derive(Debug, PartialEq, Eq)]
pub enum TypeExpr {
    /// A path, possibly with a qualified self type (`<T as Trait>::Name`).
    Path { qself: bool, path: Path },
    /// Any other type: a reference, a tuple, an array and so on.
    Other,
}

/// An attribute on a struct or on a field.
#[derive(Debug, PartialEq, Eq)]
pub struct Attribute {
    pub path: Path,
    /// The tokens after the path.
    pub tokens: Vec<Token>,
    /// The string that the arguments hold, where they are one delimited
    /// string literal.
    pub lit_str: Option<String>,
}

/// A field of a struct.
#[derive(Debug, PartialEq, Eq)]
pub struct Field {
    pub attrs: Vec<Attribute>,
    pub vis: Visibility,
    pub ident: Option<String>,
    pub ty: TypeExpr,
}

/// The fields of a struct.
#[derive(Debug, PartialEq, Eq)]
pub enum Fields {
    /// `{ a: A, b: B }`
    Named(Vec<Field>),
    /// `(A, B)`
    Unnamed(Vec<Field>),
    /// no fields
    Unit,
}

/// A struct declaration.
#[derive(Debug, PartialEq, Eq)]
pub struct ItemStruct {
    pub attrs: Vec<Attribute>,
    pub ident: String,
    pub fields: Fields,
}

impl Path {
    /// The identifier that the path consists of, where it is a single
    /// segment without arguments and without a leading `::`.
    pub open spec fn ident(&self) -> Option<Seq<char>> {
        if !self.leading_colon && self.segments@.len() == 1
            && self.segments@[0].arguments is Absent {
            Some(self.segments@[0].ident@)
        } else {
            None
        }
    }

    /// The path that consists of the identifier `ident`.
    pub fn bare(ident: &str) -> (path: Path)
        ensures
            path.ident() == Some(ident@),
    {
        let mut segments: Vec<Segment> = Vec::new();
        segments.push(Segment { ident: String::from_str(ident), arguments: SegmentArgs::Absent });
        Path { leading_colon: false, segments }
    }

    /// The path's identifier, where it is a bare one.
    pub fn get_ident(&self) -> (found: Option<&String>)
        ensures
            found is Some == self.ident() is Some,
            found matches Some(s) ==> s == &self.segments@[0].ident,
    {
        if !self.leading_colon && self.segments.len() == 1 {
            match &self.segments[0].arguments {
                SegmentArgs::Absent => Some(&self.segments[0].ident),
                _ => None,
            }
        } else {
            None
        }
    }

    /// Whether the path is the bare identifier `name`.
    pub fn is_ident(&self, name: &str) -> (same: bool)
        ensures
            same == (self.ident() == Some(name@)),
    {
        match self.get_ident() {
            Some(ident) => str_eq(ident.as_str(), name),
            None => false,
        }
    }
}

impl Field {
    /// The text of the field's identifier, if it has one.
    pub open spec fn name(&self) -> Option<Seq<char>> {
        match self.ident {
            Some(ident) => Some(ident@),
            None => None,
        }
    }
}

impl Fields {
    /// The fields in order; none for a unit struct.
    pub open spec fn list(&self) -> Seq<Field> {
        match self {
            Fields::Named(fields) => fields@,
            Fields::Unnamed(fields) => fields@,
            Fields::Unit => Seq::empty(),
        }
    }

    /// The number of fields.
    pub fn len(&self) -> (n: usize)
        ensures
            n == self.list().len(),
    {
        match self {
            Fields::Named(fields) => fields.len(),
            Fields::Unnamed(fields) => fields.len(),
            Fields::Unit => 0,
        }
    }

    /// The field at `index`.
    pub fn get(&self, index: usize) -> (field: &Field)
        requires
            index < self.list().len(),
        ensures
            *field == self.list()[index as int],
    {
        match self {
            Fields::Named(fields) => &fields[index],
            Fields::Unnamed(fields) => &fields[index],
            Fields::Unit => vstd::pervasive::unreached(),
        }
    }
}

} // verus!
