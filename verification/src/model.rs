//! A struct declaration reduced to the data the transformers read: the
//! declared name and the shape of its field list. Type expressions are kept
//! as their source text; nothing in the transformations looks inside them.

use vstd::prelude::*;

verus! {

/// One named field of a declaration: its identifier and the source text of
/// its type.
#[derive(Debug)]
pub struct FieldDecl {
    pub name: String,
    pub ty: String,
}

/// Mathematical image of a `FieldDecl`.
pub struct SpecFieldDecl {
    pub name: Seq<char>,
    pub ty: Seq<char>,
}

impl View for FieldDecl {
    type V = SpecFieldDecl;

    open spec fn view(&self) -> SpecFieldDecl {
        SpecFieldDecl { name: self.name@, ty: self.ty@ }
    }
}

/// The shape of a declaration's field list. Only the named shape carries the
/// fields themselves: the transformers never read unnamed fields, so the
/// unnamed shape records just their count.
#[derive(Debug)]
pub enum FieldListShape {
    Named(Vec<FieldDecl>),
    Unnamed(usize),
    Unit,
}

/// Mathematical image of a `FieldListShape`.
pub enum SpecFieldListShape {
    Named(Seq<SpecFieldDecl>),
    Unnamed(int),
    Unit,
}

impl View for FieldListShape {
    type V = SpecFieldListShape;

    open spec fn view(&self) -> SpecFieldListShape {
        match self {
            FieldListShape::Named(fields) => SpecFieldListShape::Named(
                fields@.map_values(|f: FieldDecl| f@),
            ),
            FieldListShape::Unnamed(n) => SpecFieldListShape::Unnamed(*n as int),
            FieldListShape::Unit => SpecFieldListShape::Unit,
        }
    }
}

/// A struct declaration: its name and its field list.
#[derive(Debug)]
pub struct StructDecl {
    pub name: String,
    pub fields: FieldListShape,
}

/// Mathematical image of a `StructDecl`.
pub struct SpecStructDecl {
    pub name: Seq<char>,
    pub fields: SpecFieldListShape,
}

impl View for StructDecl {
    type V = SpecStructDecl;

    open spec fn view(&self) -> SpecStructDecl {
        SpecStructDecl { name: self.name@, fields: self.fields@ }
    }
}

} // verus!
