//! The two transformations: the plain class deriver and the inherit
//! transformer. Both are planned as functions on the declaration model; the
//! plan says exactly which declaration is re-emitted and what the generated
//! capability implementations will hold.

use vstd::prelude::*;
use crate::model::{FieldDecl, FieldListShape, SpecFieldDecl, SpecFieldListShape, SpecStructDecl,
    StructDecl};

verus! {

/// Whether a piece of source text parses as a Rust type expression. The
/// grammar is decided by syn; success depends on the text alone.
pub uninterp spec fn parses_as_type(s: Seq<char>) -> bool;

/// Relies on `syn::parse_str::<syn::Type>`: it returns `Ok` exactly when the
/// text is a well-formed type expression, a fact of the text alone.
#[verifier::external_body]
fn check_type_arg(s: &str) -> (r: bool)
    ensures
        r == parses_as_type(s@),
{
    syn::parse_str::<syn::Type>(s).is_ok()
}

/// Why a transformation was refused.
#[derive(Debug, Clone, Copy, PartialEq, Eq, Structural)]
pub enum ExpandError {
    /// The argument of the inherit transformer is not a type expression.
    ParentNotAType,
    /// The annotated declaration has no named field list, so no base field
    /// can be injected and the generated accessors would be meaningless.
    UnsupportedShape,
}

/// The argument of the inherit transformer: the parent type.
#[derive(Debug)]
pub struct InheritArgs {
    pub parent_type: String,
}

impl InheritArgs {
    /// Parses the transformer's argument text as a single type expression.
    pub fn parse(input: &str) -> (r: Result<InheritArgs, ExpandError>)
        ensures
            r is Ok <==> parses_as_type(input@),
            r matches Ok(a) ==> a.parent_type@ == input@,
            r matches Err(e) ==> e == ExpandError::ParentNotAType,
    {
        if check_type_arg(input) {
            Ok(InheritArgs { parent_type: input.to_owned() })
        } else {
            Err(ExpandError::ParentNotAType)
        }
    }
}

/// What the generated `Class` implementation will hold: the type's literal
/// name, and the parent type whose identity goes into the class record —
/// absent for the plain deriver.
#[derive(Debug)]
pub struct ClassPlan {
    pub class_name: String,
    pub parent_type: Option<String>,
}

/// Mathematical image of a `ClassPlan`.
pub struct SpecClassPlan {
    pub class_name: Seq<char>,
    pub parent_type: Option<Seq<char>>,
}

impl View for ClassPlan {
    type V = SpecClassPlan;

    open spec fn view(&self) -> SpecClassPlan {
        SpecClassPlan {
            class_name: self.class_name@,
            parent_type: match self.parent_type {
                Some(ref p) => Some(p@),
                None => None,
            },
        }
    }
}

/// The outcome of a transformation: the declaration to re-emit (the deriver
/// re-emits none; the inherit transformer re-emits the rewritten one), the
/// plan of the generated `Class` implementation, and the parent type of the
/// generated `Inherits` implementation, if any.
#[derive(Debug)]
pub struct Expansion {
    pub decl: Option<StructDecl>,
    pub class_plan: ClassPlan,
    pub inherits_parent: Option<String>,
}

/// Mathematical image of an `Expansion`.
pub struct SpecExpansion {
    pub decl: Option<SpecStructDecl>,
    pub class_plan: SpecClassPlan,
    pub inherits_parent: Option<Seq<char>>,
}

impl View for Expansion {
    type V = SpecExpansion;

    open spec fn view(&self) -> SpecExpansion {
        SpecExpansion {
            decl: match self.decl {
                Some(ref d) => Some(d@),
                None => None,
            },
            class_plan: self.class_plan@,
            inherits_parent: match self.inherits_parent {
                Some(ref p) => Some(p@),
                None => None,
            },
        }
    }
}

/// The field injected by the inherit transformer: named `base`, of the
/// parent's type.
pub open spec fn spec_base_field(parent: Seq<char>) -> SpecFieldDecl {
    SpecFieldDecl { name: "base"@, ty: parent }
}

/// The rewritten declaration: the base field stands at position 0 of the
/// named field list, every declared field after it, in order.
pub open spec fn spec_inject_base(d: SpecStructDecl, parent: Seq<char>) -> SpecStructDecl
    recommends
        d.fields is Named,
{
    match d.fields {
        SpecFieldListShape::Named(fields) => SpecStructDecl {
            name: d.name,
            fields: SpecFieldListShape::Named(seq![spec_base_field(parent)] + fields),
        },
        _ => d,
    }
}

/// The class deriver: plans the `Class` implementation for a type declared
/// with no parent. No declaration is re-emitted and no field is touched; the
/// planned class record carries the type's own name and no parent.
pub fn derive_class(input: &StructDecl) -> (r: Expansion)
    ensures
        r@.decl is None,
        r@.class_plan.class_name == input@.name,
        r@.class_plan.parent_type is None,
        r@.inherits_parent is None,
{
    Expansion {
        decl: None,
        class_plan: ClassPlan { class_name: input.name.clone(), parent_type: None },
        inherits_parent: None,
    }
}

/// The inherit transformer: parses the argument as the parent type, injects
/// the hidden `base` field at position 0 of the named field list, and plans
/// the `Class` implementation (parent set) and the `Inherits` implementation
/// over the injected field. A declaration without named fields is refused
/// rather than silently left without the field its accessors need.
pub fn inherit(args: &str, input: StructDecl) -> (r: Result<Expansion, ExpandError>)
    ensures
        r is Ok <==> parses_as_type(args@) && input@.fields is Named,
        r == Err::<Expansion, ExpandError>(ExpandError::ParentNotAType) <==> !parses_as_type(
            args@,
        ),
        r == Err::<Expansion, ExpandError>(ExpandError::UnsupportedShape) <==> parses_as_type(
            args@,
        ) && !(input@.fields is Named),
        r matches Ok(e) ==> {
            &&& e@.decl == Some(spec_inject_base(input@, args@))
            &&& e@.class_plan.class_name == input@.name
            &&& e@.class_plan.parent_type == Some(args@)
            &&& e@.inherits_parent == Some(args@)
        },
        r matches Ok(e) ==> e@.decl matches Some(d) && d.fields matches SpecFieldListShape::Named(
            fields,
        ) && fields[0] == spec_base_field(args@) && fields.skip(1) == input@.fields->Named_0,
{
    let parsed = InheritArgs::parse(args)?;
    match input.fields {
        FieldListShape::Named(mut fields) => {
            let base = FieldDecl { name: "base".to_owned(), ty: parsed.parent_type.clone() };
            let ghost old_fields = fields@;
            fields.insert(0, base);
            proof {
                assert(fields@.map_values(|f: FieldDecl| f@) =~= seq![
                    spec_base_field(args@),
                ] + old_fields.map_values(|f: FieldDecl| f@));
            }
            let decl = StructDecl { name: input.name, fields: FieldListShape::Named(fields) };
            let class_plan = ClassPlan {
                class_name: decl.name.clone(),
                parent_type: Some(parsed.parent_type.clone()),
            };
            let result = Expansion {
                decl: Some(decl),
                class_plan,
                inherits_parent: Some(parsed.parent_type),
            };
            proof {
                assert(result@.decl matches Some(d) && d.fields matches
                    SpecFieldListShape::Named(fs) && fs.skip(1) =~= input@.fields->Named_0);
            }
            Ok(result)
        },
        FieldListShape::Unnamed(_) => Err(ExpandError::UnsupportedShape),
        FieldListShape::Unit => Err(ExpandError::UnsupportedShape),
    }
}

} // verus!
