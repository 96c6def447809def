//! The walk over a function's signature, and what it reports of each
//! reference type on its way.

use proc_macro2::Span;
use syn::spanned::Spanned;
use syn::visit::Visit;
use vstd::prelude::*;
use vstd::string::StringExecFns;

verus! {

/// What may be wrong with the lifetime of a reference type.
#[derive(Clone, Copy, Debug, PartialEq, Eq, Structural)]
pub enum Problem {
    /// The reference has no lifetime: `&T`.
    Unannotated,
    /// The reference has the anonymous lifetime: `&'_ T`.
    Anonymous,
}

impl Problem {
    /// The text of `message`.
    pub open spec fn spec_message(self) -> Seq<char> {
        match self {
            Problem::Unannotated => "In this function, all references must be annotated with a lifetime."@,
            Problem::Anonymous => "In this function, the anonymous lifetime is not allowed."@,
        }
    }

    /// The message that the compiler will show for this problem.
    pub fn message(&self) -> (message: &'static str)
        ensures
            message@ == self.spec_message(),
    {
        match self {
            Problem::Unannotated => "In this function, all references must be annotated with a lifetime.",
            Problem::Anonymous => "In this function, the anonymous lifetime is not allowed.",
        }
    }
}

/// A lifetime as it is written on a reference type.
#[derive(Debug)]
pub struct LifetimeSite {
    /// The name behind the apostrophe.
    pub name: String,
    /// Where the lifetime stands.
    pub span: Span,
}

/// A reference type as it is written in a signature.
#[derive(Debug)]
pub struct ReferenceSite {
    /// Where the whole type stands.
    pub span: Span,
    /// The lifetime written on it, if any.
    pub lifetime: Option<LifetimeSite>,
}

/// A problem, and the place in the source that it is reported at.
#[derive(Debug)]
pub struct LifetimeError {
    pub problem: Problem,
    pub span: Span,
}

impl ReferenceSite {
    /// What is reported of a reference type: a reference without a lifetime
    /// is reported where the type stands, one with the anonymous lifetime
    /// where that lifetime stands, and one with a named lifetime is not
    /// reported.
    pub open spec fn finding(self) -> Option<LifetimeError> {
        match self.lifetime {
            None => Some(LifetimeError { problem: Problem::Unannotated, span: self.span }),
            Some(lifetime) => if lifetime.name@ == "_"@ {
                Some(LifetimeError { problem: Problem::Anonymous, span: lifetime.span })
            } else {
                None
            },
        }
    }

    /// What `finding` adds to a list of errors: one error or none.
    pub open spec fn findings(self) -> Seq<LifetimeError> {
        match self.finding() {
            Some(error) => seq![error],
            None => Seq::empty(),
        }
    }

    /// Checks the lifetime of a reference type, and gives the error to
    /// report, if there is one.
    pub fn check(&self) -> (found: Option<LifetimeError>)
        ensures
            found == self.finding(),
    {
        match &self.lifetime {
            None => Some(LifetimeError { problem: Problem::Unannotated, span: self.span }),
            Some(lifetime) => {
                if lifetime.name == String::from_str("_") {
                    Some(LifetimeError { problem: Problem::Anonymous, span: lifetime.span })
                } else {
                    None
                }
            },
        }
    }
}

/// The reference type that a type of the syntax tree is, as it is written,
/// or `None` for any other type.
pub uninterp spec fn own_site(ty: syn::Type) -> Option<ReferenceSite>;

/// The reference types that `syn`'s walk comes by inside a type, the type
/// itself left out, in the order of the walk: each before what stands inside
/// it in turn.
pub uninterp spec fn inner_sites(ty: syn::Type) -> Seq<ReferenceSite>;

/// The reference types that `syn`'s walk of a function's signature comes by,
/// in the order of the walk. The body of the function is no part of it.
pub uninterp spec fn signature_sites(function: syn::ItemFn) -> Seq<ReferenceSite>;

/// `own_site` as a list, of one reference type or of none.
pub open spec fn own_sites(ty: syn::Type) -> Seq<ReferenceSite> {
    match own_site(ty) {
        Some(site) => seq![site],
        None => Seq::empty(),
    }
}

/// The reference types of a type, in the order of the walk: the type itself
/// where it is a reference, then those inside it.
pub open spec fn type_sites(ty: syn::Type) -> Seq<ReferenceSite> {
    own_sites(ty) + inner_sites(ty)
}

/// What is reported of a list of reference types: the error of each that has
/// one, in the order of the list.
pub open spec fn site_findings(sites: Seq<ReferenceSite>) -> Seq<LifetimeError>
    decreases sites.len(),
{
    if sites.len() == 0 {
        Seq::empty()
    } else {
        site_findings(sites.drop_last()) + sites.last().findings()
    }
}

/// What is reported of two lists, one behind the other, is what is reported
/// of the first and then what is reported of the second.
pub proof fn lemma_findings_of_both(first: Seq<ReferenceSite>, second: Seq<ReferenceSite>)
    ensures
        site_findings(first + second) == site_findings(first) + site_findings(second),
    decreases second.len(),
{
    if second.len() == 0 {
        assert(first + second == first);
    } else {
        lemma_findings_of_both(first, second.drop_last());
        assert((first + second).drop_last() == first + second.drop_last());
        assert((first + second).last() == second.last());
    }
}

/// Nothing is reported of a list of reference types exactly where each of
/// them names its lifetime.
pub proof fn lemma_nothing_found(sites: Seq<ReferenceSite>)
    ensures
        site_findings(sites).len() == 0 <==> forall|i: int|
            0 <= i < sites.len() ==> (#[trigger] sites[i]).finding() is None,
    decreases sites.len(),
{
    if sites.len() > 0 {
        let front = sites.drop_last();
        lemma_nothing_found(front);
        assert(forall|i: int| 0 <= i < front.len() ==> front[i] == sites[i]);
        assert(sites.last() == sites[sites.len() - 1]);
    }
}

/// Collects the errors of the reference types that a walk comes by, in the
/// order of the walk.
#[derive(Debug)]
pub struct TypeVisitor {
    pub errors: Vec<LifetimeError>,
}

impl Default for TypeVisitor {
    fn default() -> (visitor: Self)
        ensures
            visitor.errors@ == Seq::<LifetimeError>::empty(),
    {
        TypeVisitor { errors: Vec::new() }
    }
}

impl TypeVisitor {
    /// Takes note of one reference type: its error, if it has one, goes to
    /// the end of the list.
    pub fn record(&mut self, site: &ReferenceSite)
        ensures
            final(self).errors@ == old(self).errors@ + site.findings(),
    {
        match site.check() {
            Some(error) => {
                self.errors.push(error);
            },
            None => {},
        }
    }

    /// Takes note of a list of reference types, one after the other.
    pub fn record_all(&mut self, sites: &Vec<ReferenceSite>)
        ensures
            final(self).errors@ == old(self).errors@ + site_findings(sites@),
    {
        let mut i: usize = 0;
        while i < sites.len()
            invariant
                i <= sites.len(),
                self.errors@ == old(self).errors@ + site_findings(sites@.take(i as int)),
            decreases sites.len() - i,
        {
            self.record(&sites[i]);
            proof {
                assert(sites@.take(i + 1).drop_last() == sites@.take(i as int));
            }
            i = i + 1;
        }
        proof {
            assert(sites@.take(i as int) == sites@);
        }
    }
}

/// The visitor's part in a walk by `syn`: `visit_type` is called for each
/// type that the walk comes by, from the outside in.
impl<'ast> Visit<'ast> for TypeVisitor {
    /// Records the type if it is a reference, then lets the walk go on into
    /// the type, where it records each reference type in turn.
    fn visit_type(&mut self, ty: &'ast syn::Type)
        ensures
            final(self).errors@ == old(self).errors@ + site_findings(type_sites(*ty)),
    {
        match read_site(ty) {
            Some(site) => {
                self.record(&site);
            },
            None => {},
        }
        walk_inner(self, ty);
        proof {
            reveal_with_fuel(site_findings, 2);
            assert(own_sites(*ty).len() > 0 ==> own_sites(*ty).drop_last() == Seq::<
                ReferenceSite,
            >::empty());
            lemma_findings_of_both(own_sites(*ty), inner_sites(*ty));
        }
    }
}

/// Reads a type of the syntax tree. For `syn::Type::Reference` the answer
/// holds what is written: where the type stands and, if it has a lifetime,
/// the name of the lifetime's identifier and where the lifetime stands, each
/// place as `Spanned::span` gives it. For any other type the answer is
/// `None`. What comes back is `own_site` of the type.
#[verifier::external_body]
fn read_site(ty: &syn::Type) -> (site: Option<ReferenceSite>)
    ensures
        site == own_site(*ty),
{
    match ty {
        syn::Type::Reference(reference) => {
            let lifetime = match &reference.lifetime {
                Some(lifetime) => Some(
                    LifetimeSite { name: lifetime.ident.to_string(), span: reference.lifetime.span() },
                ),
                None => None,
            };
            Some(ReferenceSite { span: reference.span(), lifetime })
        },
        _ => None,
    }
}

/// `syn::visit::visit_type`: the walk goes on into the type, and calls
/// `visit_type` of the visitor for each type that stands directly inside it,
/// in the order in which they are written. The walk does nothing else to the
/// visitor, and each such call adds what `visit_type` promises, so that the
/// errors of `inner_sites` stand behind those that the visitor held.
#[verifier::external_body]
fn walk_inner(visitor: &mut TypeVisitor, ty: &syn::Type)
    ensures
        final(visitor).errors@ == old(visitor).errors@ + site_findings(inner_sites(*ty)),
{
    syn::visit::visit_type(visitor, ty);
}

/// `Visit::visit_signature`: the walk over a function's signature, which
/// calls `visit_type` of the visitor for each type that stands directly in
/// the signature, in the order in which they are written. The walk does
/// nothing else to the visitor, and each such call adds what `visit_type`
/// promises, so that the errors of `signature_sites` stand behind those that
/// the visitor held.
#[verifier::external_body]
pub(crate) fn walk_signature(visitor: &mut TypeVisitor, function: &syn::ItemFn)
    ensures
        final(visitor).errors@ == old(visitor).errors@ + site_findings(signature_sites(*function)),
{
    visitor.visit_signature(&function.sig);
}

} // verus!
