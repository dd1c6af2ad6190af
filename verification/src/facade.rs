//! The query facade: the three root entry points a query can invoke. Each
//! performs a fresh resolution pass over one collection, delegating entirely
//! to the resolver, and returns results in insertion order. Projecting the
//! fully resolved tree down to the fields a query names is the business of
//! the external query executor, not of this crate.

use vstd::prelude::*;

verus! {

use crate::resolve::{Employee, Project, Skill, employee_matches, project_matches, skill_matches};
use crate::store::Context;

/// The root query object.
pub struct Queries;

/// The full resolution of every stored skill, in insertion order.
pub open spec fn skills_output(ctx: Context, out: Seq<Skill>) -> bool {
    &&& out.len() == ctx.skills@.len()
    &&& forall|i: int| 0 <= i < out.len() ==> skill_matches(ctx, i, #[trigger] out[i])
}

/// The full resolution of every stored employee, in insertion order.
pub open spec fn employees_output(ctx: Context, out: Seq<Employee>) -> bool {
    &&& out.len() == ctx.employees@.len()
    &&& forall|i: int| 0 <= i < out.len() ==> employee_matches(ctx, i, #[trigger] out[i])
}

/// The full resolution of every stored project, in insertion order.
pub open spec fn projects_output(ctx: Context, out: Seq<Project>) -> bool {
    &&& out.len() == ctx.projects@.len()
    &&& forall|i: int| 0 <= i < out.len() ==> project_matches(ctx, i, #[trigger] out[i])
}

impl Queries {
    /// Resolve every stored skill, in insertion order.
    pub fn skills(context: &Context) -> (r: Vec<Skill>)
        ensures
            skills_output(*context, r@),
    {
        let n = context.skills.len();
        let mut r: Vec<Skill> = Vec::new();
        let mut i: usize = 0;
        while i < n
            invariant
                i <= n,
                n == context.skills@.len(),
                r@.len() == i,
                forall|k: int| 0 <= k < i ==> skill_matches(*context, k, #[trigger] r@[k]),
            decreases n - i,
        {
            let s = context.resolve_skill(i);
            r.push(s.unwrap());
            i += 1;
        }
        r
    }

    /// Resolve every stored employee, in insertion order.
    pub fn employees(context: &Context) -> (r: Vec<Employee>)
        requires
            context.wf(),
        ensures
            employees_output(*context, r@),
    {
        let n = context.employees.len();
        let mut r: Vec<Employee> = Vec::new();
        let mut i: usize = 0;
        while i < n
            invariant
                context.wf(),
                i <= n,
                n == context.employees@.len(),
                r@.len() == i,
                forall|k: int| 0 <= k < i ==> employee_matches(*context, k, #[trigger] r@[k]),
            decreases n - i,
        {
            let e = context.resolve_employee(i);
            r.push(e.unwrap());
            i += 1;
        }
        r
    }

    /// Resolve every stored project, in insertion order.
    pub fn projects(context: &Context) -> (r: Vec<Project>)
        requires
            context.wf(),
        ensures
            projects_output(*context, r@),
    {
        let n = context.projects.len();
        let mut r: Vec<Project> = Vec::new();
        let mut i: usize = 0;
        while i < n
            invariant
                context.wf(),
                i <= n,
                n == context.projects@.len(),
                r@.len() == i,
                forall|k: int| 0 <= k < i ==> project_matches(*context, k, #[trigger] r@[k]),
            decreases n - i,
        {
            let p = context.resolve_project(i);
            r.push(p.unwrap());
            i += 1;
        }
        r
    }
}

} // verus!
