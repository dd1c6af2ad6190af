//! Properties of resolution that hold across calls: resolution is a pure
//! function of store and position, so listed positions always resolve,
//! repeated resolution passes agree, and the employee a project embeds is
//! exactly the referenced employee's own resolution.

use vstd::prelude::*;

verus! {

use crate::facade::{employees_output, projects_output, skills_output};
use crate::resolve::{
    Employee, Project, Skill, employee_matches, employee_resolution, opt_str_eq, project_matches,
    project_resolution, skill_matches, skill_resolution,
};
use crate::store::{
    Context, InternalEmployee, InternalProject, list_employees_output, list_projects_output,
    list_skills_output,
};
use crate::digits::decimal_digits;

/// Two resolved skills hold the same identifier and description.
pub open spec fn skill_eq(a: Skill, b: Skill) -> bool {
    &&& a.id@ == b.id@
    &&& a.description@ == b.description@
}

/// Two resolved employees hold the same data, embedded skills included.
pub open spec fn employee_eq(a: Employee, b: Employee) -> bool {
    &&& a.id@ == b.id@
    &&& opt_str_eq(a.first_name, b.first_name)
    &&& a.last_name@ == b.last_name@
    &&& a.skills@.len() == b.skills@.len()
    &&& forall|j: int| 0 <= j < a.skills@.len() ==> skill_eq(#[trigger] a.skills@[j], b.skills@[j])
}

/// Two resolved projects hold the same data, embedded employees and skills
/// included.
pub open spec fn project_eq(a: Project, b: Project) -> bool {
    &&& a.id@ == b.id@
    &&& a.short@ == b.short@
    &&& opt_str_eq(a.description, b.description)
    &&& a.state == b.state
    &&& a.skills_required@.len() == b.skills_required@.len()
    &&& forall|j: int|
        0 <= j < a.skills_required@.len() ==> skill_eq(
            #[trigger] a.skills_required@[j],
            b.skills_required@[j],
        )
    &&& employee_eq(a.responsible, b.responsible)
    &&& a.assigned@.len() == b.assigned@.len()
    &&& forall|j: int|
        0 <= j < a.assigned@.len() ==> employee_eq(#[trigger] a.assigned@[j], b.assigned@[j])
}

/// Skill resolution is a function of store and position: two skills resolved
/// from the same position hold the same data.
pub proof fn lemma_skill_resolution_functional(ctx: Context, sid: int, a: Skill, b: Skill)
    requires
        skill_matches(ctx, sid, a),
        skill_matches(ctx, sid, b),
    ensures
        skill_eq(a, b),
{
}

/// Employee resolution is a function of store and position: two employees
/// resolved from the same position hold the same data.
pub proof fn lemma_employee_resolution_functional(ctx: Context, eid: int, a: Employee, b: Employee)
    requires
        employee_matches(ctx, eid, a),
        employee_matches(ctx, eid, b),
    ensures
        employee_eq(a, b),
{
    assert forall|j: int| 0 <= j < a.skills@.len() implies skill_eq(
        #[trigger] a.skills@[j],
        b.skills@[j],
    ) by {
        lemma_skill_resolution_functional(
            ctx,
            ctx.employees@[eid].skills@[j] as int,
            a.skills@[j],
            b.skills@[j],
        );
    }
}

/// Project resolution is a function of store and position: two projects
/// resolved from the same position hold the same data.
pub proof fn lemma_project_resolution_functional(ctx: Context, pid: int, a: Project, b: Project)
    requires
        project_matches(ctx, pid, a),
        project_matches(ctx, pid, b),
    ensures
        project_eq(a, b),
{
    assert forall|j: int| 0 <= j < a.skills_required@.len() implies skill_eq(
        #[trigger] a.skills_required@[j],
        b.skills_required@[j],
    ) by {
        lemma_skill_resolution_functional(
            ctx,
            ctx.projects@[pid].skills_required@[j] as int,
            a.skills_required@[j],
            b.skills_required@[j],
        );
    }
    lemma_employee_resolution_functional(
        ctx,
        ctx.projects@[pid].responsible as int,
        a.responsible,
        b.responsible,
    );
    assert forall|j: int| 0 <= j < a.assigned@.len() implies employee_eq(
        #[trigger] a.assigned@[j],
        b.assigned@[j],
    ) by {
        lemma_employee_resolution_functional(
            ctx,
            ctx.projects@[pid].assigned@[j] as int,
            a.assigned@[j],
            b.assigned@[j],
        );
    }
}

/// Every position handed out by `list_skills` resolves: `resolve_skill` on
/// it cannot return `None`.
pub proof fn lemma_listed_skill_resolves(
    ctx: Context,
    listed: Seq<(usize, &String)>,
    i: int,
    r: Option<Skill>,
)
    requires
        list_skills_output(ctx, listed),
        0 <= i < listed.len(),
        skill_resolution(ctx, listed[i].0 as int, r),
    ensures
        r is Some,
{
}

/// Every position handed out by `list_employees` resolves: `resolve_employee`
/// on it cannot return `None`.
pub proof fn lemma_listed_employee_resolves(
    ctx: Context,
    listed: Seq<(usize, &InternalEmployee)>,
    i: int,
    r: Option<Employee>,
)
    requires
        list_employees_output(ctx, listed),
        0 <= i < listed.len(),
        employee_resolution(ctx, listed[i].0 as int, r),
    ensures
        r is Some,
{
}

/// Every position handed out by `list_projects` resolves: `resolve_project`
/// on it cannot return `None`.
pub proof fn lemma_listed_project_resolves(
    ctx: Context,
    listed: Seq<(usize, &InternalProject)>,
    i: int,
    r: Option<Project>,
)
    requires
        list_projects_output(ctx, listed),
        0 <= i < listed.len(),
        project_resolution(ctx, listed[i].0 as int, r),
    ensures
        r is Some,
{
}

/// The `skills` entry point is idempotent: with no intervening mutation —
/// and the store admits none — two passes yield structurally identical
/// ordered results.
pub proof fn lemma_skills_idempotent(ctx: Context, a: Seq<Skill>, b: Seq<Skill>)
    requires
        skills_output(ctx, a),
        skills_output(ctx, b),
    ensures
        a.len() == b.len(),
        forall|i: int| 0 <= i < a.len() ==> skill_eq(#[trigger] a[i], b[i]),
{
    assert forall|i: int| 0 <= i < a.len() implies skill_eq(#[trigger] a[i], b[i]) by {
        lemma_skill_resolution_functional(ctx, i, a[i], b[i]);
    }
}

/// The `employees` entry point is idempotent: two passes yield structurally
/// identical ordered results.
pub proof fn lemma_employees_idempotent(ctx: Context, a: Seq<Employee>, b: Seq<Employee>)
    requires
        employees_output(ctx, a),
        employees_output(ctx, b),
    ensures
        a.len() == b.len(),
        forall|i: int| 0 <= i < a.len() ==> employee_eq(#[trigger] a[i], b[i]),
{
    assert forall|i: int| 0 <= i < a.len() implies employee_eq(#[trigger] a[i], b[i]) by {
        lemma_employee_resolution_functional(ctx, i, a[i], b[i]);
    }
}

/// The `projects` entry point is idempotent: two passes yield structurally
/// identical ordered results.
pub proof fn lemma_projects_idempotent(ctx: Context, a: Seq<Project>, b: Seq<Project>)
    requires
        projects_output(ctx, a),
        projects_output(ctx, b),
    ensures
        a.len() == b.len(),
        forall|i: int| 0 <= i < a.len() ==> project_eq(#[trigger] a[i], b[i]),
{
    assert forall|i: int| 0 <= i < a.len() implies project_eq(#[trigger] a[i], b[i]) by {
        lemma_project_resolution_functional(ctx, i, a[i], b[i]);
    }
}

/// Reference-embedding correctness: the employee a resolved project carries
/// as `responsible` bears the stringified stored reference as its `id`, and
/// agrees — embedded skills included — with that employee's own resolution.
pub proof fn lemma_project_embeds_responsible(ctx: Context, pid: int, p: Project, e: Employee)
    requires
        project_matches(ctx, pid, p),
        employee_matches(ctx, ctx.projects@[pid].responsible as int, e),
    ensures
        p.responsible.id@ == decimal_digits(ctx.projects@[pid].responsible as nat),
        employee_eq(p.responsible, e),
{
    lemma_employee_resolution_functional(
        ctx,
        ctx.projects@[pid].responsible as int,
        p.responsible,
        e,
    );
}

/// The same, for every assigned employee of a resolved project.
pub proof fn lemma_project_embeds_assigned(
    ctx: Context,
    pid: int,
    p: Project,
    j: int,
    e: Employee,
)
    requires
        project_matches(ctx, pid, p),
        0 <= j < p.assigned@.len(),
        employee_matches(ctx, ctx.projects@[pid].assigned@[j] as int, e),
    ensures
        p.assigned@[j].id@ == decimal_digits(ctx.projects@[pid].assigned@[j] as nat),
        employee_eq(p.assigned@[j], e),
{
    lemma_employee_resolution_functional(
        ctx,
        ctx.projects@[pid].assigned@[j] as int,
        p.assigned@[j],
        e,
    );
}

} // verus!
